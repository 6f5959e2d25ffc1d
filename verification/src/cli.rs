//! The command-line options and the routing of standard input.

use vstd::prelude::*;

use crate::error::Failure;

verus! {

/// Which input reads standard input.
#[derive(Debug, Clone, Copy, PartialEq, Eq, Structural)]
pub enum StdinType {
    /// The template text arrives on standard input.
    Template,
    /// The JSON data arrives on standard input.
    Data,
    /// Standard input is not read.
    Neither,
}

/// The options of one run.
#[derive(Debug)]
pub struct Args {
    /// The template file, if one was named.
    pub template: Option<String>,
    /// The routing of standard input, if it was given explicitly.
    pub stdin: Option<StdinType>,
    /// The file that receives the output; standard output if absent.
    pub output: Option<String>,
    /// The JSON data file, if one was named.
    pub data_file: Option<String>,
}

/// The routing that is assumed when none is given: with a template file and
/// a data file nothing is read from standard input; with a template file
/// alone the data is; without a template file the template is.
pub open spec fn inferred_stdin(template_given: bool, data_file_given: bool) -> StdinType {
    if template_given && data_file_given {
        StdinType::Neither
    } else if template_given {
        StdinType::Data
    } else {
        StdinType::Template
    }
}

/// The routing in force: the explicit one where there is one, the inferred
/// one otherwise.
pub open spec fn resolved_stdin(
    template_given: bool,
    data_file_given: bool,
    explicit: Option<StdinType>,
) -> StdinType {
    match explicit {
        Some(routing) => routing,
        None => inferred_stdin(template_given, data_file_given),
    }
}

/// Whether template text can be had at all: from a file, or from standard
/// input.
pub open spec fn template_obtainable(template_given: bool, routing: StdinType) -> bool {
    template_given || routing == StdinType::Template
}

/// Computes the routing of standard input in force for the given options.
pub fn resolve_stdin(
    template_given: bool,
    data_file_given: bool,
    explicit: Option<StdinType>,
) -> (routing: StdinType)
    ensures
        routing == resolved_stdin(template_given, data_file_given, explicit),
{
    match explicit {
        Some(routing) => routing,
        None => {
            if template_given && data_file_given {
                StdinType::Neither
            } else if template_given {
                StdinType::Data
            } else {
                StdinType::Template
            }
        },
    }
}

impl Args {
    /// The routing that `load_defaults` leaves in these options.
    pub open spec fn routing(self) -> StdinType {
        resolved_stdin(self.template is Some, self.data_file is Some, self.stdin)
    }

    /// What `load_defaults` answers to these options: it refuses them where
    /// no template can be had.
    pub open spec fn outcome(self) -> Result<(), Failure> {
        if template_obtainable(self.template is Some, self.routing()) {
            Ok(())
        } else {
            Err(Failure::NoTemplate)
        }
    }
}

/// Completes the options with the routing of standard input and checks that
/// a template can be had.
///
/// The routing is filled in even when the options are then refused; nothing
/// else changes.
pub fn load_defaults(args: &mut Args) -> (result: Result<(), Failure>)
    ensures
        final(args).template == old(args).template,
        final(args).output == old(args).output,
        final(args).data_file == old(args).data_file,
        final(args).stdin == Some(old(args).routing()),
        result == old(args).outcome(),
{
    let routing = resolve_stdin(args.template.is_some(), args.data_file.is_some(), args.stdin);
    args.stdin = Some(routing);
    let routed_to_template = match routing {
        StdinType::Template => true,
        _ => false,
    };
    if args.template.is_none() && !routed_to_template {
        return Err(Failure::NoTemplate);
    }
    Ok(())
}

/// With a template file and a data file, and no explicit routing, standard
/// input is not read, and the options are accepted.
pub proof fn lemma_template_and_data_file_leave_stdin_unread(args: Args)
    requires
        args.template is Some,
        args.data_file is Some,
        args.stdin is None,
    ensures
        args.routing() == StdinType::Neither,
        args.outcome() is Ok,
{
}

/// With a template file and nothing else that bears on the routing, the data
/// is read from standard input, and the options are accepted.
pub proof fn lemma_template_alone_routes_data(args: Args)
    requires
        args.template is Some,
        args.data_file is None,
        args.stdin is None,
    ensures
        args.routing() == StdinType::Data,
        args.outcome() is Ok,
{
}

/// Without a template file and without an explicit routing, the template is
/// read from standard input, whether or not a data file is named, and the
/// options are accepted.
pub proof fn lemma_no_template_routes_template(args: Args)
    requires
        args.template is None,
        args.stdin is None,
    ensures
        args.routing() == StdinType::Template,
        args.outcome() is Ok,
{
}

/// Without a template file, a routing other than to the template is refused
/// with the configuration error, whether or not a data file is named.
pub proof fn lemma_no_template_source_refused(args: Args)
    requires
        args.template is None,
        args.routing() != StdinType::Template,
    ensures
        args.outcome() == Err::<(), Failure>(Failure::NoTemplate),
{
}

/// An explicit routing always stands, whatever else is given.
pub proof fn lemma_explicit_routing_stands(args: Args, routing: StdinType)
    requires
        args.stdin == Some(routing),
    ensures
        args.routing() == routing,
{
}

} // verus!
