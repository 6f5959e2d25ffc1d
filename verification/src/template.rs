//! Where the template comes from, how it is rendered, and where the result
//! goes.

use vstd::prelude::*;

use serde_json::Value;
use tera::Context;

use crate::engine::{bind, context_bindings};
use crate::error::{owned_path, same_path, Failure};
use crate::json::{field, field_names, json_view, no_entries, JsonTree};

verus! {

/// Where the template of a run comes from.
#[derive(Debug)]
pub enum TemplateSource {
    /// The named file is to be read.
    File(String),
    /// Standard input is to be read.
    Stdin,
}

/// Where the output of a run goes.
#[derive(Debug)]
pub enum Destination {
    /// The named file, which is replaced.
    File(String),
    /// Standard output.
    Stdout,
}

/// A text and the place it is to be written to.
#[derive(Debug)]
pub struct Output {
    pub destination: Destination,
    pub text: String,
}

/// What the engine is to be given: a template text, the name to register it
/// under, and the variables to expand it with. Calling the engine is the
/// caller's.
#[derive(Debug)]
pub struct Rendering {
    /// The name under which the engine is to hold the template.
    pub name: String,
    /// The template text.
    pub content: String,
    /// The variables that the template can name.
    pub bindings: Context,
}

/// Decides where the template comes from: the named file, or standard input
/// where no file is named. A file together with standard input is refused,
/// and so is neither of them.
pub fn load_template(template_file: Option<&str>, from_stdin: bool) -> (source: Result<
    TemplateSource,
    Failure,
>)
    ensures
        match (template_file, from_stdin) {
            (Some(file), false) => source matches Ok(TemplateSource::File(path)) && path@
                == file@,
            (Some(_), true) => source == Err::<TemplateSource, Failure>(Failure::SourceConflict),
            (None, true) => source == Ok::<TemplateSource, Failure>(TemplateSource::Stdin),
            (None, false) => source == Err::<TemplateSource, Failure>(Failure::NoTemplateFile),
        },
{
    match (template_file, from_stdin) {
        (Some(file), false) => Ok(TemplateSource::File(file.to_owned())),
        (Some(_), true) => Err(Failure::SourceConflict),
        (None, true) => Ok(TemplateSource::Stdin),
        (None, false) => Err(Failure::NoTemplateFile),
    }
}

/// What a text that was read, or the failure to read it, yields as template:
/// the text as it is, or the failure `ReadTemplate` with the path and the
/// detail.
pub open spec fn template_outcome(
    path: Option<&str>,
    content: Result<String, String>,
    result: Result<String, Failure>,
) -> bool {
    match content {
        Ok(text) => result == Ok::<String, Failure>(text),
        Err(reason) => result matches Err(Failure::ReadTemplate { path: stored, detail })
            && same_path(stored, path) && detail == reason,
    }
}

fn read_template(path: Option<&str>, content: Result<String, String>) -> (result: Result<
    String,
    Failure,
>)
    ensures
        template_outcome(path, content, result),
{
    match content {
        Ok(text) => Ok(text),
        Err(detail) => Err(Failure::ReadTemplate { path: owned_path(path), detail }),
    }
}

/// Turns what was read from standard input into the template text.
///
/// `content` is the text that was read, or the detail of the failure to
/// read.
pub fn read_template_from_stdin(content: Result<String, String>) -> (result: Result<
    String,
    Failure,
>)
    ensures
        template_outcome(None, content, result),
{
    read_template(None, content)
}

/// Turns what was read from the template file into the template text.
///
/// `content` is the text of the file, or the detail of the failure to read
/// it; the failure names the file.
pub fn read_template_from_file(template_file: &str, content: Result<String, String>) -> (result:
    Result<String, Failure>)
    ensures
        template_outcome(Some(template_file), content, result),
{
    read_template(Some(template_file), content)
}

/// The variables that a data value offers to a template: the entries of an
/// object, and none for any other value.
pub open spec fn top_level_entries(data: JsonTree) -> Map<Seq<char>, JsonTree> {
    match data {
        JsonTree::Object(entries) => entries,
        _ => no_entries(),
    }
}

/// The entries bound after the first `count` names have been handled.
spec fn bound_so_far(
    entries: Map<Seq<char>, JsonTree>,
    names: Seq<Seq<char>>,
    count: int,
) -> Map<Seq<char>, JsonTree> {
    entries.restrict(names.take(count).to_set())
}

proof fn lemma_bound_next(entries: Map<Seq<char>, JsonTree>, names: Seq<Seq<char>>, count: int)
    requires
        0 <= count < names.len(),
        entries.dom().contains(names[count]),
    ensures
        bound_so_far(entries, names, count + 1) == bound_so_far(entries, names, count).insert(
            names[count],
            entries[names[count]],
        ),
{
    let before = names.take(count);
    let after = names.take(count + 1);
    assert(after == before.push(names[count]));
    assert forall|name: Seq<char>| after.to_set().contains(name) <==> (before.to_set().contains(
        name,
    ) || name == names[count]) by {
        if after.to_set().contains(name) {
            let k = choose|k: int| 0 <= k < after.len() && after[k] == name;
            if k < count {
                assert(before[k] == name);
            }
        }
        if before.to_set().contains(name) {
            let k = choose|k: int| 0 <= k < before.len() && before[k] == name;
            assert(after[k] == name);
        }
        if name == names[count] {
            assert(after[count] == name);
        }
    }
    assert(bound_so_far(entries, names, count + 1) =~= bound_so_far(entries, names, count).insert(
        names[count],
        entries[names[count]],
    ));
}

proof fn lemma_bound_all(entries: Map<Seq<char>, JsonTree>, names: Seq<Seq<char>>)
    requires
        names.to_set() == entries.dom(),
    ensures
        bound_so_far(entries, names, names.len() as int) == entries,
{
    assert(names.take(names.len() as int) == names);
    assert(bound_so_far(entries, names, names.len() as int) =~= entries);
}

/// Builds the engine's variables from a data value: one variable for each
/// entry of an object, none for a value that is no object.
pub fn template_bindings(context: &Value) -> (bindings: Context)
    ensures
        context_bindings(bindings) == top_level_entries(json_view(*context)),
{
    let mut bindings = Context::new();
    if context.is_object() {
        let names = field_names(context);
        let ghost entries = json_view(*context)->Object_0;
        let ghost keys = names.deep_view();
        proof {
            assert(bound_so_far(entries, keys, 0) =~= no_entries());
        }
        let mut done: usize = 0;
        while done < names.len()
            invariant
                done <= names.len(),
                keys == names.deep_view(),
                keys.to_set() == entries.dom(),
                json_view(*context) == JsonTree::Object(entries),
                context_bindings(bindings) == bound_so_far(entries, keys, done as int),
            decreases names.len() - done,
        {
            let name = names[done].as_str();
            proof {
                assert(keys.to_set().contains(keys[done as int]));
                lemma_bound_next(entries, keys, done as int);
            }
            match field(context, name) {
                Some(value) => {
                    bind(&mut bindings, name, value);
                },
                None => {
                    assert(false);
                },
            }
            done += 1;
        }
        proof {
            lemma_bound_all(entries, keys);
        }
    }
    bindings
}

/// What becomes of the engine's answer to a new template: its refusal is
/// the failure `AddTemplate` with the engine's diagnostic.
pub fn template_added(outcome: Result<(), tera::Error>) -> (result: Result<(), Failure>)
    ensures
        match outcome {
            Ok(_) => result is Ok,
            Err(diagnostic) => result == Err::<(), Failure>(Failure::AddTemplate { diagnostic }),
        },
{
    match outcome {
        Ok(_) => Ok(()),
        Err(diagnostic) => Err(Failure::AddTemplate { diagnostic }),
    }
}

/// What becomes of the engine's answer to a rendering: the text as it is, or
/// the failure `Render` with the engine's diagnostic.
pub fn template_rendered(outcome: Result<String, tera::Error>) -> (result: Result<String, Failure>)
    ensures
        match outcome {
            Ok(text) => result == Ok::<String, Failure>(text),
            Err(diagnostic) => result == Err::<String, Failure>(Failure::Render { diagnostic }),
        },
{
    match outcome {
        Ok(text) => Ok(text),
        Err(diagnostic) => Err(Failure::Render { diagnostic }),
    }
}

/// The name under which the one template of a run is held by the engine.
pub open spec fn template_name() -> Seq<char> {
    "template"@
}

/// Prepares the expansion of the template with the entries of the data as
/// its variables: the text as it came, under its name, and the variables
/// that `template_bindings` gives.
///
/// The caller registers the text with the engine and hands the answer to
/// `template_added`, then expands it and hands the answer to
/// `template_rendered`.
pub fn render_template(template_content: &str, context: &Value) -> (rendering: Rendering)
    ensures
        rendering.name@ == template_name(),
        rendering.content@ == template_content@,
        context_bindings(rendering.bindings) == top_level_entries(json_view(*context)),
{
    Rendering {
        name: "template".to_owned(),
        content: template_content.to_owned(),
        bindings: template_bindings(context),
    }
}

/// Decides where the rendered text goes: to the named file, or to standard
/// output where none is named. The text to write is the content, unchanged.
pub fn write_output(content: &str, output_file: Option<&str>) -> (output: Output)
    ensures
        output.text@ == content@,
        match output_file {
            Some(file) => output.destination matches Destination::File(path) && path@ == file@,
            None => output.destination is Stdout,
        },
{
    let destination = match output_file {
        Some(file) => Destination::File(file.to_owned()),
        None => Destination::Stdout,
    };
    Output { destination, text: content.to_owned() }
}

/// What becomes of the attempt to write: success, or the failure
/// `WriteOutput` with the path of the output file and the detail.
pub fn output_written(output_file: Option<&str>, written: Result<(), String>) -> (result: Result<
    (),
    Failure,
>)
    ensures
        match written {
            Ok(_) => result is Ok,
            Err(reason) => result matches Err(Failure::WriteOutput { path: stored, detail })
                && same_path(stored, output_file) && detail == reason,
        },
{
    match written {
        Ok(_) => Ok(()),
        Err(detail) => Err(Failure::WriteOutput { path: owned_path(output_file), detail }),
    }
}

} // verus!
