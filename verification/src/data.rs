//! Where the data comes from, and how the environment is merged into it.

use vstd::prelude::*;

use serde_json::Value;

use crate::error::{owned_path, same_path, Failure};
use crate::json::{
    empty_object, empty_object_tree, json_parse, json_view, parse_value, set_field, text_value,
    JsonTree,
};

verus! {

/// Where the data of a run comes from.
#[derive(Debug)]
pub enum DataSource {
    /// The named file is to be read and parsed.
    File(String),
    /// Standard input is to be read and parsed.
    Stdin,
    /// Nothing is to be read: the data is this value, the empty object.
    Empty(Value),
}

/// Decides where the data comes from: a named file unless standard input is
/// requested too, standard input where no file is named, and the empty
/// object in every other case.
pub fn load_data(data_file: Option<&str>, from_stdin: bool) -> (source: DataSource)
    ensures
        match (data_file, from_stdin) {
            (Some(file), false) => source matches DataSource::File(path) && path@ == file@,
            (None, true) => source is Stdin,
            _ => source matches DataSource::Empty(value) && json_view(value)
                == empty_object_tree(),
        },
{
    match (data_file, from_stdin) {
        (Some(file), false) => DataSource::File(file.to_owned()),
        (None, true) => DataSource::Stdin,
        _ => DataSource::Empty(empty_object()),
    }
}

/// What becomes of the parser's answer: the value as it is, or the failure
/// `ParseData` with the path of the data and the parser's diagnostic.
pub fn data_parsed(path: Option<&str>, parsed: Result<Value, serde_json::Error>) -> (result: Result<
    Value,
    Failure,
>)
    ensures
        match parsed {
            Ok(value) => result == Ok::<Value, Failure>(value),
            Err(reason) => result matches Err(Failure::ParseData { path: stored, cause })
                && same_path(stored, path) && cause == reason,
        },
{
    match parsed {
        Ok(value) => Ok(value),
        Err(cause) => Err(Failure::ParseData { path: owned_path(path), cause }),
    }
}

/// What a text that was read, or the failure to read it, yields as data.
pub open spec fn data_outcome(
    path: Option<&str>,
    content: Result<String, String>,
    result: Result<Value, Failure>,
) -> bool {
    match content {
        Err(reason) => result matches Err(Failure::ReadData { path: stored, detail })
            && same_path(stored, path) && detail == reason,
        Ok(text) => match json_parse(text@) {
            Some(tree) => result matches Ok(value) && json_view(value) == tree,
            None => result matches Err(Failure::ParseData { path: stored, .. }) && same_path(
                stored,
                path,
            ),
        },
    }
}

fn load_json(path: Option<&str>, content: Result<String, String>) -> (result: Result<
    Value,
    Failure,
>)
    ensures
        data_outcome(path, content, result),
{
    match content {
        Err(detail) => Err(Failure::ReadData { path: owned_path(path), detail }),
        Ok(text) => data_parsed(path, parse_value(text.as_str())),
    }
}

/// Turns what was read from the data file into the data.
///
/// `content` is the text of the file, or the detail of the failure to read
/// it. A text that is valid JSON yields its value; a failure to read and a
/// text that is no valid JSON yield a failure that names the file.
pub fn load_json_from_file(file_path: &str, content: Result<String, String>) -> (result: Result<
    Value,
    Failure,
>)
    ensures
        data_outcome(Some(file_path), content, result),
{
    load_json(Some(file_path), content)
}

/// Turns what was read from standard input into the data.
///
/// `content` is the text that was read, or the detail of the failure to
/// read. A text that is valid JSON yields its value.
pub fn load_json_from_stdin(content: Result<String, String>) -> (result: Result<Value, Failure>)
    ensures
        data_outcome(None, content, result),
{
    load_json(None, content)
}

/// The key under which the environment is put into the data.
pub open spec fn environment_key() -> Seq<char> {
    "_ENV"@
}

/// The entries of the environment object: each variable's name bound to its
/// value as a JSON string. Where a name comes twice, the later value stays.
pub open spec fn environment_entries(variables: Seq<(Seq<char>, Seq<char>)>) -> Map<
    Seq<char>,
    JsonTree,
>
    decreases variables.len(),
{
    if variables.len() == 0 {
        Map::empty()
    } else {
        environment_entries(variables.drop_last()).insert(
            variables.last().0,
            JsonTree::Text(variables.last().1),
        )
    }
}

/// The environment object has a key for each variable's name, and no other.
pub proof fn lemma_environment_names(variables: Seq<(Seq<char>, Seq<char>)>, name: Seq<char>)
    ensures
        environment_entries(variables).dom().contains(name) <==> exists|i: int|
            0 <= i < variables.len() && (#[trigger] variables[i]).0 == name,
    decreases variables.len(),
{
    if variables.len() > 0 {
        let earlier = variables.drop_last();
        lemma_environment_names(earlier, name);
        if environment_entries(variables).dom().contains(name) {
            if name == variables.last().0 {
                assert(variables[variables.len() - 1].0 == name);
            } else {
                let i = choose|i: int| 0 <= i < earlier.len() && (#[trigger] earlier[i]).0 == name;
                assert(variables[i].0 == name);
            }
        }
        if exists|i: int| 0 <= i < variables.len() && (#[trigger] variables[i]).0 == name {
            let i = choose|i: int| 0 <= i < variables.len() && (#[trigger] variables[i]).0 == name;
            if i < earlier.len() {
                assert(earlier[i].0 == name);
            }
        }
    }
}

/// The environment object binds a name to the value of the last variable
/// that has this name, as a JSON string.
pub proof fn lemma_environment_value(variables: Seq<(Seq<char>, Seq<char>)>, last: int)
    requires
        0 <= last < variables.len(),
        forall|later: int|
            last < later < variables.len() ==> (#[trigger] variables[later]).0
                != variables[last].0,
    ensures
        environment_entries(variables).dom().contains(variables[last].0),
        environment_entries(variables)[variables[last].0] == JsonTree::Text(variables[last].1),
    decreases variables.len(),
{
    if last < variables.len() - 1 {
        let earlier = variables.drop_last();
        assert(variables[variables.len() - 1].0 != variables[last].0);
        assert forall|later: int| last < later < earlier.len() implies (#[trigger] earlier[later]).0
            != earlier[last].0 by {
            assert(variables[later].0 != variables[last].0);
        }
        lemma_environment_value(earlier, last);
    }
}

/// The data with the environment merged in: an object gets the environment
/// object under the reserved key, in place of whatever it held there; any
/// other value stays as it is.
pub open spec fn with_environment(data: JsonTree, variables: Seq<(Seq<char>, Seq<char>)>) -> JsonTree {
    match data {
        JsonTree::Object(entries) => JsonTree::Object(
            entries.insert(environment_key(), JsonTree::Object(environment_entries(variables))),
        ),
        other => other,
    }
}

/// Whether the environment is of use to the data: only an object takes it,
/// so for any other value it need not be read.
pub fn takes_environment(context: &Value) -> (wanted: bool)
    ensures
        wanted == (json_view(*context) is Object),
{
    context.is_object()
}

/// Puts the environment variables into the data under the key `_ENV`.
///
/// `variables` holds each variable's name and value. Data that is no object
/// is left untouched.
pub fn add_environment_to_context(context: &mut Value, variables: &Vec<(String, String)>)
    ensures
        json_view(*final(context)) == with_environment(
            json_view(*old(context)),
            variables.deep_view(),
        ),
        !(json_view(*old(context)) is Object) ==> *final(context) == *old(context),
{
    if context.is_object() {
        let mut environment = empty_object();
        let ghost pairs = variables.deep_view();
        let mut done: usize = 0;
        while done < variables.len()
            invariant
                done <= variables.len(),
                pairs == variables.deep_view(),
                json_view(environment) == JsonTree::Object(
                    environment_entries(pairs.take(done as int)),
                ),
            decreases variables.len() - done,
        {
            let name = variables[done].0.clone();
            let text = variables[done].1.clone();
            proof {
                let next = pairs.take(done + 1);
                assert(next.drop_last() == pairs.take(done as int));
                assert(next.last() == (name@, text@));
            }
            set_field(&mut environment, name, text_value(text));
            done += 1;
        }
        proof {
            assert(pairs.take(done as int) == pairs);
        }
        set_field(context, "_ENV".to_owned(), environment);
    }
}

} // verus!
