//! JSON values: the tree that contracts speak of, and what is taken on trust
//! from `serde_json`.

use vstd::prelude::*;

use serde_json::Value;

verus! {

/// `serde_json::Value`, a JSON value. Its inside is hidden from the verifier;
/// contracts speak of it through [`json_view`].
#[verifier::external_type_specification]
#[verifier::external_body]
pub struct ExValue(serde_json::Value);

/// `serde_json::Number`, a JSON number. It is only carried along.
#[verifier::external_type_specification]
#[verifier::external_body]
pub struct ExNumber(serde_json::Number);

/// `serde_json::Error`, the reason why a text is no valid JSON. It is only
/// carried along.
#[verifier::external_type_specification]
#[verifier::external_body]
pub struct ExJsonError(serde_json::Error);

/// A JSON value as a mathematical tree.
pub enum JsonTree {
    Null,
    Bool(bool),
    Number(serde_json::Number),
    Text(Seq<char>),
    Array(Seq<JsonTree>),
    Object(Map<Seq<char>, JsonTree>),
}

/// The tree that a `serde_json::Value` holds: each variant of the value is
/// the variant of the same kind, an object's entries are the map from each
/// key to the tree of its value.
pub uninterp spec fn json_view(value: Value) -> JsonTree;

/// The tree that `serde_json::from_str` reads from a text, `None` where it
/// refuses the text.
pub uninterp spec fn json_parse(text: Seq<char>) -> Option<JsonTree>;

/// No entries at all.
pub open spec fn no_entries() -> Map<Seq<char>, JsonTree> {
    Map::empty()
}

/// The object without entries, `{}`.
pub open spec fn empty_object_tree() -> JsonTree {
    JsonTree::Object(no_entries())
}

/// Calls `serde_json::from_str` for a `Value`. Assumed: the outcome depends on
/// the text alone, so it is the one that [`json_parse`] names.
#[verifier::external_body]
pub(crate) fn parse_value(text: &str) -> (parsed: Result<Value, serde_json::Error>)
    ensures
        parsed matches Ok(value) ==> json_parse(text@) == Some(json_view(value)),
        parsed is Err ==> json_parse(text@) is None,
{
    serde_json::from_str(text)
}

/// `Value::is_object`. Assumed: it answers whether the value is the
/// `Object` variant.
pub assume_specification[ Value::is_object ](value: &Value) -> (answer: bool)
    ensures
        answer == (json_view(*value) is Object),
;

/// Makes `Value::Object` of `serde_json::Map::new()`. Assumed: that is the
/// object without entries.
#[verifier::external_body]
pub(crate) fn empty_object() -> (object: Value)
    ensures
        json_view(object) == empty_object_tree(),
{
    Value::Object(serde_json::Map::new())
}

/// Calls `Value::from` on a `String`. Assumed: the result is the `String`
/// variant that holds the text.
#[verifier::external_body]
pub(crate) fn text_value(text: String) -> (value: Value)
    ensures
        json_view(value) == JsonTree::Text(text@),
{
    Value::from(text)
}

/// Calls `Map::insert` on the entries of an object. Assumed: afterwards the
/// key is bound to the value, whether or not it was bound before, and every
/// other entry is as it was.
#[verifier::external_body]
pub(crate) fn set_field(object: &mut Value, name: String, value: Value)
    requires
        json_view(*old(object)) is Object,
    ensures
        json_view(*final(object)) == JsonTree::Object(
            json_view(*old(object))->Object_0.insert(name@, json_view(value)),
        ),
{
    object.as_object_mut().unwrap().insert(name, value);
}

/// Calls `Map::keys` on the entries of an object and copies the keys out.
/// Assumed: every key of the object is among them, and nothing else is. No
/// order is promised.
#[verifier::external_body]
pub(crate) fn field_names(object: &Value) -> (names: Vec<String>)
    requires
        json_view(*object) is Object,
    ensures
        names.deep_view().to_set() == json_view(*object)->Object_0.dom(),
{
    object.as_object().unwrap().keys().cloned().collect()
}

/// Calls `Value::get` with a key. Assumed: it finds the value that an object
/// binds to the key, and nothing in a value that is no object or lacks the key.
#[verifier::external_body]
pub(crate) fn field<'a>(object: &'a Value, name: &str) -> (found: Option<&'a Value>)
    ensures
        found matches Some(value) ==> {
            &&& json_view(*object) matches JsonTree::Object(entries)
            &&& entries.dom().contains(name@)
            &&& json_view(*value) == entries[name@]
        },
        found is None ==> !(json_view(*object) matches JsonTree::Object(entries)
            && entries.dom().contains(name@)),
{
    object.get(name)
}

} // verus!
