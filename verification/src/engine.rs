//! What is taken on trust from `tera`, the template engine.
//!
//! Only the variables of a template are built here. The engine itself is not
//! called from this library: on some template texts it panics while it
//! parses or expands them.

use vstd::prelude::*;

use serde_json::Value;
use tera::Context;

use crate::json::{json_view, no_entries, JsonTree};

verus! {

/// `tera::Context`, the variables that a template can name. Contracts speak
/// of it through [`context_bindings`].
#[verifier::external_type_specification]
#[verifier::external_body]
pub struct ExContext(tera::Context);

/// `tera::Error`, the engine's diagnostic. It is only carried along.
#[verifier::external_type_specification]
#[verifier::external_body]
pub struct ExEngineError(tera::Error);

/// The variables that a context holds: the map from each name to the tree of
/// the value bound to it.
pub uninterp spec fn context_bindings(context: Context) -> Map<Seq<char>, JsonTree>;

/// `Context::new`. Assumed: the new context holds no variable.
pub assume_specification[ Context::new ]() -> (context: Context)
    ensures
        context_bindings(context) == no_entries(),
;

/// Calls `Context::insert` with a JSON value. Assumed: the call returns, and
/// afterwards the name is bound to a value equal to the given one, whether or
/// not the name was bound before; every other variable is as it was.
#[verifier::external_body]
pub(crate) fn bind(context: &mut Context, name: &str, value: &Value)
    ensures
        context_bindings(*final(context)) == context_bindings(*old(context)).insert(
            name@,
            json_view(*value),
        ),
{
    context.insert(name, value);
}

} // verus!
