//! Reading JSON values with `serde_json`.

use serde_json::Value;
use vstd::prelude::*;

verus! {

/// `serde_json::Value`, a parsed JSON document.
#[verifier::external_type_specification]
#[verifier::external_body]
pub struct ExValue(serde_json::Value);

/// `serde_json::Error`, why a text is not JSON.
#[verifier::external_type_specification]
#[verifier::external_body]
pub struct ExError(serde_json::Error);

/// What a JSON value holds. Numbers that are not whole or do not fit `i64` are
/// told from the others only; of arrays nothing is said.
pub enum JsonTree {
    Null,
    Bool(bool),
    Int(i64),
    OtherNumber,
    Text(Seq<char>),
    Array,
    Object(Map<Seq<char>, JsonTree>),
}

/// What a `serde_json::Value` holds.
pub uninterp spec fn value_tree(v: Value) -> JsonTree;

/// What `serde_json::from_str` makes of a text: what the text holds, or the
/// message of the error with which it is refused.
pub uninterp spec fn parsed_text(text: Seq<char>) -> Result<JsonTree, Seq<char>>;

/// The message of a `serde_json::Error`.
pub uninterp spec fn error_message(e: serde_json::Error) -> Seq<char>;

/// The member of an object under a key; nothing where the value is no object or
/// has no such member.
pub open spec fn member(t: JsonTree, key: Seq<char>) -> Option<JsonTree> {
    match t {
        JsonTree::Object(m) => if m.dom().contains(key) {
            Some(m[key])
        } else {
            None
        },
        _ => None,
    }
}

/// `Value::get` with a string: the member under that key, if the value is an
/// object that has it.
#[verifier::external_body]
pub(crate) fn value_get<'a>(v: &'a Value, key: &str) -> (r: Option<&'a Value>)
    ensures
        r is Some <==> member(value_tree(*v), key@) is Some,
        r is Some ==> value_tree(*r->0) == member(value_tree(*v), key@)->0,
{
    v.get(key)
}

/// `Value::as_str`: the text of a string, nothing for any other value.
#[verifier::external_body]
pub(crate) fn value_str(v: &Value) -> (r: Option<&str>)
    ensures
        r is Some <==> value_tree(*v) is Text,
        r is Some ==> value_tree(*v) == JsonTree::Text(r->0@),
{
    v.as_str()
}

/// `Value::as_bool`: the value of a boolean, nothing for any other value.
#[verifier::external_body]
pub(crate) fn value_bool(v: &Value) -> (r: Option<bool>)
    ensures
        r is Some <==> value_tree(*v) is Bool,
        r is Some ==> value_tree(*v) == JsonTree::Bool(r->0),
{
    v.as_bool()
}

/// `Value::as_i64`: the value of a whole number that fits `i64`, nothing for any
/// other value.
#[verifier::external_body]
pub(crate) fn value_i64(v: &Value) -> (r: Option<i64>)
    ensures
        r is Some <==> value_tree(*v) is Int,
        r is Some ==> value_tree(*v) == JsonTree::Int(r->0),
{
    v.as_i64()
}

/// `serde_json::from_str` at `Value`. Which texts are accepted, and what comes of
/// each, is left to the name.
#[verifier::external_body]
pub(crate) fn parse_value(text: &str) -> (r: Result<Value, serde_json::Error>)
    ensures
        r is Ok ==> parsed_text(text@) == Ok::<JsonTree, Seq<char>>(value_tree(r->Ok_0)),
        r is Err ==> parsed_text(text@) == Err::<JsonTree, Seq<char>>(error_message(r->Err_0)),
{
    serde_json::from_str::<Value>(text)
}

/// `to_string` of a `serde_json::Error`, which gives its message.
#[verifier::external_body]
pub(crate) fn error_text(e: &serde_json::Error) -> (s: String)
    ensures
        s@ == error_message(*e),
{
    e.to_string()
}

} // verus!
