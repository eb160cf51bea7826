//! The JSON boundary: the parsed tree type of serde_json, and the few calls
//! into it that the store makes, each under the contract the crate relies on.

use vstd::prelude::*;
use crate::node::{Node, node_has_key, node_child};

verus! {

#[verifier::external_type_specification]
#[verifier::external_body]
pub struct ExValue(serde_json::Value);

/// The model of a parsed tree: which document a `serde_json::Value` stands for.
pub uninterp spec fn value_model(v: serde_json::Value) -> Node;

/// What parsing a text yields: `None` when the parser does not accept the
/// text, otherwise the model of the one document the text denotes. Whether a
/// text parses, and to what, depends on the text alone.
pub uninterp spec fn parsed_doc(s: Seq<char>) -> Option<Node>;

/// Relies on serde_json::from_str::<Value>: whether a text parses, and the
/// tree it parses to, are functions of the text alone.
#[verifier::external_body]
pub(crate) fn parse_document(text: &str) -> (r: Option<serde_json::Value>)
    ensures
        r is Some <==> parsed_doc(text@) is Some,
        r matches Some(v) ==> Some(value_model(v)) == parsed_doc(text@),
{
    serde_json::from_str::<serde_json::Value>(text).ok()
}

/// Relies on serde_json::Value::get with a string key: on an object it looks
/// the key up in the object's map, on every other node it returns `None`.
#[verifier::external_body]
pub(crate) fn value_get<'a>(v: &'a serde_json::Value, key: &str) -> (r: Option<
    &'a serde_json::Value,
>)
    ensures
        r is Some <==> node_has_key(value_model(*v), key@),
        r matches Some(c) ==> value_model(*c) == node_child(value_model(*v), key@),
{
    v.get(key)
}

/// Relies on serde_json::Value::as_i64: `Some` exactly when the node is a
/// number that is an integer representable in 64 signed bits.
#[verifier::external_body]
pub(crate) fn value_as_i64(v: &serde_json::Value) -> (r: Option<i64>)
    ensures
        r is Some <==> value_model(*v) is Int,
        r matches Some(i) ==> value_model(*v) == Node::Int(i),
{
    v.as_i64()
}

/// Relies on serde_json::Value::as_str: `Some` exactly when the node is a
/// string, and then the string itself.
#[verifier::external_body]
pub(crate) fn value_as_str<'a>(v: &'a serde_json::Value) -> (r: Option<&'a str>)
    ensures
        r is Some <==> value_model(*v) is Str,
        r matches Some(s) ==> value_model(*v) == Node::Str(s@),
{
    v.as_str()
}

/// Relies on serde_json::Value::as_array: `Some` exactly when the node is an
/// array, and then a clone of its elements, each standing for the same tree.
#[verifier::external_body]
pub(crate) fn value_as_array(v: &serde_json::Value) -> (r: Option<Vec<serde_json::Value>>)
    ensures
        r is Some <==> value_model(*v) is Arr,
        r matches Some(xs) ==> value_model(*v) == Node::Arr(
            xs@.map_values(|e: serde_json::Value| value_model(e)),
        ),
{
    match v.as_array() {
        Some(a) => Some(a.clone()),
        None => None,
    }
}

/// Relies on serde_json::Value::clone: the clone stands for the same tree.
#[verifier::external_body]
pub(crate) fn value_clone(v: &serde_json::Value) -> (r: serde_json::Value)
    ensures
        value_model(r) == value_model(*v),
{
    v.clone()
}

/// Relies on serde_json::Value::as_bool: `Some` exactly when the node is a
/// boolean.
#[verifier::external_body]
pub(crate) fn value_as_bool(v: &serde_json::Value) -> (r: Option<bool>)
    ensures
        r is Some <==> value_model(*v) is Bool,
        r matches Some(b) ==> value_model(*v) == Node::Bool(b),
{
    v.as_bool()
}

} // verus!
