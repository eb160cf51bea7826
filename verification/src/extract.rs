//! Typed extraction of a terminal node into a caller-requested shape.
//!
//! A query names the shape it wants by a type parameter; a node whose shape
//! does not match extracts to nothing, which callers see as the same
//! not-found outcome as a failed descent.

use vstd::prelude::*;
use crate::json::{
    value_as_array,
    value_as_bool,
    value_as_i64,
    value_as_str,
    value_clone,
    value_model,
};
use crate::node::Node;

verus! {

/// A shape that a terminal node can be extracted into.
pub trait FromDocument: Sized {
    /// Whether a node of model `n` has this shape.
    spec fn extractable(n: Node) -> bool;

    /// Whether `x` is the extraction of a node of model `n`.
    spec fn matches_node(x: Self, n: Node) -> bool;

    /// Extract the value of this shape from `v`, if `v` has it.
    fn extract(v: &serde_json::Value) -> (r: Option<Self>)
        ensures
            r is Some <==> Self::extractable(value_model(*v)),
            r matches Some(x) ==> Self::matches_node(x, value_model(*v));
}

impl FromDocument for i64 {
    open spec fn extractable(n: Node) -> bool {
        n is Int
    }

    open spec fn matches_node(x: i64, n: Node) -> bool {
        n == Node::Int(x)
    }

    fn extract(v: &serde_json::Value) -> (r: Option<i64>) {
        value_as_i64(v)
    }
}

impl FromDocument for String {
    open spec fn extractable(n: Node) -> bool {
        n is Str
    }

    open spec fn matches_node(x: String, n: Node) -> bool {
        n == Node::Str(x@)
    }

    fn extract(v: &serde_json::Value) -> (r: Option<String>) {
        match value_as_str(v) {
            Some(s) => Some(s.to_owned()),
            None => None,
        }
    }
}

impl FromDocument for bool {
    open spec fn extractable(n: Node) -> bool {
        n is Bool
    }

    open spec fn matches_node(x: bool, n: Node) -> bool {
        n == Node::Bool(x)
    }

    fn extract(v: &serde_json::Value) -> (r: Option<bool>) {
        value_as_bool(v)
    }
}

/// The raw-node shape: every terminal node extracts, to the subtree itself.
impl FromDocument for serde_json::Value {
    open spec fn extractable(n: Node) -> bool {
        true
    }

    open spec fn matches_node(x: serde_json::Value, n: Node) -> bool {
        value_model(x) == n
    }

    fn extract(v: &serde_json::Value) -> (r: Option<serde_json::Value>) {
        Some(value_clone(v))
    }
}

/// The array shape: an array node extracts to its elements.
impl FromDocument for Vec<serde_json::Value> {
    open spec fn extractable(n: Node) -> bool {
        n is Arr
    }

    open spec fn matches_node(x: Vec<serde_json::Value>, n: Node) -> bool {
        n == Node::Arr(x@.map_values(|e: serde_json::Value| value_model(e)))
    }

    fn extract(v: &serde_json::Value) -> (r: Option<Vec<serde_json::Value>>) {
        value_as_array(v)
    }
}

} // verus!
