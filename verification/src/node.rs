//! The mathematical model of a configuration document.
//!
//! A document is an immutable tree of nodes: objects (maps from key to node,
//! keys unique), arrays, strings, integers, booleans, null, and numbers that
//! do not fit a 64-bit signed integer. Contracts throughout the crate speak
//! of this model; the executable tree lives behind the parser.

use vstd::prelude::*;

verus! {

/// One node of a parsed document, at the specification level.
pub enum Node {
    /// A JSON object: keys are unique, so a map models it exactly.
    Obj(Map<Seq<char>, Node>),
    /// A JSON array.
    Arr(Seq<Node>),
    /// A JSON string.
    Str(Seq<char>),
    /// A JSON number that is an integer representable in 64 signed bits.
    Int(i64),
    /// Any other JSON number (fractional, or an integer out of that range).
    OtherNum,
    /// A JSON boolean.
    Bool(bool),
    /// JSON null.
    Null,
}

/// Whether `n` is an object that has the key `k`.
pub open spec fn node_has_key(n: Node, k: Seq<char>) -> bool {
    n matches Node::Obj(m) && m.contains_key(k)
}

/// The child of object `n` under key `k`.
pub open spec fn node_child(n: Node, k: Seq<char>) -> Node {
    n->Obj_0[k]
}

/// Descend from `n` along the key sequence `segs`: each step requires the
/// current node to be an object holding the segment as a key. `None` when
/// any step fails.
pub open spec fn lookup(n: Node, segs: Seq<Seq<char>>) -> Option<Node>
    decreases segs.len(),
{
    if segs.len() == 0 {
        Some(n)
    } else if node_has_key(n, segs[0]) {
        lookup(node_child(n, segs[0]), segs.drop_first())
    } else {
        None
    }
}

} // verus!
