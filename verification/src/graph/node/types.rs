//! The forms in which a node can exist.

use vstd::prelude::*;

verus! {

/// `NodeTypes` names the kinds of nodes that the engine supports. It is
/// neither a data type nor a node itself.
#[derive(Debug)]
pub enum NodeTypes {
    /// A node with empty or null data.
    BlankNode,
    /// A node created from some type of data structure.
    SchemaNode,
    /// A node for data that comes from an external source.
    HttpNode,
    /// A node of a primitive type, with no extra data.
    LiteralNode,
}

} // verus!
