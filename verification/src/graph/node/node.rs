//! A store of nodes.

use vstd::prelude::*;

verus! {

/// `Nodeable` should be implemented by every node variant.
pub trait Nodeable {
}

/// A node without content.
pub struct Node {
}

/// `NodeStore` consists of a list of nodes.
pub struct NodeStore {
    nodes: Vec<Node>,
}

impl View for NodeStore {
    type V = Seq<Node>;

    closed spec fn view(&self) -> Seq<Node> {
        self.nodes@
    }
}

impl NodeStore {
    /// Creates an empty `NodeStore`.
    pub fn new() -> (r: NodeStore)
        ensures
            r@.len() == 0,
    {
        NodeStore { nodes: Vec::new() }
    }

    /// The nodes of the store, in order.
    pub fn nodes(&self) -> (r: &[Node])
        ensures
            r@ == self@,
    {
        self.nodes.as_slice()
    }

    /// Returns the number of nodes in the store.
    pub fn len(&self) -> (r: usize)
        ensures
            r == self@.len(),
    {
        self.nodes.len()
    }
}

} // verus!
