//! Nodes: the entities of the knowledge graph.

use vstd::prelude::*;
use super::ident::{accept, regex_search, search, successor, successor_text, NODE_PATTERN};
use crate::dtype::{DType, URI};
use crate::error::Error;

pub mod node;
pub mod node_impl;
pub mod types;

verus! {

/// `Node` represents each entity or real world object in the knowledge
/// graph.
#[derive(Debug, PartialEq)]
pub enum Node {
    /// A node with empty or null data.
    Blank,
    /// A node created from some type of structured data.
    Schema,
    /// A node for data that comes from an external source.
    Http(URI),
    /// A node that holds a value of the data model.
    Literal(DType),
    /// A node made of many nodes.
    Multiple(Vec<Node>),
}

impl Node {
    /// True exactly for [`Node::Blank`].
    pub fn is_blank(&self) -> (r: bool)
        ensures
            r == (*self is Blank),
    {
        matches!(*self, Node::Blank)
    }

    /// True exactly for [`Node::Schema`].
    pub fn is_schema(&self) -> (r: bool)
        ensures
            r == (*self is Schema),
    {
        matches!(*self, Node::Schema)
    }

    /// True exactly for [`Node::Http`].
    pub fn is_http(&self) -> (r: bool)
        ensures
            r == (*self is Http),
    {
        matches!(*self, Node::Http(_))
    }

    /// True exactly for [`Node::Literal`].
    pub fn is_literal(&self) -> (r: bool)
        ensures
            r == (*self is Literal),
    {
        matches!(*self, Node::Literal(_))
    }

    /// True exactly for [`Node::Multiple`].
    pub fn is_multiple(&self) -> (r: bool)
        ensures
            r == (*self is Multiple),
    {
        matches!(*self, Node::Multiple(_))
    }

    /// Returns the node itself, whose variant tells its type.
    pub fn get_type(&self) -> (r: &Node)
        ensures
            r == self,
    {
        self
    }
}

/// `NodeId` is a unique identifier assigned to every node in the knowledge
/// graph. It comes in the form of `"sg:N4286"`.
#[derive(Debug, PartialEq, Eq)]
pub struct NodeId(pub(crate) String);

impl View for NodeId {
    type V = Seq<char>;

    open(crate) spec fn view(&self) -> Seq<char> {
        self.0@
    }
}

impl NodeId {
    /// Makes an identifier of the text `s`, given what the search for the
    /// form of an identifier found in it.
    pub fn from_search(s: &str, found: Option<bool>) -> (r: Result<NodeId, Error>)
        ensures
            match r {
                Ok(id) => found == Some(true) && id@ == s@,
                Err(e) => found != Some(true) && e.code is RegexParser && e.line == 189 && e.column
                    == 9,
            },
    {
        match accept(s, found, 189, 9) {
            Ok(text) => Ok(NodeId(text)),
            Err(e) => Err(e),
        }
    }

    /// Reads an identifier: the text must have the form of one.
    pub fn from_str(s: &str) -> (r: Result<NodeId, Error>)
        ensures
            match r {
                Ok(id) => regex_search(NODE_PATTERN@, s@) == Some(true) && id@ == s@,
                Err(e) => regex_search(NODE_PATTERN@, s@) != Some(true) && e.code is RegexParser
                    && e.line == 189 && e.column == 9,
            },
    {
        NodeId::from_search(s, search(NODE_PATTERN, s))
    }

    /// The identifier that follows this one: the same text with the digit
    /// `1` added, which must have the form of an identifier.
    pub fn next(&self) -> (r: Option<NodeId>)
        requires
            regex_search(NODE_PATTERN@, successor(self@)) == Some(true),
        ensures
            r matches Some(id) && id@ == successor(self@),
    {
        let ret = successor_text(&self.0);
        match NodeId::from_str(ret.as_str()) {
            Ok(id) => Some(id),
            Err(_) => None,
        }
    }

    /// The identifier that follows this one, where the text with the digit
    /// `1` added has the form of an identifier.
    pub fn try_next(&self) -> (r: Option<NodeId>)
        ensures
            match r {
                Some(id) => regex_search(NODE_PATTERN@, successor(self@)) == Some(true) && id@
                    == successor(self@),
                None => regex_search(NODE_PATTERN@, successor(self@)) != Some(true),
            },
    {
        let ret = successor_text(&self.0);
        match search(NODE_PATTERN, ret.as_str()) {
            Some(true) => self.next(),
            _ => None,
        }
    }

    /// The text of the identifier.
    pub fn to_string(&self) -> (r: String)
        ensures
            r@ == self@,
    {
        self.0.clone()
    }
}

/// `NodeStore` consists of a list of nodes.
pub struct NodeStore {
    nodes: Vec<Node>,
}

impl View for NodeStore {
    type V = Seq<Node>;

    closed spec fn view(&self) -> Seq<Node> {
        self.nodes@
    }
}

impl NodeStore {
    /// Creates an empty `NodeStore`.
    pub fn new() -> (r: NodeStore)
        ensures
            r@.len() == 0,
    {
        NodeStore { nodes: Vec::new() }
    }

    /// The nodes of the store, in order.
    pub fn nodes(&self) -> (r: &[Node])
        ensures
            r@ == self@,
    {
        self.nodes.as_slice()
    }

    /// Returns the number of nodes in the store.
    pub fn len(&self) -> (r: usize)
        ensures
            r == self@.len(),
    {
        self.nodes.len()
    }

    /// Checks if the `NodeStore` is empty.
    pub fn is_empty(&self) -> (r: bool)
        ensures
            r == (self@.len() == 0),
    {
        self.len() == 0
    }
}

impl Default for NodeStore {
    /// The default store is empty.
    fn default() -> (r: NodeStore)
        ensures
            r@.len() == 0,
    {
        NodeStore::new()
    }
}

/// A node together with its identifier.
#[derive(Debug)]
pub struct NodeImpl {
    /// The identifier, in the form of `sg:N4236`.
    id: NodeId,
    /// The variant of node that this node is.
    node_type: Node,
}

impl NodeImpl {
    /// The identifier of the node, as a sequence of characters.
    pub closed spec fn spec_id(&self) -> Seq<char> {
        self.id@
    }

    /// The node itself.
    pub closed spec fn spec_node(&self) -> Node {
        self.node_type
    }

    /// Gives `node_type` the first identifier, `sg:N1`, which must have
    /// the form of an identifier.
    pub fn new(node_type: Node) -> (r: NodeImpl)
        requires
            regex_search(NODE_PATTERN@, successor("sg:N"@)) == Some(true),
        ensures
            r.spec_id() == successor("sg:N"@),
            r.spec_node() == node_type,
    {
        let first = NodeId("sg:N".to_owned());
        match first.next() {
            Some(id) => NodeImpl { id, node_type },
            None => {
                assert(false);
                NodeImpl { id: first, node_type }
            },
        }
    }

    /// Gives `node_type` the first identifier, where `sg:N1` has the form
    /// of an identifier.
    pub fn try_new(node_type: Node) -> (r: Option<NodeImpl>)
        ensures
            match r {
                Some(node) => regex_search(NODE_PATTERN@, successor("sg:N"@)) == Some(true)
                    && node.spec_id() == successor("sg:N"@) && node.spec_node() == node_type,
                None => regex_search(NODE_PATTERN@, successor("sg:N"@)) != Some(true),
            },
    {
        let first = NodeId("sg:N".to_owned());
        let ret = successor_text(&first.0);
        match search(NODE_PATTERN, ret.as_str()) {
            Some(true) => Some(NodeImpl::new(node_type)),
            _ => None,
        }
    }

    /// Returns the identifier of the node.
    pub fn id(&self) -> (r: &str)
        ensures
            r@ == self.spec_id(),
    {
        self.id.0.as_str()
    }
}

} // verus!
