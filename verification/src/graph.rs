//! Nodes, predicates, connections and triples of the knowledge graph.

pub mod connection;
pub mod ident;
pub mod node;
pub mod predicate;
pub mod triple;

pub use connection::Connection;
pub use node::{Node, NodeStore};
pub use predicate::Predicate;
pub use triple::Triple;
