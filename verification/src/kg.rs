//! High-level operations on the knowledge graph: creating graphs, and the
//! vertices and edges that fill them.

pub mod graph;
pub mod load;
pub mod schema;

pub use graph::{KnowledgeGraph, MultiKnowledgeGraph};
pub use load::SUPPORTED_FORMATS;
pub use schema::{Edge, Graph, Vertex};
