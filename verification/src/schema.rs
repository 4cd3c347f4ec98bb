//! Namespaces of the data that the graph is built from.

pub mod namespace;

pub use namespace::{Namespace, NamespaceStore, Namespaces};
