//! A registry of RDF namespaces (vocabularies).

pub mod namespace;
pub mod rdf;
pub mod rdfs;
pub mod schema;
pub mod vocabulary;

pub use namespace::{Namespace, NamespaceStore, Namespaces, URI};
pub use rdf::RdfVocab;
pub use rdfs::RdfsVocab;
pub use schema::SchemaVocab;
pub use vocabulary::Vocabulary;
