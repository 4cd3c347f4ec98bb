//! The vocabularies that every namespace registry starts from.

pub mod rdf;
pub mod rdfs;
pub mod schema;
pub mod voc;

pub use rdf::RdfVoc;
pub use rdfs::RdfsVoc;
pub use schema::SchemaVoc;
pub use voc::Vocabulary;
