//! Sage is a knowledge-graph toolkit built around a self-describing data
//! value model and the conversion rules that move data in and out of it.
//!
//! The heart of the library is [`dtype`]: the tree of values, its numbers
//! and ordered maps, paths into a tree, and the bridge between native
//! values and the tree in both directions. Around it stand the raw values
//! of [`datastore`], the nodes, predicates and triples of [`graph`], the
//! graphs of [`kg`], and the namespace registries of [`schema`] and
//! [`vocab`].

use vstd::prelude::*;

pub mod datastore;
pub mod dtype;
pub mod error;
pub mod graph;
pub mod kg;
pub mod schema;
pub mod table;
pub mod text;
pub mod voc;
pub mod vocab;

pub use datastore::json::raw::{to_raw_dtype, RawDType};
pub use dtype::ops::ser::{from_dtype, to_dtype, Serializer};
pub use dtype::ops::Native;
pub use dtype::{DType, DateTime, Dtype, Number, OrderedMap, IRI, URI};
pub use error::{Error, ErrorCode};

verus! {

/// The result of an operation that fails with an [`Error`].
pub type SageResult<T> = Result<T, Error>;

} // verus!
