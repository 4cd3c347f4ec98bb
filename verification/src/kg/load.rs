//! The formats of the files that a graph can be loaded from.

use vstd::prelude::*;

verus! {

/// Extensions of the files that can be loaded.
pub const SUPPORTED_FORMATS: [&'static str; 6] = ["json", "jsonld", "json-ld", "rdf", "xml", "nt"];

} // verus!
