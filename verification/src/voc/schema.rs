//! The schema.org vocabulary.

use vstd::prelude::*;
use crate::dtype::IRI;
use crate::voc::Vocabulary;

verus! {

/// The schema.org vocabulary.
pub struct SchemaVoc;

impl Vocabulary for SchemaVoc {
    type Prefix = IRI;

    type Full = IRI;

    fn prefix() -> (r: IRI)
        ensures
            r@ == "schema:"@,
    {
        "schema:".to_owned()
    }

    fn full() -> (r: IRI)
        ensures
            r@ == "https://schema.org/"@,
    {
        "https://schema.org/".to_owned()
    }
}

} // verus!
