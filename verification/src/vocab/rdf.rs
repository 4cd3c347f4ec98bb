//! The RDF concepts vocabulary.

use vstd::prelude::*;
use crate::dtype::IRI;
use crate::vocab::Vocabulary;

verus! {

/// The RDF concepts vocabulary.
pub struct RdfVocab;

impl Vocabulary for RdfVocab {
    type Prefix = IRI;

    type Full = IRI;

    fn prefix() -> (r: IRI)
        ensures
            r@ == "rdf:"@,
    {
        "rdf:".to_owned()
    }

    fn full() -> (r: IRI)
        ensures
            r@ == "http://www.w3.org/1999/02/22-rdf-syntax-ns#"@,
    {
        "http://www.w3.org/1999/02/22-rdf-syntax-ns#".to_owned()
    }
}

} // verus!
