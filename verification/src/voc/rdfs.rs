//! The RDF Schema vocabulary.

use vstd::prelude::*;
use crate::dtype::IRI;
use crate::voc::Vocabulary;

verus! {

/// The RDF Schema vocabulary.
pub struct RdfsVoc;

impl Vocabulary for RdfsVoc {
    type Prefix = IRI;

    type Full = IRI;

    fn prefix() -> (r: IRI)
        ensures
            r@ == "rdfs:"@,
    {
        "rdfs:".to_owned()
    }

    fn full() -> (r: IRI)
        ensures
            r@ == "http://www.w3.org/2000/01/rdf-schema#"@,
    {
        "http://www.w3.org/2000/01/rdf-schema#".to_owned()
    }
}

} // verus!
