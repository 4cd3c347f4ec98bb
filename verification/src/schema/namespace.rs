//! Namespaces and the set that registers them.

use vstd::prelude::*;
use crate::table::{key_or_value, distinct_keys, value_or_key, with_pair, with_pairs, Pairs, PairTable};
use crate::voc::{RdfVoc, RdfsVoc, SchemaVoc, Vocabulary};
use crate::dtype::IRI;

verus! {

/// Namespace is an RDF namespace (vocabulary).
#[derive(Debug, PartialEq)]
pub struct Namespace {
    prefix: IRI,
    full: IRI,
}

impl View for Namespace {
    type V = (Seq<char>, Seq<char>);

    closed spec fn view(&self) -> (Seq<char>, Seq<char>) {
        (self.prefix@, self.full@)
    }
}

impl Clone for Namespace {
    fn clone(&self) -> (r: Namespace)
        ensures
            r@ == self@,
    {
        Namespace { prefix: self.prefix.clone(), full: self.full.clone() }
    }
}

impl Namespace {
    /// Creates a new namespace.
    pub fn new(prefix: &str, full: &str) -> (r: Namespace)
        ensures
            r@ == (prefix@, full@),
    {
        Namespace { prefix: prefix.to_owned(), full: full.to_owned() }
    }

    /// Creates a new namespace from string slices.
    pub fn from(prefix: &str, full: &str) -> (r: Namespace)
        ensures
            r@ == (prefix@, full@),
    {
        Namespace { prefix: prefix.to_owned(), full: full.to_owned() }
    }

    /// Returns the namespace prefix.
    pub fn prefix(&self) -> (r: &str)
        ensures
            r@ == self@.0,
    {
        self.prefix.as_str()
    }

    /// Returns the full identifier of the namespace.
    pub fn full(&self) -> (r: &str)
        ensures
            r@ == self@.1,
    {
        self.full.as_str()
    }
}

/// The model of a list of namespaces.
pub open spec fn namespaces_view(s: Seq<Namespace>) -> Pairs {
    Seq::new(s.len(), |i: int| s[i]@)
}

/// `Namespaces` is a set of registered namespaces, one for each prefix.
#[derive(Debug, PartialEq)]
pub struct Namespaces {
    /// The registered prefixes and the full identifiers they stand for.
    prefixes: PairTable,
}

impl View for Namespaces {
    type V = Pairs;

    closed spec fn view(&self) -> Pairs {
        self.prefixes@
    }
}

impl Clone for Namespaces {
    fn clone(&self) -> (r: Namespaces)
        ensures
            r@ == self@,
    {
        Namespaces { prefixes: self.prefixes.clone() }
    }
}

impl Namespaces {
    /// Creates a set with no registered namespace.
    pub fn new() -> (r: Namespaces)
        ensures
            r@ == Seq::<(Seq<char>, Seq<char>)>::empty(),
    {
        Namespaces { prefixes: PairTable::new() }
    }

    /// A store with the three vocabularies that every graph starts from:
    /// RDF, RDF Schema and schema.org, registered in that order.
    pub fn default() -> (r: Namespaces)
        ensures
            r@ == with_pair(
                with_pair(
                    with_pair(
                        Seq::<(Seq<char>, Seq<char>)>::empty(),
                        "rdf:"@,
                        "http://www.w3.org/1999/02/22-rdf-syntax-ns#"@,
                    ),
                    "rdfs:"@,
                    "http://www.w3.org/2000/01/rdf-schema#"@,
                ),
                "schema:"@,
                "https://schema.org/"@,
            ),
    {
        let mut ns = Namespaces::new();
        let rdf = Namespace::new(RdfVoc::prefix().as_str(), RdfVoc::full().as_str());
        let rdfs = Namespace::new(RdfsVoc::prefix().as_str(), RdfsVoc::full().as_str());
        let schema = Namespace::new(SchemaVoc::prefix().as_str(), SchemaVoc::full().as_str());
        ns.add(&rdf);
        ns.add(&rdfs);
        ns.add(&schema);
        ns
    }

    /// Adds a namespace to the store. A prefix that is already registered
    /// stands for the new full identifier from then on.
    pub fn add(&mut self, ns: &Namespace)
        ensures
            final(self)@ == with_pair(old(self)@, ns@.0, ns@.1),
    {
        self.prefixes.set(ns.prefix().to_owned(), ns.full().to_owned());
    }

    /// Associates the prefix with a full identifier.
    pub fn add_prefix(&mut self, prefix: &str, full: &str)
        ensures
            final(self)@ == with_pair(old(self)@, prefix@, full@),
    {
        self.add(&Namespace { prefix: prefix.to_owned(), full: full.to_owned() });
    }

    /// Adds the namespaces of a list, one after the other.
    pub fn add_multiple(&mut self, ns: &[Namespace])
        ensures
            final(self)@ == with_pairs(old(self)@, namespaces_view(ns@)),
    {
        let mut i: usize = 0;
        assert(namespaces_view(ns@).take(0) =~= Seq::<(Seq<char>, Seq<char>)>::empty());
        while i < ns.len()
            invariant
                i <= ns@.len(),
                self@ == with_pairs(old(self)@, namespaces_view(ns@).take(i as int)),
            decreases ns@.len() - i,
        {
            let r_ns = ns[i].clone();
            assert(namespaces_view(ns@).take(i + 1).drop_last() =~= namespaces_view(ns@).take(
                i as int,
            ));
            assert(namespaces_view(ns@).take(i + 1).last() == ns@[i as int]@);
            self.add(&r_ns);
            i += 1;
        }
        assert(namespaces_view(ns@).take(ns@.len() as int) =~= namespaces_view(ns@));
    }

    /// Replaces the full identifier of a known vocabulary with its prefix:
    /// the earliest registered prefix that stands for `iri`, and `iri`
    /// itself where there is none.
    pub fn short_iri(&self, iri: &str) -> (r: IRI)
        ensures
            r@ == key_or_value(self@, iri@),
    {
        self.prefixes.key_or_value(iri)
    }

    /// Replaces a known prefix with the full identifier it stands for; any
    /// other text is returned as it is.
    pub fn full_iri(&self, iri: &str) -> (r: IRI)
        ensures
            r@ == value_or_key(self@, iri@),
    {
        self.prefixes.value_or_key(iri)
    }

    /// Returns the number of registered namespaces.
    pub fn len(&self) -> (r: usize)
        ensures
            r == self@.len(),
            distinct_keys(self@),
    {
        self.prefixes.len()
    }

    /// Returns `true` if no namespace is registered.
    pub fn is_empty(&self) -> (r: bool)
        ensures
            r == (self@.len() == 0),
    {
        self.prefixes.len() == 0
    }

    /// Lists the registered namespaces, in the order of registration.
    pub fn list(&self) -> (r: Vec<Namespace>)
        ensures
            namespaces_view(r@) == self@,
    {
        let n = self.prefixes.len();
        let mut ns: Vec<Namespace> = Vec::with_capacity(n);
        let mut i: usize = 0;
        while i < n
            invariant
                i <= n,
                n == self@.len(),
                namespaces_view(ns@) == self@.take(i as int),
            decreases n - i,
        {
            let item = Namespace {
                prefix: self.prefixes.key_at(i).clone(),
                full: self.prefixes.value_at(i).clone(),
            };
            assert(item@ == self@[i as int]);
            let ghost before = namespaces_view(ns@);
            ns.push(item);
            assert(namespaces_view(ns@) =~= before.push(item@));
            assert(namespaces_view(ns@) =~= self@.take(i + 1));
            i += 1;
        }
        assert(self@.take(n as int) =~= self@);
        ns
    }
}

/// The set under its longer name, which is harder to mistake for
/// [`Namespace`].
pub type NamespaceStore = Namespaces;

} // verus!
