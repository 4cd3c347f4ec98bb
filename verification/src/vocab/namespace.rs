//! Namespaces, the store that registers them, and identifiers that expand
//! against a context.

use vstd::prelude::*;
use crate::table::{key_or_value, distinct_keys, value_or_key, with_pair, with_pairs, Pairs, PairTable};
use super::{RdfVocab, RdfsVocab, SchemaVocab, Vocabulary};
use crate::dtype::IRI;
use crate::text::{chars_of, string_of};

verus! {

/// `s` without the run of `c` at its end.
pub open spec fn trimmed_end(s: Seq<char>, c: char) -> Seq<char>
    decreases s.len(),
{
    if s.len() > 0 && s.last() == c {
        trimmed_end(s.drop_last(), c)
    } else {
        s
    }
}

/// `URI` expands and contracts a URL given its context and the property.
pub struct URI {
    /// The base of the identifier, such as `https://schema.org`.
    context: IRI,
    /// What is named under the base, such as `Person`.
    short: IRI,
}

impl URI {
    /// The context of the identifier, as a sequence of characters.
    pub closed spec fn spec_context(&self) -> Seq<char> {
        self.context@
    }

    /// The short name of the identifier, as a sequence of characters.
    pub closed spec fn spec_short(&self) -> Seq<char> {
        self.short@
    }

    /// Creates a new `URI`.
    pub fn new(context: &str, short: &str) -> (r: URI)
        ensures
            r.spec_context() == context@,
            r.spec_short() == short@,
    {
        URI { context: context.to_owned(), short: short.to_owned() }
    }

    /// The context of the identifier.
    pub fn context(&self) -> (r: &IRI)
        ensures
            r@ == self.spec_context(),
    {
        &self.context
    }

    /// The short name of the identifier.
    pub fn short(&self) -> (r: &IRI)
        ensures
            r@ == self.spec_short(),
    {
        &self.short
    }

    /// The full identifier: the context without any `/` at its end, then
    /// one `/`, then the short name.
    pub fn expand(&self) -> (r: IRI)
        ensures
            r@ == trimmed_end(self.spec_context(), '/') + seq!['/'] + self.spec_short(),
    {
        let context = chars_of(self.context.as_str());
        let mut end: usize = context.len();
        assert(context@.take(context@.len() as int) =~= context@);
        while end > 0 && context[end - 1] == '/'
            invariant
                end <= context@.len(),
                trimmed_end(context@.take(end as int), '/') == trimmed_end(context@, '/'),
            decreases end,
        {
            assert(context@.take(end as int).drop_last() =~= context@.take(end - 1));
            end -= 1;
        }
        let mut out: Vec<char> = Vec::new();
        let mut i: usize = 0;
        while i < end
            invariant
                i <= end <= context@.len(),
                out@ == context@.take(i as int),
            decreases end - i,
        {
            assert(context@.take(i + 1) =~= context@.take(i as int).push(context@[i as int]));
            out.push(context[i]);
            i += 1;
        }
        out.push('/');
        let short = chars_of(self.short.as_str());
        let mut j: usize = 0;
        let ghost head = out@;
        while j < short.len()
            invariant
                j <= short@.len(),
                out@ == head + short@.take(j as int),
            decreases short@.len() - j,
        {
            assert(short@.take(j + 1) =~= short@.take(j as int).push(short@[j as int]));
            out.push(short[j]);
            assert(out@ =~= head + short@.take(j + 1));
            j += 1;
        }
        assert(short@.take(short@.len() as int) =~= short@);
        assert(head =~= trimmed_end(context@, '/') + seq!['/']);
        string_of(out.as_slice())
    }
}

/// Namespace is an RDF namespace (vocabulary).
#[derive(Debug, PartialEq)]
pub struct Namespace {
    prefix: IRI,
    full: IRI,
}

impl View for Namespace {
    type V = (Seq<char>, Seq<char>);

    closed spec fn view(&self) -> (Seq<char>, Seq<char>) {
        (self.prefix@, self.full@)
    }
}

impl Clone for Namespace {
    fn clone(&self) -> (r: Namespace)
        ensures
            r@ == self@,
    {
        Namespace { prefix: self.prefix.clone(), full: self.full.clone() }
    }
}

impl Namespace {
    /// Creates a new namespace.
    pub fn new(prefix: &str, full: &str) -> (r: Namespace)
        ensures
            r@ == (prefix@, full@),
    {
        Namespace { prefix: prefix.to_owned(), full: full.to_owned() }
    }

    /// Creates a new namespace from string slices.
    pub fn from(prefix: &str, full: &str) -> (r: Namespace)
        ensures
            r@ == (prefix@, full@),
    {
        Namespace { prefix: prefix.to_owned(), full: full.to_owned() }
    }

    /// Returns the namespace prefix.
    pub fn prefix(&self) -> (r: &str)
        ensures
            r@ == self@.0,
    {
        self.prefix.as_str()
    }

    /// Returns the full identifier of the namespace.
    pub fn full(&self) -> (r: &str)
        ensures
            r@ == self@.1,
    {
        self.full.as_str()
    }
}

impl Default for Namespace {
    /// The default namespace is `schema:Thing`.
    fn default() -> (r: Namespace)
        ensures
            r@ == ("schema:Thing"@, "https://schema.org/Thing"@),
    {
        Namespace::new("schema:Thing", "https://schema.org/Thing")
    }
}

/// The model of a list of namespaces.
pub open spec fn namespaces_view(s: Seq<Namespace>) -> Pairs {
    Seq::new(s.len(), |i: int| s[i]@)
}

/// `NamespaceStore` is a set of registered namespaces, one for each prefix.
#[derive(Debug, PartialEq)]
pub struct NamespaceStore {
    /// The registered prefixes and the full identifiers they stand for.
    prefixes: PairTable,
}

impl View for NamespaceStore {
    type V = Pairs;

    closed spec fn view(&self) -> Pairs {
        self.prefixes@
    }
}

impl Clone for NamespaceStore {
    fn clone(&self) -> (r: NamespaceStore)
        ensures
            r@ == self@,
    {
        NamespaceStore { prefixes: self.prefixes.clone() }
    }
}

impl NamespaceStore {
    /// Creates a store with no registered namespace.
    pub fn new() -> (r: NamespaceStore)
        ensures
            r@ == Seq::<(Seq<char>, Seq<char>)>::empty(),
    {
        NamespaceStore { prefixes: PairTable::new() }
    }

    /// Adds a namespace to the store. A prefix that is already registered
    /// stands for the new full identifier from then on.
    pub fn add(&mut self, ns: &Namespace)
        ensures
            final(self)@ == with_pair(old(self)@, ns@.0, ns@.1),
    {
        self.prefixes.set(ns.prefix().to_owned(), ns.full().to_owned());
    }

    /// Associates the prefix with a full identifier.
    pub fn add_prefix(&mut self, prefix: &str, full: &str)
        ensures
            final(self)@ == with_pair(old(self)@, prefix@, full@),
    {
        self.add(&Namespace { prefix: prefix.to_owned(), full: full.to_owned() });
    }

    /// Adds the namespaces of a list, one after the other.
    pub fn add_multiple(&mut self, ns: &[Namespace])
        ensures
            final(self)@ == with_pairs(old(self)@, namespaces_view(ns@)),
    {
        let mut i: usize = 0;
        assert(namespaces_view(ns@).take(0) =~= Seq::<(Seq<char>, Seq<char>)>::empty());
        while i < ns.len()
            invariant
                i <= ns@.len(),
                self@ == with_pairs(old(self)@, namespaces_view(ns@).take(i as int)),
            decreases ns@.len() - i,
        {
            let r_ns = ns[i].clone();
            assert(namespaces_view(ns@).take(i + 1).drop_last() =~= namespaces_view(ns@).take(
                i as int,
            ));
            assert(namespaces_view(ns@).take(i + 1).last() == ns@[i as int]@);
            self.add(&r_ns);
            i += 1;
        }
        assert(namespaces_view(ns@).take(ns@.len() as int) =~= namespaces_view(ns@));
    }

    /// Replaces the full identifier of a known vocabulary with its prefix:
    /// the earliest registered prefix that stands for `iri`, and `iri`
    /// itself where there is none.
    pub fn short_iri(&self, iri: &str) -> (r: IRI)
        ensures
            r@ == key_or_value(self@, iri@),
    {
        self.prefixes.key_or_value(iri)
    }

    /// Replaces a known prefix with the full identifier it stands for; any
    /// other text is returned as it is.
    pub fn full_iri(&self, iri: &str) -> (r: IRI)
        ensures
            r@ == value_or_key(self@, iri@),
    {
        self.prefixes.value_or_key(iri)
    }

    /// Returns the number of registered namespaces.
    pub fn len(&self) -> (r: usize)
        ensures
            r == self@.len(),
            distinct_keys(self@),
    {
        self.prefixes.len()
    }

    /// Returns `true` if no namespace is registered.
    pub fn is_empty(&self) -> (r: bool)
        ensures
            r == (self@.len() == 0),
    {
        self.prefixes.len() == 0
    }

    /// Lists the registered namespaces, in the order of registration.
    pub fn list(&self) -> (r: Vec<Namespace>)
        ensures
            namespaces_view(r@) == self@,
    {
        let n = self.prefixes.len();
        let mut ns: Vec<Namespace> = Vec::with_capacity(n);
        let mut i: usize = 0;
        while i < n
            invariant
                i <= n,
                n == self@.len(),
                namespaces_view(ns@) == self@.take(i as int),
            decreases n - i,
        {
            let item = Namespace {
                prefix: self.prefixes.key_at(i).clone(),
                full: self.prefixes.value_at(i).clone(),
            };
            assert(item@ == self@[i as int]);
            let ghost before = namespaces_view(ns@);
            ns.push(item);
            assert(namespaces_view(ns@) =~= before.push(item@));
            assert(namespaces_view(ns@) =~= self@.take(i + 1));
            i += 1;
        }
        assert(self@.take(n as int) =~= self@);
        ns
    }
}

impl Default for NamespaceStore {
    /// A store with the three vocabularies that every graph starts from:
    /// RDF, RDF Schema and schema.org, registered in that order.
    fn default() -> (r: NamespaceStore)
        ensures
            r@ == with_pair(
                with_pair(
                    with_pair(
                        Seq::<(Seq<char>, Seq<char>)>::empty(),
                        "rdf:"@,
                        "http://www.w3.org/1999/02/22-rdf-syntax-ns#"@,
                    ),
                    "rdfs:"@,
                    "http://www.w3.org/2000/01/rdf-schema#"@,
                ),
                "schema:"@,
                "https://schema.org/"@,
            ),
    {
        let mut ns = NamespaceStore::new();
        let rdf = Namespace::new(RdfVocab::prefix().as_str(), RdfVocab::full().as_str());
        let rdfs = Namespace::new(RdfsVocab::prefix().as_str(), RdfsVocab::full().as_str());
        let schema = Namespace::new(SchemaVocab::prefix().as_str(), SchemaVocab::full().as_str());
        ns.add(&rdf);
        ns.add(&rdfs);
        ns.add(&schema);
        ns
    }
}

/// The store under its other name.
pub type Namespaces = NamespaceStore;

} // verus!
