//! Triples: a source node, a predicate and a destination node, connected.

use vstd::prelude::*;
use super::ident::{accept, regex_search, search, successor, successor_text, TRIPLE_PATTERN};
use super::{Connection, Node, Predicate};
use crate::error::Error;

verus! {

/// `TripleId` is a unique identifier assigned to every triple in the knowledge
/// graph. It comes in the form of `"sg:T17"`.
#[derive(Debug, PartialEq, Eq)]
pub struct TripleId(pub(crate) String);

impl View for TripleId {
    type V = Seq<char>;

    open(crate) spec fn view(&self) -> Seq<char> {
        self.0@
    }
}

impl TripleId {
    /// Makes an identifier of the text `s`, given what the search for the
    /// form of an identifier found in it.
    pub fn from_search(s: &str, found: Option<bool>) -> (r: Result<TripleId, Error>)
        ensures
            match r {
                Ok(id) => found == Some(true) && id@ == s@,
                Err(e) => found != Some(true) && e.code is RegexParser && e.line == 22 && e.column
                    == 27,
            },
    {
        match accept(s, found, 22, 27) {
            Ok(text) => Ok(TripleId(text)),
            Err(e) => Err(e),
        }
    }

    /// Reads an identifier: the text must have the form of one.
    pub fn from_str(s: &str) -> (r: Result<TripleId, Error>)
        ensures
            match r {
                Ok(id) => regex_search(TRIPLE_PATTERN@, s@) == Some(true) && id@ == s@,
                Err(e) => regex_search(TRIPLE_PATTERN@, s@) != Some(true) && e.code is RegexParser
                    && e.line == 22 && e.column == 27,
            },
    {
        TripleId::from_search(s, search(TRIPLE_PATTERN, s))
    }

    /// The identifier that follows this one: the same text with the digit
    /// `1` added, which must have the form of an identifier.
    pub fn next(&self) -> (r: Option<TripleId>)
        requires
            regex_search(TRIPLE_PATTERN@, successor(self@)) == Some(true),
        ensures
            r matches Some(id) && id@ == successor(self@),
    {
        let ret = successor_text(&self.0);
        match TripleId::from_str(ret.as_str()) {
            Ok(id) => Some(id),
            Err(_) => None,
        }
    }

    /// The identifier that follows this one, where the text with the digit
    /// `1` added has the form of an identifier.
    pub fn try_next(&self) -> (r: Option<TripleId>)
        ensures
            match r {
                Some(id) => regex_search(TRIPLE_PATTERN@, successor(self@)) == Some(true) && id@
                    == successor(self@),
                None => regex_search(TRIPLE_PATTERN@, successor(self@)) != Some(true),
            },
    {
        let ret = successor_text(&self.0);
        match search(TRIPLE_PATTERN, ret.as_str()) {
            Some(true) => self.next(),
            _ => None,
        }
    }

    /// The text of the identifier.
    pub fn to_string(&self) -> (r: String)
        ensures
            r@ == self@,
    {
        self.0.clone()
    }
}

/// A source node and a destination node, connected by a predicate.
pub struct Triple {
    id: TripleId,
    source: Node,
    predicate: Predicate,
    destination: Node,
    connection: Connection,
}

impl Triple {
    /// The identifier of the triple, as a sequence of characters.
    pub closed spec fn spec_id(&self) -> Seq<char> {
        self.id@
    }

    /// The triple is the empty one: two blank nodes, connected forward by
    /// the empty text.
    pub closed spec fn is_blank(&self) -> bool {
        &&& self.source is Blank
        &&& self.destination is Blank
        &&& self.connection is Forward
        &&& self.predicate matches Predicate::Literal(s) && s@.len() == 0
    }

    /// The empty triple with the first identifier, `sg:T1`, which must
    /// have the form of an identifier.
    pub fn new() -> (r: Triple)
        requires
            regex_search(TRIPLE_PATTERN@, successor("sg:T"@)) == Some(true),
        ensures
            r.spec_id() == successor("sg:T"@),
            r.is_blank(),
    {
        let first = TripleId("sg:T".to_owned());
        let id = match first.next() {
            Some(id) => id,
            None => {
                assert(false);
                first
            },
        };
        Triple {
            id,
            source: Node::Blank,
            predicate: Predicate::Literal(String::new()),
            destination: Node::Blank,
            connection: Connection::Forward,
        }
    }

    /// The empty triple with the first identifier, where `sg:T1` has the
    /// form of an identifier.
    pub fn try_new() -> (r: Option<Triple>)
        ensures
            match r {
                Some(t) => regex_search(TRIPLE_PATTERN@, successor("sg:T"@)) == Some(true)
                    && t.spec_id() == successor("sg:T"@) && t.is_blank(),
                None => regex_search(TRIPLE_PATTERN@, successor("sg:T"@)) != Some(true),
            },
    {
        let first = TripleId("sg:T".to_owned());
        let ret = successor_text(&first.0);
        match search(TRIPLE_PATTERN, ret.as_str()) {
            Some(true) => Some(Triple::new()),
            _ => None,
        }
    }

    /// The identifier of the triple.
    pub fn id(&self) -> (r: &TripleId)
        ensures
            r@ == self.spec_id(),
    {
        &self.id
    }

    /// The connection of the triple.
    pub closed spec fn spec_connection(&self) -> Connection {
        self.connection
    }

    /// The connection between source and destination.
    pub fn connection(&self) -> (r: &Connection)
        ensures
            *r == self.spec_connection(),
            self.is_blank() ==> *r is Forward,
    {
        &self.connection
    }

    /// Two triples are the same when their identifiers are.
    pub fn same_as(&self, other: &Triple) -> (r: bool)
        ensures
            r == (self.spec_id() == other.spec_id()),
    {
        crate::text::same_text(self.id.0.as_str(), other.id.0.as_str())
    }
}

} // verus!
