//! Predicates: what a connection between two nodes says.

use vstd::prelude::*;
use super::ident::{accept, regex_search, search, successor, successor_text, PREDICATE_PATTERN};
use crate::error::Error;
use crate::vocab::Namespace;

verus! {

/// What is held when two nodes are connected.
pub trait Pred<T> {
}

/// `PredicateId` is a unique identifier assigned to every predicate in the knowledge
/// graph. It comes in the form of `"sg:P8080"`.
#[derive(Debug, PartialEq, Eq)]
pub struct PredicateId(pub(crate) String);

impl View for PredicateId {
    type V = Seq<char>;

    open(crate) spec fn view(&self) -> Seq<char> {
        self.0@
    }
}

impl PredicateId {
    /// Makes an identifier of the text `s`, given what the search for the
    /// form of an identifier found in it.
    pub fn from_search(s: &str, found: Option<bool>) -> (r: Result<PredicateId, Error>)
        ensures
            match r {
                Ok(id) => found == Some(true) && id@ == s@,
                Err(e) => found != Some(true) && e.code is RegexParser && e.line == 37 && e.column
                    == 8,
            },
    {
        match accept(s, found, 37, 8) {
            Ok(text) => Ok(PredicateId(text)),
            Err(e) => Err(e),
        }
    }

    /// Reads an identifier: the text must have the form of one.
    pub fn from_str(s: &str) -> (r: Result<PredicateId, Error>)
        ensures
            match r {
                Ok(id) => regex_search(PREDICATE_PATTERN@, s@) == Some(true) && id@ == s@,
                Err(e) => regex_search(PREDICATE_PATTERN@, s@) != Some(true) && e.code is RegexParser
                    && e.line == 37 && e.column == 8,
            },
    {
        PredicateId::from_search(s, search(PREDICATE_PATTERN, s))
    }

    /// The identifier that follows this one: the same text with the digit
    /// `1` added, which must have the form of an identifier.
    pub fn next(&self) -> (r: Option<PredicateId>)
        requires
            regex_search(PREDICATE_PATTERN@, successor(self@)) == Some(true),
        ensures
            r matches Some(id) && id@ == successor(self@),
    {
        let ret = successor_text(&self.0);
        match PredicateId::from_str(ret.as_str()) {
            Ok(id) => Some(id),
            Err(_) => None,
        }
    }

    /// The identifier that follows this one, where the text with the digit
    /// `1` added has the form of an identifier.
    pub fn try_next(&self) -> (r: Option<PredicateId>)
        ensures
            match r {
                Some(id) => regex_search(PREDICATE_PATTERN@, successor(self@)) == Some(true) && id@
                    == successor(self@),
                None => regex_search(PREDICATE_PATTERN@, successor(self@)) != Some(true),
            },
    {
        let ret = successor_text(&self.0);
        match search(PREDICATE_PATTERN, ret.as_str()) {
            Some(true) => self.next(),
            _ => None,
        }
    }

    /// The text of the identifier.
    pub fn to_string(&self) -> (r: String)
        ensures
            r@ == self@,
    {
        self.0.clone()
    }
}

/// What a connection between two nodes says.
#[derive(Debug, PartialEq)]
pub enum Predicate {
    /// The connection is described by a text.
    Literal(String),
    /// The connection is described by a namespace, which expands to a full
    /// identifier or contracts to a short one.
    Uri(Namespace),
}

impl Predicate {
    /// True exactly for [`Predicate::Literal`].
    pub fn is_literal(&self) -> (r: bool)
        ensures
            r == (*self is Literal),
    {
        matches!(*self, Predicate::Literal(_))
    }

    /// True exactly for [`Predicate::Uri`].
    pub fn is_uri(&self) -> (r: bool)
        ensures
            r == (*self is Uri),
    {
        matches!(*self, Predicate::Uri(_))
    }

    /// Returns the predicate itself, whose variant tells its type.
    pub fn get_type(&self) -> (r: &Predicate)
        ensures
            r == self,
    {
        self
    }
}

/// A predicate together with its identifier.
pub struct PredicateImpl {
    id: PredicateId,
    pred_type: Predicate,
}

impl PredicateImpl {
    /// The identifier of the predicate, as a sequence of characters.
    pub closed spec fn spec_id(&self) -> Seq<char> {
        self.id@
    }

    /// The predicate itself.
    pub closed spec fn spec_predicate(&self) -> Predicate {
        self.pred_type
    }

    /// Gives `pred_type` the first identifier, `sg:P1`, which must have
    /// the form of an identifier.
    pub fn new(pred_type: Predicate) -> (r: PredicateImpl)
        requires
            regex_search(PREDICATE_PATTERN@, successor("sg:P"@)) == Some(true),
        ensures
            r.spec_id() == successor("sg:P"@),
            r.spec_predicate() == pred_type,
    {
        let first = PredicateId("sg:P".to_owned());
        match first.next() {
            Some(id) => PredicateImpl { id, pred_type },
            None => {
                assert(false);
                PredicateImpl { id: first, pred_type }
            },
        }
    }

    /// Gives `pred_type` the first identifier, where `sg:P1` has the form
    /// of an identifier.
    pub fn try_new(pred_type: Predicate) -> (r: Option<PredicateImpl>)
        ensures
            match r {
                Some(p) => regex_search(PREDICATE_PATTERN@, successor("sg:P"@)) == Some(true)
                    && p.spec_id() == successor("sg:P"@) && p.spec_predicate() == pred_type,
                None => regex_search(PREDICATE_PATTERN@, successor("sg:P"@)) != Some(true),
            },
    {
        let first = PredicateId("sg:P".to_owned());
        let ret = successor_text(&first.0);
        match search(PREDICATE_PATTERN, ret.as_str()) {
            Some(true) => Some(PredicateImpl::new(pred_type)),
            _ => None,
        }
    }
}

} // verus!
