//! Dates and times of the data model.

use vstd::prelude::*;

verus! {

/// A point in time, carried as its ISO 8601 text.
#[derive(Debug, PartialEq, Eq)]
pub struct DateTime {
    pub(crate) text: String,
}

impl View for DateTime {
    type V = Seq<char>;

    closed spec fn view(&self) -> Seq<char> {
        self.text@
    }
}

impl Clone for DateTime {
    fn clone(&self) -> (r: DateTime)
        ensures
            r@ == self@,
    {
        DateTime { text: self.text.clone() }
    }
}

impl DateTime {
    /// The point in time that `text` spells; the text is kept as given.
    pub fn new(text: String) -> (r: DateTime)
        ensures
            r@ == text@,
    {
        DateTime { text }
    }

    /// The ISO 8601 text.
    pub fn as_str(&self) -> (r: &str)
        ensures
            r@ == self@,
    {
        self.text.as_str()
    }
}

} // verus!
