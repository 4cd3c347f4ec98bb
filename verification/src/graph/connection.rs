//! The ways in which two entities of the graph can be connected.

use vstd::prelude::*;

verus! {

/// How a source node relates to its destination.
#[derive(Debug)]
pub enum Connection {
    /// Connects the source to one destination; the destination need not
    /// point back.
    Forward,
    /// A two-way connection that both nodes share.
    Shared,
    /// Two nodes related in both directions, under a different relation each
    /// way.
    Relational,
    /// One relation from the source to many destinations.
    Multiple,
}

impl Connection {
    /// The name of the connection.
    pub fn to_string(&self) -> (r: String)
        ensures
            r@ == match self {
                Connection::Forward => "Forward"@,
                Connection::Shared => "Shared"@,
                Connection::Relational => "Relational"@,
                Connection::Multiple => "Multiple"@,
            },
    {
        let conn_type: &str = match self {
            Connection::Forward => "Forward",
            Connection::Shared => "Shared",
            Connection::Relational => "Relational",
            Connection::Multiple => "Multiple",
        };
        conn_type.to_owned()
    }

    /// True exactly for [`Connection::Forward`].
    pub fn is_forward(&self) -> (r: bool)
        ensures
            r == (*self is Forward),
    {
        matches!(*self, Connection::Forward)
    }

    /// True exactly for [`Connection::Shared`].
    pub fn is_shared(&self) -> (r: bool)
        ensures
            r == (*self is Shared),
    {
        matches!(*self, Connection::Shared)
    }

    /// True exactly for [`Connection::Relational`].
    pub fn is_relational(&self) -> (r: bool)
        ensures
            r == (*self is Relational),
    {
        matches!(*self, Connection::Relational)
    }

    /// True exactly for [`Connection::Multiple`].
    pub fn is_multiple(&self) -> (r: bool)
        ensures
            r == (*self is Multiple),
    {
        matches!(*self, Connection::Multiple)
    }
}

} // verus!
