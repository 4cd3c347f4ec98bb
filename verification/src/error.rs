//! The errors of the library: what failed, and where in the input.

use vstd::prelude::*;

verus! {

/// What a reader found in place of the shape it asked for.
#[derive(Debug, Clone, PartialEq)]
pub enum Unexpected {
    /// A boolean.
    Bool(bool),
    /// An unsigned integer.
    Unsigned(u64),
    /// A signed integer.
    Signed(i64),
    /// A float, as its binary64 bit pattern.
    Float(u64),
    /// A character.
    Char(char),
    /// A string.
    Str(String),
    /// A byte string.
    Bytes(Vec<u8>),
    /// A unit value.
    Unit,
    /// An optional value.
    Optional,
    /// A newtype structure.
    NewtypeStruct,
    /// A sequence.
    Sequence,
    /// A map.
    Mapping,
    /// An enumeration.
    Enum,
    /// Anything else, by name.
    Other(String),
}

/// The kinds of failure.
#[derive(Debug, Clone, PartialEq)]
pub enum ErrorCode {
    /// A failure described by a message of its own.
    Message(String),
    /// A value had another shape than the one asked for.
    InvalidType { unexpected: Unexpected, expected: String },
    /// A value had the shape asked for, and a content that does not fit.
    InvalidValue { unexpected: Unexpected, expected: String },
    /// A map was given a key that is no string and cannot become one.
    KeyMustBeAString,
    /// A value was expected where a raw value was read.
    ExpectedSomeDType,
    /// A number was expected.
    InvalidNumber,
    /// A text did not have the form of an identifier.
    RegexParser,
}

/// A failure, with the line and column of the input where it was found
/// (both zero where no input text is at hand).
#[derive(Debug, Clone, PartialEq)]
pub struct Error {
    /// What failed.
    pub code: ErrorCode,
    /// The line of the input, from one.
    pub line: usize,
    /// The column of the input, from one.
    pub column: usize,
}

impl Error {
    /// A failure of the kind `code` at the given place.
    pub fn syntax(code: ErrorCode, line: usize, column: usize) -> (r: Error)
        ensures
            r.code == code,
            r.line == line,
            r.column == column,
    {
        Error { code, line, column }
    }

    /// A failure described by `msg` alone.
    pub fn custom(msg: &str) -> (r: Error)
        ensures
            r.is_message(msg@),
    {
        Error { code: ErrorCode::Message(msg.to_owned()), line: 0, column: 0 }
    }

    /// A failure to find the shape `expected`, with what was found instead.
    pub fn invalid_type(unexpected: Unexpected, expected: &str) -> (r: Error)
        ensures
            r.line == 0,
            r.column == 0,
            r.code matches ErrorCode::InvalidType { unexpected: u, expected: e } && u == unexpected
                && e@ == expected@,
    {
        Error {
            code: ErrorCode::InvalidType { unexpected, expected: expected.to_owned() },
            line: 0,
            column: 0,
        }
    }

    /// A failure to fit what was found into `expected`, though the shape
    /// is right.
    pub fn invalid_value(unexpected: Unexpected, expected: &str) -> (r: Error)
        ensures
            r.line == 0,
            r.column == 0,
            r.code matches ErrorCode::InvalidValue { unexpected: u, expected: e } && u == unexpected
                && e@ == expected@,
    {
        Error {
            code: ErrorCode::InvalidValue { unexpected, expected: expected.to_owned() },
            line: 0,
            column: 0,
        }
    }

    /// The failure is the message `msg`, at no place.
    pub open spec fn is_message(&self, msg: Seq<char>) -> bool {
        &&& self.code matches ErrorCode::Message(m) && m@ == msg
        &&& self.line == 0
        &&& self.column == 0
    }

    /// The failure is a shape mismatch that expected `expected`, at no
    /// place.
    pub open spec fn is_invalid_type(&self, expected: Seq<char>) -> bool {
        &&& self.code matches ErrorCode::InvalidType { unexpected: _, expected: e } && e@ == expected
        &&& self.line == 0
        &&& self.column == 0
    }

    /// The failure is a shape mismatch that found `unexpected` where it
    /// expected `expected`, at no place.
    pub open spec fn is_mismatch(&self, unexpected: Unexpected, expected: Seq<char>) -> bool {
        &&& self.code matches ErrorCode::InvalidType { unexpected: u, expected: e } && u == unexpected
            && e@ == expected
        &&& self.line == 0
        &&& self.column == 0
    }

    /// The failure is a content `unexpected` that does not fit `expected`,
    /// at no place.
    pub open spec fn is_misfit(&self, unexpected: Unexpected, expected: Seq<char>) -> bool {
        &&& self.code matches ErrorCode::InvalidValue { unexpected: u, expected: e } && u == unexpected
            && e@ == expected
        &&& self.line == 0
        &&& self.column == 0
    }

    /// The failure is a key that cannot be a string, at no place.
    pub open spec fn is_key_must_be_a_string(&self) -> bool {
        self.code is KeyMustBeAString && self.line == 0 && self.column == 0
    }

    /// The failure is an invalid raw value, at no place.
    pub open spec fn is_invalid_raw_value(&self) -> bool {
        self.code is ExpectedSomeDType && self.line == 0 && self.column == 0
    }
}

} // verus!
