//! A native value as the traversal protocol shows it: one variant for each
//! shape that a typed value can hand to a consumer.

use vstd::prelude::*;
use crate::error::Unexpected;

verus! {

/// A typed application value, in the shape in which it is traversed.
///
/// A 32-bit float enters as the 64-bit float of the same value; every
/// float is carried as its binary64 bit pattern.
#[derive(Debug, PartialEq)]
#[allow(inconsistent_fields)]
pub enum Native {
    /// A boolean.
    Bool(bool),
    /// A signed 8-bit integer.
    I8(i8),
    /// A signed 16-bit integer.
    I16(i16),
    /// A signed 32-bit integer.
    I32(i32),
    /// A signed 64-bit integer.
    I64(i64),
    /// An unsigned 8-bit integer.
    U8(u8),
    /// An unsigned 16-bit integer.
    U16(u16),
    /// An unsigned 32-bit integer.
    U32(u32),
    /// An unsigned 64-bit integer.
    U64(u64),
    /// A float, as its binary64 bit pattern.
    F64(u64),
    /// A character.
    Char(char),
    /// A string.
    Str(String),
    /// A byte string.
    Bytes(Vec<u8>),
    /// An optional value that is absent.
    Absent,
    /// An optional value that is present.
    Present(Box<Native>),
    /// The unit value.
    Unit,
    /// A structure without fields.
    UnitStruct { name: String },
    /// A variant without fields.
    UnitVariant { name: String, variant_index: u32, variant: String },
    /// A structure that wraps one value.
    NewtypeStruct { name: String, value: Box<Native> },
    /// A variant that wraps one value.
    NewtypeVariant { name: String, variant_index: u32, variant: String, value: Box<Native> },
    /// A sequence of any length.
    Sequence(Vec<Native>),
    /// A sequence of a length known beforehand.
    Tuple(Vec<Native>),
    /// A named tuple.
    TupleStruct { name: String, fields: Vec<Native> },
    /// A variant with unnamed fields.
    TupleVariant { name: String, variant_index: u32, variant: String, fields: Vec<Native> },
    /// Keys and values of any shape, in the order given.
    Mapping(Vec<(Native, Native)>),
    /// A structure: named fields in the order of declaration.
    Struct { name: String, fields: Vec<(String, Native)> },
    /// A variant with named fields.
    StructVariant { name: String, variant_index: u32, variant: String, fields: Vec<(String, Native)> },
}

impl Native {
    /// What a reader that asked for another shape found in this value.
    pub fn unexpected(&self) -> (r: Unexpected)
        ensures
            unexpected_of(*self, r),
    {
        match self {
            Native::Bool(b) => Unexpected::Bool(*b),
            Native::I8(i) => Unexpected::Signed(*i as i64),
            Native::I16(i) => Unexpected::Signed(*i as i64),
            Native::I32(i) => Unexpected::Signed(*i as i64),
            Native::I64(i) => Unexpected::Signed(*i),
            Native::U8(u) => Unexpected::Unsigned(*u as u64),
            Native::U16(u) => Unexpected::Unsigned(*u as u64),
            Native::U32(u) => Unexpected::Unsigned(*u as u64),
            Native::U64(u) => Unexpected::Unsigned(*u),
            Native::F64(bits) => Unexpected::Float(*bits),
            Native::Char(c) => Unexpected::Char(*c),
            Native::Str(s) => Unexpected::Str(s.clone()),
            Native::Bytes(b) => Unexpected::Bytes(b.clone()),
            Native::Absent => Unexpected::Optional,
            Native::Present(_) => Unexpected::Optional,
            Native::Unit => Unexpected::Unit,
            Native::UnitStruct { .. } => Unexpected::Unit,
            Native::NewtypeStruct { .. } => Unexpected::NewtypeStruct,
            Native::Sequence(_) => Unexpected::Sequence,
            Native::Tuple(_) => Unexpected::Sequence,
            Native::TupleStruct { .. } => Unexpected::Sequence,
            Native::Mapping(_) => Unexpected::Mapping,
            Native::Struct { .. } => Unexpected::Mapping,
            Native::UnitVariant { .. } => Unexpected::Enum,
            Native::NewtypeVariant { .. } => Unexpected::Enum,
            Native::TupleVariant { .. } => Unexpected::Enum,
            Native::StructVariant { .. } => Unexpected::Enum,
        }
    }
}

/// `u` names the shape of `n`, with the content of a scalar.
pub open spec fn unexpected_of(n: Native, u: Unexpected) -> bool {
    match n {
        Native::Bool(b) => u == Unexpected::Bool(b),
        Native::I8(i) => u == Unexpected::Signed(i as i64),
        Native::I16(i) => u == Unexpected::Signed(i as i64),
        Native::I32(i) => u == Unexpected::Signed(i as i64),
        Native::I64(i) => u == Unexpected::Signed(i),
        Native::U8(x) => u == Unexpected::Unsigned(x as u64),
        Native::U16(x) => u == Unexpected::Unsigned(x as u64),
        Native::U32(x) => u == Unexpected::Unsigned(x as u64),
        Native::U64(x) => u == Unexpected::Unsigned(x),
        Native::F64(bits) => u == Unexpected::Float(bits),
        Native::Char(c) => u == Unexpected::Char(c),
        Native::Str(s) => u matches Unexpected::Str(t) && t@ == s@,
        Native::Bytes(b) => u matches Unexpected::Bytes(c) && c@ == b@,
        Native::Absent | Native::Present(_) => u is Optional,
        Native::Unit | Native::UnitStruct { .. } => u is Unit,
        Native::NewtypeStruct { .. } => u is NewtypeStruct,
        Native::Sequence(_) | Native::Tuple(_) | Native::TupleStruct { .. } => u is Sequence,
        Native::Mapping(_) | Native::Struct { .. } => u is Mapping,
        _ => u is Enum,
    }
}

} // verus!
