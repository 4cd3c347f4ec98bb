//! Conversions of plain values into the data model.

use vstd::prelude::*;
use vstd::std_specs::convert::FromSpecImpl;
use super::number::{number_of, signed_number, NumImpl};
use super::map::{with_entry, Entries};
use super::{DType, Number, OrderedMap, Value};

verus! {

impl From<u8> for DType {
    /// An integer becomes a number.
    fn from(n: u8) -> (r: DType) {
        DType::Number(Number::from(n))
    }
}

impl FromSpecImpl<u8> for DType {
    open spec fn obeys_from_spec() -> bool {
        true
    }

    open spec fn from_spec(n: u8) -> DType {
        DType::Number(number_of(NumImpl::PositiveInt(n as u64)))
    }
}

impl From<u16> for DType {
    /// An integer becomes a number.
    fn from(n: u16) -> (r: DType) {
        DType::Number(Number::from(n))
    }
}

impl FromSpecImpl<u16> for DType {
    open spec fn obeys_from_spec() -> bool {
        true
    }

    open spec fn from_spec(n: u16) -> DType {
        DType::Number(number_of(NumImpl::PositiveInt(n as u64)))
    }
}

impl From<u32> for DType {
    /// An integer becomes a number.
    fn from(n: u32) -> (r: DType) {
        DType::Number(Number::from(n))
    }
}

impl FromSpecImpl<u32> for DType {
    open spec fn obeys_from_spec() -> bool {
        true
    }

    open spec fn from_spec(n: u32) -> DType {
        DType::Number(number_of(NumImpl::PositiveInt(n as u64)))
    }
}

impl From<u64> for DType {
    /// An integer becomes a number.
    fn from(n: u64) -> (r: DType) {
        DType::Number(Number::from(n))
    }
}

impl FromSpecImpl<u64> for DType {
    open spec fn obeys_from_spec() -> bool {
        true
    }

    open spec fn from_spec(n: u64) -> DType {
        DType::Number(number_of(NumImpl::PositiveInt(n as u64)))
    }
}

impl From<usize> for DType {
    /// An integer becomes a number.
    fn from(n: usize) -> (r: DType) {
        DType::Number(Number::from(n))
    }
}

impl FromSpecImpl<usize> for DType {
    open spec fn obeys_from_spec() -> bool {
        true
    }

    open spec fn from_spec(n: usize) -> DType {
        DType::Number(number_of(NumImpl::PositiveInt(n as u64)))
    }
}

impl From<i8> for DType {
    /// An integer becomes a number.
    fn from(n: i8) -> (r: DType) {
        DType::Number(Number::from(n))
    }
}

impl FromSpecImpl<i8> for DType {
    open spec fn obeys_from_spec() -> bool {
        true
    }

    open spec fn from_spec(n: i8) -> DType {
        DType::Number(number_of(signed_number(n as int)))
    }
}

impl From<i16> for DType {
    /// An integer becomes a number.
    fn from(n: i16) -> (r: DType) {
        DType::Number(Number::from(n))
    }
}

impl FromSpecImpl<i16> for DType {
    open spec fn obeys_from_spec() -> bool {
        true
    }

    open spec fn from_spec(n: i16) -> DType {
        DType::Number(number_of(signed_number(n as int)))
    }
}

impl From<i32> for DType {
    /// An integer becomes a number.
    fn from(n: i32) -> (r: DType) {
        DType::Number(Number::from(n))
    }
}

impl FromSpecImpl<i32> for DType {
    open spec fn obeys_from_spec() -> bool {
        true
    }

    open spec fn from_spec(n: i32) -> DType {
        DType::Number(number_of(signed_number(n as int)))
    }
}

impl From<i64> for DType {
    /// An integer becomes a number.
    fn from(n: i64) -> (r: DType) {
        DType::Number(Number::from(n))
    }
}

impl FromSpecImpl<i64> for DType {
    open spec fn obeys_from_spec() -> bool {
        true
    }

    open spec fn from_spec(n: i64) -> DType {
        DType::Number(number_of(signed_number(n as int)))
    }
}

impl From<isize> for DType {
    /// An integer becomes a number.
    fn from(n: isize) -> (r: DType) {
        DType::Number(Number::from(n))
    }
}

impl FromSpecImpl<isize> for DType {
    open spec fn obeys_from_spec() -> bool {
        true
    }

    open spec fn from_spec(n: isize) -> DType {
        DType::Number(number_of(signed_number(n as int)))
    }
}

impl From<bool> for DType {
    /// A boolean becomes a boolean.
    fn from(f: bool) -> (r: DType) {
        DType::Boolean(f)
    }
}

impl FromSpecImpl<bool> for DType {
    open spec fn obeys_from_spec() -> bool {
        true
    }

    open spec fn from_spec(f: bool) -> DType {
        DType::Boolean(f)
    }
}

impl From<String> for DType {
    /// A string becomes a string.
    fn from(f: String) -> (r: DType) {
        DType::String(f)
    }
}

impl FromSpecImpl<String> for DType {
    open spec fn obeys_from_spec() -> bool {
        true
    }

    open spec fn from_spec(f: String) -> DType {
        DType::String(f)
    }
}

impl From<Number> for DType {
    /// A number becomes a number.
    fn from(f: Number) -> (r: DType) {
        DType::Number(f)
    }
}

impl FromSpecImpl<Number> for DType {
    open spec fn obeys_from_spec() -> bool {
        true
    }

    open spec fn from_spec(f: Number) -> DType {
        DType::Number(f)
    }
}

impl From<OrderedMap> for DType {
    /// A map with string keys becomes an object.
    fn from(f: OrderedMap) -> (r: DType) {
        DType::Object(f)
    }
}

impl FromSpecImpl<OrderedMap> for DType {
    open spec fn obeys_from_spec() -> bool {
        true
    }

    open spec fn from_spec(f: OrderedMap) -> DType {
        DType::Object(f)
    }
}

impl From<Vec<DType>> for DType {
    /// A vector of values becomes an array.
    fn from(f: Vec<DType>) -> (r: DType) {
        DType::Array(f)
    }
}

impl FromSpecImpl<Vec<DType>> for DType {
    open spec fn obeys_from_spec() -> bool {
        true
    }

    open spec fn from_spec(f: Vec<DType>) -> DType {
        DType::Array(f)
    }
}

impl From<()> for DType {
    /// The unit becomes null.
    fn from(f: ()) -> (r: DType) {
        DType::Null
    }
}

impl FromSpecImpl<()> for DType {
    open spec fn obeys_from_spec() -> bool {
        true
    }

    open spec fn from_spec(f: ()) -> DType {
        DType::Null
    }
}

/// The map that holds the first `n` of `pairs`, each set in turn, so that
/// of two pairs with the same key the later one stays.
pub open spec fn collected(pairs: Seq<(String, DType)>, n: int) -> Entries
    decreases n,
{
    if n <= 0 || n > pairs.len() {
        Seq::empty()
    } else {
        with_entry(collected(pairs, n - 1), pairs[n - 1].0@, pairs[n - 1].1@)
    }
}

impl DType {
    /// Pairs of key and value become an object: each pair is set in turn.
    pub fn from_iter(pairs: Vec<(String, DType)>) -> (r: DType)
        ensures
            r@ == Value::Object(collected(pairs@, pairs@.len() as int)),
    {
        let mut map = OrderedMap::new();
        let ghost all = pairs@;
        for pair in it: pairs
            invariant
                it.seq() == all,
                map@ == collected(all, it.index() as int),
        {
            map.insert(pair.0, pair.1);
        }
        DType::Object(map)
    }

    /// A string slice becomes a string.
    pub fn from_str(f: &str) -> (r: DType)
        ensures
            r@ == Value::String(f@),
    {
        DType::String(f.to_owned())
    }

    /// The binary64 pattern of a float becomes a number where it is finite,
    /// and null where it is not.
    pub fn from_f64(bits: u64) -> (r: DType)
        ensures
            r@ == super::ops::ser::float_value(bits),
    {
        match Number::from_f64(bits) {
            Some(n) => DType::Number(n),
            None => DType::Null,
        }
    }
}

} // verus!
