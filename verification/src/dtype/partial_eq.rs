//! Comparisons of a value of the data model with plain values.

use vstd::prelude::*;
use super::number::NumImpl;
use super::{DType, Value};
use crate::text::same_text;

verus! {

/// Whether `value` is an integer in the range of `i64` equal to `other`.
pub fn eq_i64(value: &DType, other: i64) -> (r: bool)
    ensures
        r == match value@ {
            Value::Number(NumImpl::PositiveInt(n)) => n == other,
            Value::Number(NumImpl::NegativeInt(n)) => n == other,
            _ => false,
        },
{
    match value.as_i64() {
        Some(i) => i == other,
        None => false,
    }
}

/// Whether `value` is a non-negative integer equal to `other`.
pub fn eq_u64(value: &DType, other: u64) -> (r: bool)
    ensures
        r == (value@ == Value::Number(NumImpl::PositiveInt(other))),
{
    match value.as_u64() {
        Some(i) => i == other,
        None => false,
    }
}

/// A binary64 pattern is a NaN: all exponent bits are set, and some
/// mantissa bit is.
pub open spec fn bits_nan(bits: u64) -> bool {
    (bits >> 52) & 0x7ff == 0x7ff && bits & 0xf_ffff_ffff_ffff != 0
}

/// Equality of two binary64 patterns as floating-point numbers: neither
/// is a NaN, and they are the same pattern or two zeros of either sign.
pub open spec fn float_same(a: u64, b: u64) -> bool {
    !bits_nan(a) && !bits_nan(b) && (a == b || (a & 0x7fff_ffff_ffff_ffff == 0 && b
        & 0x7fff_ffff_ffff_ffff == 0))
}

/// The value is a number, and `bits` is the float of exactly its value.
pub open spec fn is_float(v: Value, bits: u64) -> bool {
    v matches Value::Number(n) && super::number::float_pattern(n, Some(bits))
}

/// Whether `value` is a number with a float of exactly its value, and
/// that float is equal to the float with the bit pattern `other`.
pub fn eq_f64(value: &DType, other: u64) -> (r: bool)
    ensures
        r == (exists|bits: u64| #[trigger] is_float(value@, bits) && float_same(bits, other)),
{
    match value.as_f64() {
        Some(bits) => {
            let nan = (bits >> 52) & 0x7ff == 0x7ff && bits & 0xf_ffff_ffff_ffff != 0;
            let other_nan = (other >> 52) & 0x7ff == 0x7ff && other & 0xf_ffff_ffff_ffff != 0;
            let r = !nan && !other_nan && (bits == other || (bits & 0x7fff_ffff_ffff_ffff == 0
                && other & 0x7fff_ffff_ffff_ffff == 0));
            proof {
                assert(is_float(value@, bits));
                if !r {
                    assert forall|b: u64| #[trigger] is_float(value@, b) implies !float_same(
                        b,
                        other,
                    ) by {
                        let n = value@->Number_0;
                        super::float::lemma_pattern_unique(n, bits, b);
                    }
                }
            }
            r
        },
        None => {
            assert forall|b: u64| !#[trigger] is_float(value@, b) by {
                if let Value::Number(n) = value@ {
                    if super::number::float_pattern(n, Some(b)) {
                        super::float::lemma_pattern_total(n, b);
                    }
                }
            }
            false
        },
    }
}

/// Whether `value` is the boolean `other`.
pub fn eq_bool(value: &DType, other: bool) -> (r: bool)
    ensures
        r == (value@ == Value::Boolean(other)),
{
    match value.as_bool() {
        Some(i) => i == other,
        None => false,
    }
}

/// Whether `value` is the string `other`.
pub fn eq_str(value: &DType, other: &str) -> (r: bool)
    ensures
        r == (value@ == Value::String(other@)),
{
    match value.as_str() {
        Some(i) => same_text(i, other),
        None => false,
    }
}

impl PartialEq<str> for DType {
    fn eq(&self, other: &str) -> (r: bool) {
        eq_str(self, other)
    }
}

impl vstd::std_specs::cmp::PartialEqSpecImpl<str> for DType {
    open spec fn obeys_eq_spec() -> bool {
        true
    }

    open spec fn eq_spec(&self, other: &str) -> bool {
        self@ == Value::String(other@)
    }
}

impl PartialEq<String> for DType {
    fn eq(&self, other: &String) -> (r: bool) {
        eq_str(self, other.as_str())
    }
}

impl vstd::std_specs::cmp::PartialEqSpecImpl<String> for DType {
    open spec fn obeys_eq_spec() -> bool {
        true
    }

    open spec fn eq_spec(&self, other: &String) -> bool {
        self@ == Value::String(other@)
    }
}

impl PartialEq<bool> for DType {
    fn eq(&self, other: &bool) -> (r: bool) {
        eq_bool(self, *other)
    }
}

impl vstd::std_specs::cmp::PartialEqSpecImpl<bool> for DType {
    open spec fn obeys_eq_spec() -> bool {
        true
    }

    open spec fn eq_spec(&self, other: &bool) -> bool {
        self@ == Value::Boolean(*other)
    }
}

impl PartialEq<i8> for DType {
    fn eq(&self, other: &i8) -> (r: bool) {
        eq_i64(self, *other as i64)
    }
}

impl vstd::std_specs::cmp::PartialEqSpecImpl<i8> for DType {
    open spec fn obeys_eq_spec() -> bool {
        true
    }

    open spec fn eq_spec(&self, other: &i8) -> bool {
        match self@ {
            Value::Number(NumImpl::PositiveInt(n)) => n == *other,
            Value::Number(NumImpl::NegativeInt(n)) => n == *other,
            _ => false,
        }
    }
}

impl PartialEq<i16> for DType {
    fn eq(&self, other: &i16) -> (r: bool) {
        eq_i64(self, *other as i64)
    }
}

impl vstd::std_specs::cmp::PartialEqSpecImpl<i16> for DType {
    open spec fn obeys_eq_spec() -> bool {
        true
    }

    open spec fn eq_spec(&self, other: &i16) -> bool {
        match self@ {
            Value::Number(NumImpl::PositiveInt(n)) => n == *other,
            Value::Number(NumImpl::NegativeInt(n)) => n == *other,
            _ => false,
        }
    }
}

impl PartialEq<i32> for DType {
    fn eq(&self, other: &i32) -> (r: bool) {
        eq_i64(self, *other as i64)
    }
}

impl vstd::std_specs::cmp::PartialEqSpecImpl<i32> for DType {
    open spec fn obeys_eq_spec() -> bool {
        true
    }

    open spec fn eq_spec(&self, other: &i32) -> bool {
        match self@ {
            Value::Number(NumImpl::PositiveInt(n)) => n == *other,
            Value::Number(NumImpl::NegativeInt(n)) => n == *other,
            _ => false,
        }
    }
}

impl PartialEq<i64> for DType {
    fn eq(&self, other: &i64) -> (r: bool) {
        eq_i64(self, *other as i64)
    }
}

impl vstd::std_specs::cmp::PartialEqSpecImpl<i64> for DType {
    open spec fn obeys_eq_spec() -> bool {
        true
    }

    open spec fn eq_spec(&self, other: &i64) -> bool {
        match self@ {
            Value::Number(NumImpl::PositiveInt(n)) => n == *other,
            Value::Number(NumImpl::NegativeInt(n)) => n == *other,
            _ => false,
        }
    }
}

impl PartialEq<isize> for DType {
    fn eq(&self, other: &isize) -> (r: bool) {
        eq_i64(self, *other as i64)
    }
}

impl vstd::std_specs::cmp::PartialEqSpecImpl<isize> for DType {
    open spec fn obeys_eq_spec() -> bool {
        true
    }

    open spec fn eq_spec(&self, other: &isize) -> bool {
        match self@ {
            Value::Number(NumImpl::PositiveInt(n)) => n == *other,
            Value::Number(NumImpl::NegativeInt(n)) => n == *other,
            _ => false,
        }
    }
}

impl PartialEq<u8> for DType {
    fn eq(&self, other: &u8) -> (r: bool) {
        eq_u64(self, *other as u64)
    }
}

impl vstd::std_specs::cmp::PartialEqSpecImpl<u8> for DType {
    open spec fn obeys_eq_spec() -> bool {
        true
    }

    open spec fn eq_spec(&self, other: &u8) -> bool {
        self@ == Value::Number(NumImpl::PositiveInt(*other as u64))
    }
}

impl PartialEq<u16> for DType {
    fn eq(&self, other: &u16) -> (r: bool) {
        eq_u64(self, *other as u64)
    }
}

impl vstd::std_specs::cmp::PartialEqSpecImpl<u16> for DType {
    open spec fn obeys_eq_spec() -> bool {
        true
    }

    open spec fn eq_spec(&self, other: &u16) -> bool {
        self@ == Value::Number(NumImpl::PositiveInt(*other as u64))
    }
}

impl PartialEq<u32> for DType {
    fn eq(&self, other: &u32) -> (r: bool) {
        eq_u64(self, *other as u64)
    }
}

impl vstd::std_specs::cmp::PartialEqSpecImpl<u32> for DType {
    open spec fn obeys_eq_spec() -> bool {
        true
    }

    open spec fn eq_spec(&self, other: &u32) -> bool {
        self@ == Value::Number(NumImpl::PositiveInt(*other as u64))
    }
}

impl PartialEq<u64> for DType {
    fn eq(&self, other: &u64) -> (r: bool) {
        eq_u64(self, *other as u64)
    }
}

impl vstd::std_specs::cmp::PartialEqSpecImpl<u64> for DType {
    open spec fn obeys_eq_spec() -> bool {
        true
    }

    open spec fn eq_spec(&self, other: &u64) -> bool {
        self@ == Value::Number(NumImpl::PositiveInt(*other as u64))
    }
}

impl PartialEq<usize> for DType {
    fn eq(&self, other: &usize) -> (r: bool) {
        eq_u64(self, *other as u64)
    }
}

impl vstd::std_specs::cmp::PartialEqSpecImpl<usize> for DType {
    open spec fn obeys_eq_spec() -> bool {
        true
    }

    open spec fn eq_spec(&self, other: &usize) -> bool {
        self@ == Value::Number(NumImpl::PositiveInt(*other as u64))
    }
}

} // verus!
