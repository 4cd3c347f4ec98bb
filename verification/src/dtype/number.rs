//! Numbers of the data model: an unsigned integer, a negative integer or a
//! finite binary64 float, exactly one of the three.
//!
//! A float is carried as its IEEE-754 binary64 bit pattern, so that every
//! rule about it is a rule about integers.

use vstd::prelude::*;
use super::ops::de::shows;
use super::ops::native::Native;
use super::float::{integer_bits, integer_pattern};
use super::Value;
use crate::error::{Error, Unexpected};

verus! {

/// Mask of the eleven exponent bits of a binary64 pattern, after shifting
/// them down to the low end.
pub const EXPONENT_MASK: u64 = 0x7ff;

/// Mask of everything but the sign bit of a binary64 pattern.
pub const MAGNITUDE_MASK: u64 = 0x7fff_ffff_ffff_ffff;

/// A binary64 pattern is finite when its exponent field is not all ones:
/// neither an infinity nor a NaN.
pub open spec fn bits_finite(bits: u64) -> bool {
    (bits >> 52) & EXPONENT_MASK != EXPONENT_MASK
}

/// A binary64 pattern is a zero (positive or negative) when all bits but the
/// sign are clear.
pub open spec fn bits_zero(bits: u64) -> bool {
    bits & MAGNITUDE_MASK == 0
}

/// Equality of two finite binary64 patterns as floating-point numbers: the
/// same pattern, or two zeros of either sign.
pub open spec fn float_eq(a: u64, b: u64) -> bool {
    a == b || (bits_zero(a) && bits_zero(b))
}

/// The representation behind a [`Number`].
#[derive(Debug, Clone, Copy)]
pub enum NumImpl {
    /// The bit pattern of a binary64 float (always finite).
    Float(u64),
    /// Greater or equal to zero.
    PositiveInt(u64),
    /// Always less than zero.
    NegativeInt(i64),
}

impl NumImpl {
    /// The number is classified as a signed integer: it is held as a
    /// negative one.
    pub open spec fn is_i64(self) -> bool {
        self is NegativeInt
    }

    /// The number is classified as an unsigned integer.
    pub open spec fn is_u64(self) -> bool {
        self is PositiveInt
    }

    /// The number is classified as a float.
    pub open spec fn is_f64(self) -> bool {
        self is Float
    }

    /// What a representation must satisfy to stand in a [`Number`].
    pub open spec fn wf(self) -> bool {
        match self {
            NumImpl::Float(bits) => bits_finite(bits),
            NumImpl::PositiveInt(_) => true,
            NumImpl::NegativeInt(i) => i < 0,
        }
    }

    /// Numeric equality of two representations: integers by value, floats as
    /// floating-point numbers, and never across representations.
    pub open spec fn same(self, other: NumImpl) -> bool {
        match (self, other) {
            (NumImpl::Float(a), NumImpl::Float(b)) => float_eq(a, b),
            (NumImpl::PositiveInt(a), NumImpl::PositiveInt(b)) => a == b,
            (NumImpl::NegativeInt(a), NumImpl::NegativeInt(b)) => a == b,
            _ => false,
        }
    }
}

/// Represents a number, whether integer or floating point.
#[derive(Debug, Clone, Copy)]
pub struct Number {
    pub(crate) n: NumImpl,
}

impl PartialEq for NumImpl {
    fn eq(&self, other: &NumImpl) -> (r: bool) {
        match (*self, *other) {
            (NumImpl::Float(a), NumImpl::Float(b)) => a == b || ((a & MAGNITUDE_MASK) == 0 && (b
                & MAGNITUDE_MASK) == 0),
            (NumImpl::PositiveInt(a), NumImpl::PositiveInt(b)) => a == b,
            (NumImpl::NegativeInt(a), NumImpl::NegativeInt(b)) => a == b,
            _ => false,
        }
    }
}

impl vstd::std_specs::cmp::PartialEqSpecImpl for NumImpl {
    open spec fn obeys_eq_spec() -> bool {
        true
    }

    open spec fn eq_spec(&self, other: &NumImpl) -> bool {
        self.same(*other)
    }
}

impl Eq for NumImpl {
}

impl PartialEq for Number {
    fn eq(&self, other: &Number) -> (r: bool) {
        self.n == other.n
    }
}

impl vstd::std_specs::cmp::PartialEqSpecImpl for Number {
    open spec fn obeys_eq_spec() -> bool {
        true
    }

    open spec fn eq_spec(&self, other: &Number) -> bool {
        self@.same(other@)
    }
}

impl Eq for Number {
}

impl View for Number {
    type V = NumImpl;

    open(crate) spec fn view(&self) -> NumImpl {
        self.n
    }
}

impl Number {
    #[verifier::type_invariant]
    pub closed spec fn inv(&self) -> bool {
        self.n.wf()
    }

    /// True exactly when the number is held as a negative integer.
    pub fn is_i64(&self) -> (r: bool)
        ensures
            r == self@.is_i64(),
    {
        match self.n {
            NumImpl::NegativeInt(_) => true,
            NumImpl::PositiveInt(_) | NumImpl::Float(_) => false,
        }
    }

    /// True exactly when the number is held as an unsigned integer.
    pub fn is_u64(&self) -> (r: bool)
        ensures
            r == self@.is_u64(),
    {
        matches!(self.n, NumImpl::PositiveInt(_))
    }

    /// True exactly when the number is held as a float.
    pub fn is_f64(&self) -> (r: bool)
        ensures
            r == self@.is_f64(),
    {
        matches!(self.n, NumImpl::Float(_))
    }

    /// The number as an `i64`, where it is an integer in the range of `i64`.
    pub fn as_i64(&self) -> (r: Option<i64>)
        ensures
            r == match self@ {
                NumImpl::PositiveInt(n) => if n <= i64::MAX {
                    Some(n as i64)
                } else {
                    None
                },
                NumImpl::NegativeInt(n) => Some(n),
                NumImpl::Float(_) => None,
            },
    {
        match self.n {
            NumImpl::PositiveInt(n) => {
                if n <= i64::MAX as u64 {
                    Some(n as i64)
                } else {
                    None
                }
            },
            NumImpl::NegativeInt(n) => Some(n),
            NumImpl::Float(_) => None,
        }
    }

    /// The number as a `u64`, where it is a non-negative integer.
    pub fn as_u64(&self) -> (r: Option<u64>)
        ensures
            r == match self@ {
                NumImpl::PositiveInt(n) => Some(n),
                _ => None,
            },
    {
        match self.n {
            NumImpl::PositiveInt(n) => Some(n),
            NumImpl::NegativeInt(_) | NumImpl::Float(_) => None,
        }
    }

    /// The number as a float, given as its binary64 bit pattern, where
    /// there is a float of exactly its value: always for a number that is
    /// held as a float, and for an integer that is a number below two to
    /// the power of 53 times a power of two.
    pub fn as_f64(&self) -> (r: Option<u64>)
        ensures
            float_pattern(self@, r),
    {
        proof {
            use_type_invariant(self);
        }
        match self.n {
            NumImpl::PositiveInt(u) => integer_bits(u, false),
            NumImpl::NegativeInt(i) => {
                let magnitude: u64 = if i == i64::MIN {
                    9223372036854775808u64
                } else {
                    (-i) as u64
                };
                integer_bits(magnitude, true)
            },
            NumImpl::Float(f) => Some(f),
        }
    }

    /// The decimal text of a number that is held as an integer. A float
    /// has no text here: how it is written is not this library's matter.
    pub fn integer_text(&self) -> (r: Option<String>)
        ensures
            match self@ {
                NumImpl::PositiveInt(u) => r matches Some(t) && t@ == crate::text::decimal(u as nat),
                NumImpl::NegativeInt(i) => r matches Some(t) && t@ == crate::text::signed_decimal(
                    i as int,
                ),
                NumImpl::Float(_) => r is None,
            },
    {
        match self.n {
            NumImpl::PositiveInt(u) => Some(crate::text::u64_to_text(u)),
            NumImpl::NegativeInt(i) => Some(crate::text::i64_to_text(i)),
            NumImpl::Float(_) => None,
        }
    }

    /// Wraps the binary64 pattern `bits` where it is finite; an infinity or
    /// a NaN gives `None`.
    pub fn from_f64(bits: u64) -> (r: Option<Number>)
        ensures
            match r {
                Some(n) => float_number(bits) == Some(n@),
                None => float_number(bits) is None,
            },
    {
        if (bits >> 52) & EXPONENT_MASK != EXPONENT_MASK {
            Some(Number { n: NumImpl::Float(bits) })
        } else {
            None
        }
    }

    /// The unsigned integer `u` as a number.
    pub fn from_u64(u: u64) -> (r: Number)
        ensures
            r@ == NumImpl::PositiveInt(u),
    {
        Number { n: NumImpl::PositiveInt(u) }
    }

    /// The signed integer `i` as a number: negative integers and the others
    /// are held apart.
    pub fn from_i64(i: i64) -> (r: Number)
        ensures
            r@ == signed_number(i as int),
    {
        if i < 0 {
            Number { n: NumImpl::NegativeInt(i) }
        } else {
            Number { n: NumImpl::PositiveInt(i as u64) }
        }
    }
}

impl Number {
    /// The number as a traversal shows it: an unsigned integer, a signed
    /// integer or a float, by the way it is held.
    pub fn serialize(&self) -> (r: Native)
        ensures
            shows(r, Value::Number(self@)),
            self@.wf(),
    {
        proof {
            use_type_invariant(self);
        }
        match self.n {
            NumImpl::PositiveInt(u) => Native::U64(u),
            NumImpl::NegativeInt(i) => Native::I64(i),
            NumImpl::Float(f) => Native::F64(f),
        }
    }

    /// What a reader that asked for another shape found in this number.
    pub fn unexpected(&self) -> (r: Unexpected)
        ensures
            r == match self@ {
                NumImpl::PositiveInt(u) => Unexpected::Unsigned(u),
                NumImpl::NegativeInt(i) => Unexpected::Signed(i),
                NumImpl::Float(f) => Unexpected::Float(f),
            },
    {
        match self.n {
            NumImpl::PositiveInt(u) => Unexpected::Unsigned(u),
            NumImpl::NegativeInt(i) => Unexpected::Signed(i),
            NumImpl::Float(f) => Unexpected::Float(f),
        }
    }
}

impl Number {
    /// Reads a number from a native value: any integer, or a finite float.
    /// A float that is not finite is refused with the message
    /// `not a JSON number`, and any other shape as a mismatch.
    pub fn deserialize(value: &Native) -> (r: Result<Number, Error>)
        ensures
            match r {
                Ok(n) => read_number(*value) == Some(n@),
                Err(e) => read_number(*value) is None && if value is F64 {
                    e.is_message("not a JSON number"@)
                } else {
                    e.is_invalid_type("a JSON number"@)
                },
            },
    {
        match value {
            Native::I8(i) => Ok(Number::from_i64(*i as i64)),
            Native::I16(i) => Ok(Number::from_i64(*i as i64)),
            Native::I32(i) => Ok(Number::from_i64(*i as i64)),
            Native::I64(i) => Ok(Number::from_i64(*i)),
            Native::U8(u) => Ok(Number::from_u64(*u as u64)),
            Native::U16(u) => Ok(Number::from_u64(*u as u64)),
            Native::U32(u) => Ok(Number::from_u64(*u as u64)),
            Native::U64(u) => Ok(Number::from_u64(*u)),
            Native::F64(bits) => match Number::from_f64(*bits) {
                Some(n) => Ok(n),
                None => Err(Error::custom("not a JSON number")),
            },
            other => Err(Error::invalid_type(other.unexpected(), "a JSON number")),
        }
    }
}

/// The number that holds the float with the bit pattern `bits`, where it
/// is finite.
pub open spec fn float_number(bits: u64) -> Option<NumImpl> {
    if bits_finite(bits) {
        Some(NumImpl::Float(bits))
    } else {
        None
    }
}

/// `r` is what the number `n` is as a float.
pub open spec fn float_pattern(n: NumImpl, r: Option<u64>) -> bool {
    match n {
        NumImpl::Float(bits) => r == Some(bits),
        NumImpl::PositiveInt(u) => integer_pattern(u as int, r),
        NumImpl::NegativeInt(i) => integer_pattern(i as int, r),
    }
}

/// A finite float that is made a number comes back as the same float.
pub proof fn lemma_float_round_trip(bits: u64)
    requires
        bits_finite(bits),
    ensures
        float_number(bits) matches Some(n) && float_pattern(n, Some(bits)),
        forall|r: Option<u64>| float_pattern(float_number(bits)->0, r) ==> r == Some(bits),
{
}

/// Of the three classifications of a number, exactly one holds.
pub proof fn lemma_one_classification(n: NumImpl)
    ensures
        n.is_i64() || n.is_u64() || n.is_f64(),
        !(n.is_i64() && n.is_u64()),
        !(n.is_i64() && n.is_f64()),
        !(n.is_u64() && n.is_f64()),
{
}

/// Neither an infinity nor a NaN becomes a number: no pattern whose eleven
/// exponent bits are all set does.
pub proof fn lemma_not_finite_is_refused(bits: u64)
    requires
        (bits >> 52) & EXPONENT_MASK == EXPONENT_MASK,
    ensures
        float_number(bits) is None,
{
}

/// The positive infinity, the negative infinity and the usual quiet NaN
/// are not finite.
pub proof fn lemma_infinity_and_nan_are_refused()
    ensures
        float_number(0x7ff0_0000_0000_0000) is None,
        float_number(0xfff0_0000_0000_0000) is None,
        float_number(0x7ff8_0000_0000_0000) is None,
{
    assert((0x7ff0_0000_0000_0000u64 >> 52) & 0x7ff == 0x7ff) by (bit_vector);
    assert((0xfff0_0000_0000_0000u64 >> 52) & 0x7ff == 0x7ff) by (bit_vector);
    assert((0x7ff8_0000_0000_0000u64 >> 52) & 0x7ff == 0x7ff) by (bit_vector);
}

/// The number that a native value reads as: any integer, or a finite
/// float.
pub open spec fn read_number(n: Native) -> Option<NumImpl> {
    match n {
        Native::I8(i) => Some(signed_number(i as int)),
        Native::I16(i) => Some(signed_number(i as int)),
        Native::I32(i) => Some(signed_number(i as int)),
        Native::I64(i) => Some(signed_number(i as int)),
        Native::U8(u) => Some(NumImpl::PositiveInt(u as u64)),
        Native::U16(u) => Some(NumImpl::PositiveInt(u as u64)),
        Native::U32(u) => Some(NumImpl::PositiveInt(u as u64)),
        Native::U64(u) => Some(NumImpl::PositiveInt(u)),
        Native::F64(bits) => if bits_finite(bits) {
            Some(NumImpl::Float(bits))
        } else {
            None
        },
        _ => None,
    }
}

/// The number that stands for the signed integer `i`.
pub open spec fn signed_number(i: int) -> NumImpl {
    if i < 0 {
        NumImpl::NegativeInt(i as i64)
    } else {
        NumImpl::PositiveInt(i as u64)
    }
}

impl From<u8> for Number {
    /// An unsigned integer is held as such.
    fn from(u: u8) -> (r: Number) {
        Number { n: NumImpl::PositiveInt(u as u64) }
    }
}

impl vstd::std_specs::convert::FromSpecImpl<u8> for Number {
    open spec fn obeys_from_spec() -> bool {
        true
    }

    open spec fn from_spec(u: u8) -> Number {
        number_of(NumImpl::PositiveInt(u as u64))
    }
}

impl From<u16> for Number {
    /// An unsigned integer is held as such.
    fn from(u: u16) -> (r: Number) {
        Number { n: NumImpl::PositiveInt(u as u64) }
    }
}

impl vstd::std_specs::convert::FromSpecImpl<u16> for Number {
    open spec fn obeys_from_spec() -> bool {
        true
    }

    open spec fn from_spec(u: u16) -> Number {
        number_of(NumImpl::PositiveInt(u as u64))
    }
}

impl From<u32> for Number {
    /// An unsigned integer is held as such.
    fn from(u: u32) -> (r: Number) {
        Number { n: NumImpl::PositiveInt(u as u64) }
    }
}

impl vstd::std_specs::convert::FromSpecImpl<u32> for Number {
    open spec fn obeys_from_spec() -> bool {
        true
    }

    open spec fn from_spec(u: u32) -> Number {
        number_of(NumImpl::PositiveInt(u as u64))
    }
}

impl From<u64> for Number {
    /// An unsigned integer is held as such.
    fn from(u: u64) -> (r: Number) {
        Number { n: NumImpl::PositiveInt(u as u64) }
    }
}

impl vstd::std_specs::convert::FromSpecImpl<u64> for Number {
    open spec fn obeys_from_spec() -> bool {
        true
    }

    open spec fn from_spec(u: u64) -> Number {
        number_of(NumImpl::PositiveInt(u as u64))
    }
}

impl From<usize> for Number {
    /// An unsigned integer is held as such.
    fn from(u: usize) -> (r: Number) {
        Number { n: NumImpl::PositiveInt(u as u64) }
    }
}

impl vstd::std_specs::convert::FromSpecImpl<usize> for Number {
    open spec fn obeys_from_spec() -> bool {
        true
    }

    open spec fn from_spec(u: usize) -> Number {
        number_of(NumImpl::PositiveInt(u as u64))
    }
}

impl From<i8> for Number {
    /// A negative integer is held as such, any other as an unsigned one.
    fn from(i: i8) -> (r: Number) {
        if i < 0 {
            Number { n: NumImpl::NegativeInt(i as i64) }
        } else {
            Number { n: NumImpl::PositiveInt(i as u64) }
        }
    }
}

impl vstd::std_specs::convert::FromSpecImpl<i8> for Number {
    open spec fn obeys_from_spec() -> bool {
        true
    }

    open spec fn from_spec(i: i8) -> Number {
        number_of(signed_number(i as int))
    }
}

impl From<i16> for Number {
    /// A negative integer is held as such, any other as an unsigned one.
    fn from(i: i16) -> (r: Number) {
        if i < 0 {
            Number { n: NumImpl::NegativeInt(i as i64) }
        } else {
            Number { n: NumImpl::PositiveInt(i as u64) }
        }
    }
}

impl vstd::std_specs::convert::FromSpecImpl<i16> for Number {
    open spec fn obeys_from_spec() -> bool {
        true
    }

    open spec fn from_spec(i: i16) -> Number {
        number_of(signed_number(i as int))
    }
}

impl From<i32> for Number {
    /// A negative integer is held as such, any other as an unsigned one.
    fn from(i: i32) -> (r: Number) {
        if i < 0 {
            Number { n: NumImpl::NegativeInt(i as i64) }
        } else {
            Number { n: NumImpl::PositiveInt(i as u64) }
        }
    }
}

impl vstd::std_specs::convert::FromSpecImpl<i32> for Number {
    open spec fn obeys_from_spec() -> bool {
        true
    }

    open spec fn from_spec(i: i32) -> Number {
        number_of(signed_number(i as int))
    }
}

impl From<i64> for Number {
    /// A negative integer is held as such, any other as an unsigned one.
    fn from(i: i64) -> (r: Number) {
        if i < 0 {
            Number { n: NumImpl::NegativeInt(i as i64) }
        } else {
            Number { n: NumImpl::PositiveInt(i as u64) }
        }
    }
}

impl vstd::std_specs::convert::FromSpecImpl<i64> for Number {
    open spec fn obeys_from_spec() -> bool {
        true
    }

    open spec fn from_spec(i: i64) -> Number {
        number_of(signed_number(i as int))
    }
}

impl From<isize> for Number {
    /// A negative integer is held as such, any other as an unsigned one.
    fn from(i: isize) -> (r: Number) {
        if i < 0 {
            Number { n: NumImpl::NegativeInt(i as i64) }
        } else {
            Number { n: NumImpl::PositiveInt(i as u64) }
        }
    }
}

impl vstd::std_specs::convert::FromSpecImpl<isize> for Number {
    open spec fn obeys_from_spec() -> bool {
        true
    }

    open spec fn from_spec(i: isize) -> Number {
        number_of(signed_number(i as int))
    }
}

/// The number that holds the representation `n`.
pub closed spec fn number_of(n: NumImpl) -> Number {
    Number { n }
}

/// The number of a representation holds that representation.
pub proof fn lemma_number_of(n: NumImpl)
    ensures
        number_of(n)@ == n,
{
}

/// The number that an integer converts to holds its value.
pub proof fn lemma_from_integer(i: i64, u: u64)
    ensures
        <Number as vstd::std_specs::convert::FromSpec<i64>>::from_spec(i)@ == signed_number(i as int),
        <Number as vstd::std_specs::convert::FromSpec<u64>>::from_spec(u)@ == NumImpl::PositiveInt(u),
{
    lemma_number_of(signed_number(i as int));
    lemma_number_of(NumImpl::PositiveInt(u));
}

} // verus!
