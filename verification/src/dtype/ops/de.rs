//! The read direction: the data model as a source that is traversed, and
//! the readers of the library's own types.

use vstd::prelude::*;
use super::native::Native;
use super::ser::{built, built_all, built_map};
use crate::dtype::map::{has_key, lemma_rank_is, sorted, with_entry, Entries};
use crate::dtype::number::NumImpl;
use crate::dtype::number::float_pattern;
use crate::dtype::{DType, Value};
use crate::error::{Error, ErrorCode, Unexpected};

verus! {

/// The native value `n` is what a traversal of the value `v` shows: the
/// unit for null, a boolean for a boolean, an unsigned integer, a signed
/// integer or a float for a number by the way it is held, a string for a
/// string and for the text of a point in time, a sequence for an array and
/// a map with string keys for an object, each with the elements in order.
pub open spec fn shows(n: Native, v: Value) -> bool
    decreases v,
{
    match v {
        Value::Null => n is Unit,
        Value::Boolean(b) => n == Native::Bool(b),
        Value::Number(NumImpl::PositiveInt(u)) => n == Native::U64(u),
        Value::Number(NumImpl::NegativeInt(i)) => n == Native::I64(i),
        Value::Number(NumImpl::Float(bits)) => n == Native::F64(bits),
        Value::String(s) => n matches Native::Str(t) && t@ == s,
        Value::DateTime(s) => n matches Native::Str(t) && t@ == s,
        Value::Array(items) => {
            &&& n matches Native::Sequence(shown)
            &&& shown@.len() == items.len()
            &&& forall|i: int| 0 <= i < items.len() ==> shows(#[trigger] shown@[i], items[i])
        },
        Value::Object(entries) => {
            &&& n matches Native::Mapping(shown)
            &&& shown@.len() == entries.len()
            &&& forall|i: int|
                0 <= i < entries.len() ==> {
                    &&& (#[trigger] shown@[i]).0 matches Native::Str(k)
                    &&& k@ == entries[i].0
                    &&& shows(shown@[i].1, entries[i].1)
                }
        },
    }
}

/// What holds of the model of every value: numbers are well formed, and
/// the entries of every object are in strictly ascending order of their
/// keys.
pub open spec fn value_wf(v: Value) -> bool
    decreases v,
{
    match v {
        Value::Number(n) => n.wf(),
        Value::Array(items) => forall|i: int| 0 <= i < items.len() ==> value_wf(#[trigger] items[i]),
        Value::Object(entries) => {
            &&& sorted(entries)
            &&& forall|i: int| 0 <= i < entries.len() ==> value_wf((#[trigger] entries[i]).1)
        },
        _ => true,
    }
}

/// The value holds a point in time somewhere.
pub open spec fn holds_datetime(v: Value) -> bool
    decreases v,
{
    match v {
        Value::DateTime(_) => true,
        Value::Array(items) => exists|i: int| 0 <= i < items.len() && holds_datetime(#[trigger] items[i]),
        Value::Object(entries) => exists|i: int|
            0 <= i < entries.len() && holds_datetime((#[trigger] entries[i]).1),
        _ => false,
    }
}

/// Building what a traversal of a value shows gives the value back: for
/// every well-formed value that holds no point in time, and every native
/// value that shows it.
pub proof fn lemma_round_trip(n: Native, v: Value)
    requires
        shows(n, v),
        value_wf(v),
        !holds_datetime(v),
    ensures
        built(n) == Some(v),
    decreases v, 0int,
{
    match v {
        Value::Array(items) => {
            let shown = n->Sequence_0;
            lemma_round_trip_items(shown@, items, items.len() as int);
            assert(items.take(items.len() as int) =~= items);
        },
        Value::Object(entries) => {
            let shown = n->Mapping_0;
            lemma_round_trip_entries(shown@, entries, entries.len() as int);
            assert(entries.take(entries.len() as int) =~= entries);
        },
        _ => {},
    }
}

/// The round trip of the first `k` elements of an array.
pub proof fn lemma_round_trip_items(shown: Seq<Native>, items: Seq<Value>, k: int)
    requires
        0 <= k <= items.len(),
        shown.len() == items.len(),
        forall|i: int| 0 <= i < items.len() ==> shows(#[trigger] shown[i], items[i]),
        value_wf(Value::Array(items)),
        !holds_datetime(Value::Array(items)),
    ensures
        built_all(shown, k) == Some(items.take(k)),
    decreases items, k,
{
    if k == 0 {
        assert(items.take(0) =~= Seq::<Value>::empty());
    } else {
        lemma_round_trip_items(shown, items, k - 1);
        assert(shows(shown[k - 1], items[k - 1]));
        let whole = Value::Array(items);
        assert(whole->Array_0 == items);
        assert(value_wf(whole));
        assert(value_wf(whole->Array_0[k - 1]));
        assert(value_wf(items[k - 1]));
        assert(!holds_datetime(items[k - 1]));
        lemma_round_trip(shown[k - 1], items[k - 1]);
        assert(items.take(k) =~= items.take(k - 1).push(items[k - 1]));
    }
}

/// The round trip of the first `k` entries of an object.
pub proof fn lemma_round_trip_entries(shown: Seq<(Native, Native)>, entries: Entries, k: int)
    requires
        0 <= k <= entries.len(),
        shown.len() == entries.len(),
        forall|i: int|
            0 <= i < entries.len() ==> {
                &&& (#[trigger] shown[i]).0 matches Native::Str(key)
                &&& key@ == entries[i].0
                &&& shows(shown[i].1, entries[i].1)
            },
        value_wf(Value::Object(entries)),
        !holds_datetime(Value::Object(entries)),
    ensures
        built_map(shown, k) == Some(entries.take(k)),
    decreases entries, k,
{
    if k == 0 {
        assert(entries.take(0) =~= Seq::<(Seq<char>, Value)>::empty());
    } else {
        lemma_round_trip_entries(shown, entries, k - 1);
        let before = entries.take(k - 1);
        let key = entries[k - 1].0;
        assert(shown[k - 1].0 is Str);
        assert(value_wf(entries[k - 1].1));
        assert(!holds_datetime(entries[k - 1].1));
        lemma_round_trip(shown[k - 1].1, entries[k - 1].1);
        assert forall|i: int| 0 <= i < before.len() implies crate::text::key_lt(
            #[trigger] before[i].0,
            key,
        ) by {
            assert(before[i] == entries[i]);
        }
        lemma_rank_is(before, key, k - 1);
        assert(!has_key(before, key)) by {
            if has_key(before, key) {
                let i = choose|i: int| 0 <= i < before.len() && #[trigger] before[i].0 == key;
                crate::text::lemma_lex_lt_irreflexive(vstd::utf8::encode_utf8(key));
            }
        }
        assert(with_entry(before, key, entries[k - 1].1) =~= entries.take(k));
    }
}

/// `u` names the shape of `v`, with the content of a scalar: the unit for
/// null, a sequence for an array, a map for an object, and a string for a
/// string and for the text of a point in time.
pub open spec fn found_in(v: Value, u: Unexpected) -> bool {
    match v {
        Value::Null => u is Unit,
        Value::Boolean(b) => u == Unexpected::Bool(b),
        Value::Number(NumImpl::PositiveInt(n)) => u == Unexpected::Unsigned(n),
        Value::Number(NumImpl::NegativeInt(n)) => u == Unexpected::Signed(n),
        Value::Number(NumImpl::Float(bits)) => u == Unexpected::Float(bits),
        Value::String(s) => u matches Unexpected::Str(t) && t@ == s,
        Value::DateTime(s) => u matches Unexpected::Str(t) && t@ == s,
        Value::Array(_) => u is Sequence,
        Value::Object(_) => u is Mapping,
    }
}

/// The failure `e` is the mismatch of the value `v` with the shape
/// `expected`.
pub open spec fn mismatch_of(e: Error, v: Value, expected: Seq<char>) -> bool {
    &&& e.code matches ErrorCode::InvalidType { unexpected: u, expected: x } && found_in(v, u) && x@
        == expected
    &&& e.line == 0
    &&& e.column == 0
}

impl DType {
    /// What a reader that asked for another shape found in this value.
    pub fn unexpected(&self) -> (r: Unexpected)
        ensures
            found_in(self@, r),
    {
        match self {
            DType::Null => Unexpected::Unit,
            DType::Boolean(b) => Unexpected::Bool(*b),
            DType::Number(n) => n.unexpected(),
            DType::String(s) => Unexpected::Str(s.clone()),
            DType::DateTime(d) => Unexpected::Str(d.as_str().to_owned()),
            DType::Array(_) => Unexpected::Sequence,
            DType::Object(_) => Unexpected::Mapping,
        }
    }

    /// The error of a reader that asked this value for the shape
    /// `expected`.
    pub fn invalid_type(&self, expected: &str) -> (e: Error)
        ensures
            mismatch_of(e, self@, expected@),
    {
        Error::invalid_type(self.unexpected(), expected)
    }

    /// Reads the value as a boolean. Anything but a boolean is a mismatch
    /// with `a boolean`.
    pub fn deserialize_bool(&self) -> (r: Result<bool, Error>)
        ensures
            match r {
                Ok(b) => self@ == Value::Boolean(b),
                Err(e) => !(self@ is Boolean) && mismatch_of(e, self@, "a boolean"@),
            },
    {
        match self {
            DType::Boolean(b) => Ok(*b),
            _ => Err(self.invalid_type("a boolean")),
        }
    }

    /// Reads the value as an unsigned integer. A negative integer, a float
    /// and anything but a number is a mismatch with `u64`: no number is
    /// rounded, and no string is read as a number.
    pub fn deserialize_u64(&self) -> (r: Result<u64, Error>)
        ensures
            match r {
                Ok(u) => self@ == Value::Number(NumImpl::PositiveInt(u)),
                Err(e) => !(self@ matches Value::Number(n) && n is PositiveInt) && mismatch_of(
                    e,
                    self@,
                    "u64"@,
                ),
            },
    {
        match self.as_u64() {
            Some(u) => Ok(u),
            None => Err(self.invalid_type("u64")),
        }
    }

    /// Reads the value as a signed integer. An unsigned integer beyond the
    /// range of `i64` has the right shape and does not fit; a float and
    /// anything but a number is a mismatch with `i64`.
    pub fn deserialize_i64(&self) -> (r: Result<i64, Error>)
        ensures
            match self@ {
                Value::Number(NumImpl::NegativeInt(i)) => r == Ok::<i64, Error>(i),
                Value::Number(NumImpl::PositiveInt(u)) => if u <= i64::MAX {
                    r == Ok::<i64, Error>(u as i64)
                } else {
                    r matches Err(e) && e.is_misfit(Unexpected::Unsigned(u), "i64"@)
                },
                _ => r matches Err(e) && mismatch_of(e, self@, "i64"@),
            },
    {
        match self {
            DType::Number(n) => match n.as_i64() {
                Some(i) => Ok(i),
                None => match n.as_u64() {
                    Some(u) => Err(Error::invalid_value(Unexpected::Unsigned(u), "i64")),
                    None => Err(self.invalid_type("i64")),
                },
            },
            _ => Err(self.invalid_type("i64")),
        }
    }

    /// Reads the value as a float, given as its binary64 bit pattern. An
    /// integer is read where there is a float of exactly its value, and
    /// has the right shape without fitting where there is none. Anything
    /// but a number is a mismatch with `f64`.
    pub fn deserialize_f64(&self) -> (r: Result<u64, Error>)
        ensures
            match self@ {
                Value::Number(n) => match r {
                    Ok(bits) => float_pattern(n, Some(bits)),
                    Err(e) => float_pattern(n, None) && exists|u: Unexpected| #[trigger]
                        found_in(self@, u) && e.is_misfit(u, "f64"@),
                },
                _ => r matches Err(e) && mismatch_of(e, self@, "f64"@),
            },
    {
        match self {
            DType::Number(n) => match n.as_f64() {
                Some(bits) => Ok(bits),
                None => {
                    let u = n.unexpected();
                    assert(found_in(self@, u));
                    Err(Error::invalid_value(u, "f64"))
                },
            },
            _ => Err(self.invalid_type("f64")),
        }
    }

    /// Reads the value as a string: a string, or the text of a point in
    /// time. Anything else is a mismatch with `a string`; a number is not
    /// written out.
    pub fn deserialize_string(&self) -> (r: Result<String, Error>)
        ensures
            match r {
                Ok(s) => self@ == Value::String(s@) || self@ == Value::DateTime(s@),
                Err(e) => !(self@ is String) && !(self@ is DateTime) && mismatch_of(
                    e,
                    self@,
                    "a string"@,
                ),
            },
    {
        match self {
            DType::String(s) => Ok(s.clone()),
            DType::DateTime(d) => Ok(d.as_str().to_owned()),
            _ => Err(self.invalid_type("a string")),
        }
    }

    /// Reads the value as the unit. Anything but null is a mismatch with
    /// `unit`.
    pub fn deserialize_unit(&self) -> (r: Result<(), Error>)
        ensures
            match r {
                Ok(_) => self@ is Null,
                Err(e) => !(self@ is Null) && mismatch_of(e, self@, "unit"@),
            },
    {
        match self {
            DType::Null => Ok(()),
            _ => Err(self.invalid_type("unit")),
        }
    }

    /// Reads the value as a sequence. Anything but an array is a mismatch
    /// with `a sequence`.
    pub fn deserialize_seq(&self) -> (r: Result<&Vec<DType>, Error>)
        ensures
            match r {
                Ok(items) => self@ == Value::Array(crate::dtype::values_view(items@)),
                Err(e) => !(self@ is Array) && mismatch_of(e, self@, "a sequence"@),
            },
    {
        match self {
            DType::Array(v) => Ok(v),
            _ => Err(self.invalid_type("a sequence")),
        }
    }

    /// Reads the value as a map. Anything but an object is a mismatch with
    /// `a map`.
    pub fn deserialize_map(&self) -> (r: Result<&crate::dtype::OrderedMap, Error>)
        ensures
            match r {
                Ok(m) => self@ == Value::Object(m@),
                Err(e) => !(self@ is Object) && mismatch_of(e, self@, "a map"@),
            },
    {
        match self {
            DType::Object(m) => Ok(m),
            _ => Err(self.invalid_type("a map")),
        }
    }
}

} // verus!
