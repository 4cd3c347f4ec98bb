//! The build direction: from native values to the data model.

use vstd::prelude::*;
use super::de::{shows, value_wf};
use super::native::Native;
use crate::dtype::map::{with_entry, Entries, OrderedMap};
use crate::dtype::number::{bits_finite, signed_number, NumImpl, Number};
use crate::dtype::{values_view, DType, Value};
use crate::error::{Error, ErrorCode};
use crate::text::{char_to_text, decimal, i64_to_text, signed_decimal, u64_to_text};

verus! {

/// The value that stands for the float with the bit pattern `bits`: a
/// number where it is finite, null where it is not.
pub open spec fn float_value(bits: u64) -> Value {
    if bits_finite(bits) {
        Value::Number(NumImpl::Float(bits))
    } else {
        Value::Null
    }
}

/// The values that stand for the bytes `b`, one unsigned number each.
pub open spec fn bytes_value(b: Seq<u8>) -> Seq<Value> {
    Seq::new(b.len(), |i: int| Value::Number(NumImpl::PositiveInt(b[i] as u64)))
}

/// The object with the single entry `key`, `value`.
pub open spec fn single_entry(key: Seq<char>, value: Value) -> Value {
    Value::Object(seq![(key, value)])
}

/// The string that a native value becomes as the key of a map: strings
/// and characters as they are, integers as their decimal text, a variant
/// without fields as its name, a wrapper as what it wraps. Nothing else
/// can be a key.
pub open spec fn key_text(n: Native) -> Option<Seq<char>>
    decreases n,
{
    match n {
        Native::Str(s) => Some(s@),
        Native::Char(c) => Some(seq![c]),
        Native::I8(i) => Some(signed_decimal(i as int)),
        Native::I16(i) => Some(signed_decimal(i as int)),
        Native::I32(i) => Some(signed_decimal(i as int)),
        Native::I64(i) => Some(signed_decimal(i as int)),
        Native::U8(u) => Some(decimal(u as nat)),
        Native::U16(u) => Some(decimal(u as nat)),
        Native::U32(u) => Some(decimal(u as nat)),
        Native::U64(u) => Some(decimal(u as nat)),
        Native::UnitVariant { variant, .. } => Some(variant@),
        Native::NewtypeStruct { value, .. } => key_text(*value),
        _ => None,
    }
}

/// The value that a native value builds, or `None` where some map in it
/// has a key that cannot be a string.
pub open spec fn built(n: Native) -> Option<Value>
    decreases n, 0int,
{
    match n {
        Native::Bool(b) => Some(Value::Boolean(b)),
        Native::I8(i) => Some(Value::Number(signed_number(i as int))),
        Native::I16(i) => Some(Value::Number(signed_number(i as int))),
        Native::I32(i) => Some(Value::Number(signed_number(i as int))),
        Native::I64(i) => Some(Value::Number(signed_number(i as int))),
        Native::U8(u) => Some(Value::Number(NumImpl::PositiveInt(u as u64))),
        Native::U16(u) => Some(Value::Number(NumImpl::PositiveInt(u as u64))),
        Native::U32(u) => Some(Value::Number(NumImpl::PositiveInt(u as u64))),
        Native::U64(u) => Some(Value::Number(NumImpl::PositiveInt(u))),
        Native::F64(bits) => Some(float_value(bits)),
        Native::Char(c) => Some(Value::String(seq![c])),
        Native::Str(s) => Some(Value::String(s@)),
        Native::Bytes(b) => Some(Value::Array(bytes_value(b@))),
        Native::Absent => Some(Value::Null),
        Native::Present(value) => built(*value),
        Native::Unit => Some(Value::Null),
        Native::UnitStruct { .. } => Some(Value::Null),
        Native::UnitVariant { variant, .. } => Some(Value::String(variant@)),
        Native::NewtypeStruct { value, .. } => built(*value),
        Native::NewtypeVariant { variant, value, .. } => match built(*value) {
            Some(v) => Some(single_entry(variant@, v)),
            None => None,
        },
        Native::Sequence(items) => match built_all(items@, items@.len() as int) {
            Some(vs) => Some(Value::Array(vs)),
            None => None,
        },
        Native::Tuple(items) => match built_all(items@, items@.len() as int) {
            Some(vs) => Some(Value::Array(vs)),
            None => None,
        },
        Native::TupleStruct { fields, .. } => match built_all(fields@, fields@.len() as int) {
            Some(vs) => Some(Value::Array(vs)),
            None => None,
        },
        Native::TupleVariant { variant, fields, .. } => match built_all(
            fields@,
            fields@.len() as int,
        ) {
            Some(vs) => Some(single_entry(variant@, Value::Array(vs))),
            None => None,
        },
        Native::Mapping(entries) => match built_map(entries@, entries@.len() as int) {
            Some(m) => Some(Value::Object(m)),
            None => None,
        },
        Native::Struct { fields, .. } => match built_fields(fields@, fields@.len() as int) {
            Some(m) => Some(Value::Object(m)),
            None => None,
        },
        Native::StructVariant { variant, fields, .. } => match built_fields(
            fields@,
            fields@.len() as int,
        ) {
            Some(m) => Some(single_entry(variant@, Value::Object(m))),
            None => None,
        },
    }
}

/// The values that the first `n` of `items` build, in order.
pub open spec fn built_all(items: Seq<Native>, n: int) -> Option<Seq<Value>>
    decreases items, n,
{
    if n <= 0 || n > items.len() {
        Some(Seq::empty())
    } else {
        match (built_all(items, n - 1), built(items[n - 1])) {
            (Some(vs), Some(v)) => Some(vs.push(v)),
            _ => None,
        }
    }
}

/// The map that the first `n` of `entries` build: each is set in turn, so
/// that of two entries with the same key the later one stays.
pub open spec fn built_map(entries: Seq<(Native, Native)>, n: int) -> Option<Entries>
    decreases entries, n,
{
    if n <= 0 || n > entries.len() {
        Some(Seq::empty())
    } else {
        match (built_map(entries, n - 1), key_text(entries[n - 1].0), built(entries[n - 1].1)) {
            (Some(m), Some(k), Some(v)) => Some(with_entry(m, k, v)),
            _ => None,
        }
    }
}

/// The map that the first `n` of the named `fields` build, each set in
/// turn.
pub open spec fn built_fields(fields: Seq<(String, Native)>, n: int) -> Option<Entries>
    decreases fields, n,
{
    if n <= 0 || n > fields.len() {
        Some(Seq::empty())
    } else {
        match (built_fields(fields, n - 1), built(fields[n - 1].1)) {
            (Some(m), Some(v)) => Some(with_entry(m, fields[n - 1].0@, v)),
            _ => None,
        }
    }
}

/// The error of a map key that is no string and cannot become one.
pub fn key_must_be_a_string() -> (e: Error)
    ensures
        e.is_key_must_be_a_string(),
{
    Error::syntax(ErrorCode::KeyMustBeAString, 0, 0)
}

/// The error of a raw value whose payload is no text, or whose marker is
/// missing.
pub fn invalid_raw_value() -> (e: Error)
    ensures
        e.is_invalid_raw_value(),
{
    Error::syntax(ErrorCode::ExpectedSomeDType, 0, 0)
}

/// The object that holds the single entry `key`, `value`.
fn single_entry_object(key: String, value: DType) -> (r: DType)
    ensures
        r@ == single_entry(key@, value@),
{
    let mut values = OrderedMap::new();
    values.insert(key, value);
    assert(values@ =~= seq![(key@, value@)]);
    DType::Object(values)
}

/// Serializer whose output is a [`DType`]: one method for each shape of
/// the traversal protocol.
pub struct Serializer;

impl Serializer {
    /// A boolean becomes a boolean.
    pub fn serialize_bool(self, value: bool) -> (r: Result<DType, Error>)
        ensures
            r matches Ok(v) && v@ == Value::Boolean(value),
    {
        Ok(DType::Boolean(value))
    }

    /// A signed integer becomes a number.
    pub fn serialize_i8(self, value: i8) -> (r: Result<DType, Error>)
        ensures
            r matches Ok(v) && v@ == Value::Number(signed_number(value as int)),
    {
        self.serialize_i64(value as i64)
    }

    /// A signed integer becomes a number.
    pub fn serialize_i16(self, value: i16) -> (r: Result<DType, Error>)
        ensures
            r matches Ok(v) && v@ == Value::Number(signed_number(value as int)),
    {
        self.serialize_i64(value as i64)
    }

    /// A signed integer becomes a number.
    pub fn serialize_i32(self, value: i32) -> (r: Result<DType, Error>)
        ensures
            r matches Ok(v) && v@ == Value::Number(signed_number(value as int)),
    {
        self.serialize_i64(value as i64)
    }

    /// A signed integer becomes a number: a negative one is held as such,
    /// any other as an unsigned integer.
    pub fn serialize_i64(self, value: i64) -> (r: Result<DType, Error>)
        ensures
            r matches Ok(v) && v@ == Value::Number(signed_number(value as int)),
    {
        Ok(DType::Number(Number::from_i64(value)))
    }

    /// An unsigned integer becomes a number.
    pub fn serialize_u8(self, value: u8) -> (r: Result<DType, Error>)
        ensures
            r matches Ok(v) && v@ == Value::Number(NumImpl::PositiveInt(value as u64)),
    {
        self.serialize_u64(value as u64)
    }

    /// An unsigned integer becomes a number.
    pub fn serialize_u16(self, value: u16) -> (r: Result<DType, Error>)
        ensures
            r matches Ok(v) && v@ == Value::Number(NumImpl::PositiveInt(value as u64)),
    {
        self.serialize_u64(value as u64)
    }

    /// An unsigned integer becomes a number.
    pub fn serialize_u32(self, value: u32) -> (r: Result<DType, Error>)
        ensures
            r matches Ok(v) && v@ == Value::Number(NumImpl::PositiveInt(value as u64)),
    {
        self.serialize_u64(value as u64)
    }

    /// An unsigned integer becomes a number.
    pub fn serialize_u64(self, value: u64) -> (r: Result<DType, Error>)
        ensures
            r matches Ok(v) && v@ == Value::Number(NumImpl::PositiveInt(value)),
    {
        Ok(DType::Number(Number::from_u64(value)))
    }

    /// A float, given as its binary64 bit pattern, becomes a number where
    /// it is finite and null where it is not.
    pub fn serialize_f64(self, value: u64) -> (r: Result<DType, Error>)
        ensures
            r matches Ok(v) && v@ == float_value(value),
    {
        match Number::from_f64(value) {
            Some(n) => Ok(DType::Number(n)),
            None => Ok(DType::Null),
        }
    }

    /// A character becomes the string that holds it.
    pub fn serialize_char(self, value: char) -> (r: Result<DType, Error>)
        ensures
            r matches Ok(v) && v@ == Value::String(seq![value]),
    {
        Ok(DType::String(char_to_text(value)))
    }

    /// A string becomes a string.
    pub fn serialize_str(self, value: &str) -> (r: Result<DType, Error>)
        ensures
            r matches Ok(v) && v@ == Value::String(value@),
    {
        Ok(DType::String(value.to_owned()))
    }

    /// A byte string becomes an array of unsigned numbers, one for each
    /// byte.
    pub fn serialize_bytes(self, value: &[u8]) -> (r: Result<DType, Error>)
        ensures
            r matches Ok(v) && v@ == Value::Array(bytes_value(value@)),
    {
        let mut vec: Vec<DType> = Vec::with_capacity(value.len());
        let mut i: usize = 0;
        while i < value.len()
            invariant
                i <= value@.len(),
                values_view(vec@) == bytes_value(value@.take(i as int)),
            decreases value@.len() - i,
        {
            let ghost before = values_view(vec@);
            vec.push(DType::Number(Number::from_u64(value[i] as u64)));
            assert(values_view(vec@) =~= before.push(
                Value::Number(NumImpl::PositiveInt(value@[i as int] as u64)),
            ));
            assert(values_view(vec@) =~= bytes_value(value@.take(i + 1)));
            i += 1;
        }
        assert(value@.take(value@.len() as int) =~= value@);
        Ok(DType::Array(vec))
    }

    /// The unit value becomes null.
    pub fn serialize_unit(self) -> (r: Result<DType, Error>)
        ensures
            r matches Ok(v) && v@ == Value::Null,
    {
        Ok(DType::Null)
    }

    /// A structure without fields becomes null.
    pub fn serialize_unit_struct(self, _name: &str) -> (r: Result<DType, Error>)
        ensures
            r matches Ok(v) && v@ == Value::Null,
    {
        self.serialize_unit()
    }

    /// A variant without fields becomes its name.
    pub fn serialize_unit_variant(self, _name: &str, _variant_index: u32, variant: &str) -> (r:
        Result<DType, Error>)
        ensures
            r matches Ok(v) && v@ == Value::String(variant@),
    {
        self.serialize_str(variant)
    }

    /// A structure that wraps one value becomes what the value built.
    pub fn serialize_newtype_struct(self, _name: &str, value: &Native) -> (r: Result<DType, Error>)
        ensures
            result_is(r, built(*value)),
        decreases value, 1int,
    {
        to_dtype(value)
    }

    /// A variant that wraps one value becomes an object with one entry:
    /// the name of the variant, and what the value built.
    pub fn serialize_newtype_variant(
        self,
        _name: &str,
        _variant_index: u32,
        variant: &str,
        value: &Native,
    ) -> (r: Result<DType, Error>)
        ensures
            result_is(
                r,
                match built(*value) {
                    Some(v) => Some(single_entry(variant@, v)),
                    None => None,
                },
            ),
        decreases value, 1int,
    {
        let inner = match to_dtype(value) {
            Ok(v) => v,
            Err(e) => {
                return Err(e);
            },
        };
        Ok(single_entry_object(variant.to_owned(), inner))
    }

    /// An absent optional value becomes null.
    pub fn serialize_none(self) -> (r: Result<DType, Error>)
        ensures
            r matches Ok(v) && v@ == Value::Null,
    {
        self.serialize_unit()
    }

    /// A present optional value becomes what the value built.
    pub fn serialize_some(self, value: &Native) -> (r: Result<DType, Error>)
        ensures
            result_is(r, built(*value)),
        decreases value, 1int,
    {
        to_dtype(value)
    }

    /// Starts a sequence, with room for `len` elements where the length is
    /// known.
    pub fn serialize_seq(self, len: Option<usize>) -> (r: Result<SerializeVec, Error>)
        ensures
            r matches Ok(b) && b@ == Seq::<Value>::empty(),
    {
        let capacity = match len {
            Some(n) => n,
            None => 0,
        };
        Ok(SerializeVec { vec: Vec::with_capacity(capacity) })
    }

    /// Starts a tuple of `len` elements.
    pub fn serialize_tuple(self, len: usize) -> (r: Result<SerializeVec, Error>)
        ensures
            r matches Ok(b) && b@ == Seq::<Value>::empty(),
    {
        self.serialize_seq(Some(len))
    }

    /// Starts a named tuple of `len` elements.
    pub fn serialize_tuple_struct(self, _name: &str, len: usize) -> (r: Result<SerializeVec, Error>)
        ensures
            r matches Ok(b) && b@ == Seq::<Value>::empty(),
    {
        self.serialize_seq(Some(len))
    }

    /// Starts a variant with `len` unnamed fields.
    pub fn serialize_tuple_variant(
        self,
        _name: &str,
        _variant_index: u32,
        variant: &str,
        len: usize,
    ) -> (r: Result<SerializeTupleVariant, Error>)
        ensures
            r matches Ok(b) && b.spec_name() == variant@ && b@ == Seq::<Value>::empty(),
    {
        Ok(SerializeTupleVariant { name: variant.to_owned(), vec: Vec::with_capacity(len) })
    }

    /// Starts a map: no entry yet, and no key waiting for its value.
    pub fn serialize_map(self, _len: Option<usize>) -> (r: Result<SerializeMap, Error>)
        ensures
            r matches Ok(b) && b@ == Seq::<(Seq<char>, Value)>::empty() && b.pending() is None,
    {
        Ok(SerializeMap::Entries { map: OrderedMap::new(), next_key: None })
    }

    /// Starts a structure, which is built as a map of its fields.
    pub fn serialize_struct(self, _name: &str, len: usize) -> (r: Result<SerializeMap, Error>)
        ensures
            r matches Ok(b) && b@ == Seq::<(Seq<char>, Value)>::empty() && b.pending() is None,
    {
        self.serialize_map(Some(len))
    }

    /// Starts a variant with named fields.
    pub fn serialize_struct_variant(
        self,
        _name: &str,
        _variant_index: u32,
        variant: &str,
        _len: usize,
    ) -> (r: Result<SerializeStructVariant, Error>)
        ensures
            r matches Ok(b) && b.spec_name() == variant@ && b@ == Seq::<(Seq<char>, Value)>::empty(),
    {
        Ok(SerializeStructVariant { name: variant.to_owned(), map: OrderedMap::new() })
    }

    /// A value that is shown as text becomes that text.
    pub fn collect_str(self, value: &str) -> (r: Result<DType, Error>)
        ensures
            r matches Ok(v) && v@ == Value::String(value@),
    {
        Ok(DType::String(value.to_owned()))
    }
}

/// The result `r` is `Ok` with the value `expected` where there is one,
/// and the error of a key that cannot be a string where there is none.
pub open spec fn result_is(r: Result<DType, Error>, expected: Option<Value>) -> bool {
    match r {
        Ok(v) => expected == Some(v@),
        Err(e) => expected is None && e.is_key_must_be_a_string(),
    }
}

/// The elements of a sequence, as they are built one by one.
pub struct SerializeVec {
    vec: Vec<DType>,
}

impl View for SerializeVec {
    type V = Seq<Value>;

    closed spec fn view(&self) -> Seq<Value> {
        values_view(self.vec@)
    }
}

impl SerializeVec {
    /// Builds `value` and adds it at the end. Where `value` cannot be
    /// built, nothing is added.
    pub fn serialize_element(&mut self, value: &Native) -> (r: Result<(), Error>)
        ensures
            match r {
                Ok(_) => built(*value) matches Some(v) && final(self)@ == old(self)@.push(v),
                Err(e) => built(*value) is None && e.is_key_must_be_a_string() && final(self)@
                    == old(self)@,
            },
        decreases value, 1int,
    {
        let v = match to_dtype(value) {
            Ok(v) => v,
            Err(e) => {
                return Err(e);
            },
        };
        self.vec.push(v);
        assert(self@ =~= old(self)@.push(v@));
        Ok(())
    }

    /// Builds `value` and adds it at the end, as an element of a tuple.
    pub fn serialize_field(&mut self, value: &Native) -> (r: Result<(), Error>)
        ensures
            match r {
                Ok(_) => built(*value) matches Some(v) && final(self)@ == old(self)@.push(v),
                Err(e) => built(*value) is None && e.is_key_must_be_a_string() && final(self)@
                    == old(self)@,
            },
        decreases value, 2int,
    {
        self.serialize_element(value)
    }

    /// The array of the elements built so far.
    pub fn end(self) -> (r: Result<DType, Error>)
        ensures
            r matches Ok(v) && v@ == Value::Array(self@),
    {
        Ok(DType::Array(self.vec))
    }
}

/// The fields of a variant with unnamed fields, as they are built one by
/// one.
pub struct SerializeTupleVariant {
    name: String,
    vec: Vec<DType>,
}

impl View for SerializeTupleVariant {
    type V = Seq<Value>;

    closed spec fn view(&self) -> Seq<Value> {
        values_view(self.vec@)
    }
}

impl SerializeTupleVariant {
    /// The name of the variant.
    pub closed spec fn spec_name(&self) -> Seq<char> {
        self.name@
    }

    /// Builds `value` and adds it at the end. Where `value` cannot be
    /// built, nothing is added.
    pub fn serialize_field(&mut self, value: &Native) -> (r: Result<(), Error>)
        ensures
            final(self).spec_name() == old(self).spec_name(),
            match r {
                Ok(_) => built(*value) matches Some(v) && final(self)@ == old(self)@.push(v),
                Err(e) => built(*value) is None && e.is_key_must_be_a_string() && final(self)@
                    == old(self)@,
            },
        decreases value, 1int,
    {
        let v = match to_dtype(value) {
            Ok(v) => v,
            Err(e) => {
                return Err(e);
            },
        };
        self.vec.push(v);
        assert(self@ =~= old(self)@.push(v@));
        Ok(())
    }

    /// The object with one entry: the name of the variant, and the array
    /// of the fields built so far.
    pub fn end(self) -> (r: Result<DType, Error>)
        ensures
            r matches Ok(v) && v@ == single_entry(self.spec_name(), Value::Array(self@)),
    {
        Ok(single_entry_object(self.name, DType::Array(self.vec)))
    }
}

/// The entries of a map, or the fields of a structure, as they are built
/// one by one. A key is supplied first and waits for its value; then the
/// value is supplied and the entry is set.
pub enum SerializeMap {
    /// The map so far, and the key that waits for its value.
    Entries { map: OrderedMap, next_key: Option<String> },
}

impl View for SerializeMap {
    type V = Entries;

    open spec fn view(&self) -> Entries {
        match self {
            SerializeMap::Entries { map, .. } => map@,
        }
    }
}

impl SerializeMap {
    /// The key that waits for its value, if any.
    pub open spec fn pending(&self) -> Option<Seq<char>> {
        match self {
            SerializeMap::Entries { next_key, .. } => match next_key {
                Some(k) => Some(k@),
                None => None,
            },
        }
    }

    /// Supplies the key of the next entry: it is turned into a string and
    /// waits for its value. A key that cannot be a string is refused, and
    /// nothing changes.
    pub fn serialize_key(&mut self, key: &Native) -> (r: Result<(), Error>)
        ensures
            final(self)@ == old(self)@,
            match r {
                Ok(_) => key_text(*key) is Some && final(self).pending() == key_text(*key),
                Err(e) => key_text(*key) is None && e.is_key_must_be_a_string() && final(self).pending() == old(self).pending(),
            },
    {
        match self {
            SerializeMap::Entries { next_key, .. } => {
                let k = match MapKeySerializer.serialize(key) {
                    Ok(k) => k,
                    Err(e) => {
                        return Err(e);
                    },
                };
                *next_key = Some(k);
                Ok(())
            },
        }
    }

    /// Supplies the value of the entry whose key waits: the value is built
    /// and the entry is set. The key waits no longer, whether the value
    /// could be built or not.
    pub fn serialize_value(&mut self, value: &Native) -> (r: Result<(), Error>)
        requires
            old(self).pending() is Some,
        ensures
            final(self).pending() is None,
            match r {
                Ok(_) => built(*value) matches Some(v) && final(self)@ == with_entry(
                    old(self)@,
                    old(self).pending()->0,
                    v,
                ),
                Err(e) => built(*value) is None && e.is_key_must_be_a_string() && final(self)@
                    == old(self)@,
            },
        decreases value, 1int,
    {
        match self {
            SerializeMap::Entries { map, next_key } => {
                let key = match next_key.take() {
                    Some(k) => k,
                    None => {
                        assert(false);
                        String::new()
                    },
                };
                let v = match to_dtype(value) {
                    Ok(v) => v,
                    Err(e) => {
                        return Err(e);
                    },
                };
                map.insert(key, v);
                Ok(())
            },
        }
    }

    /// Supplies a key and its value in one step.
    pub fn serialize_entry(&mut self, key: &Native, value: &Native) -> (r: Result<(), Error>)
        ensures
            match r {
                Ok(_) => key_text(*key) matches Some(k) && built(*value) matches Some(v) && final(self)@ == with_entry(old(self)@, k, v) && final(self).pending() is None,
                Err(e) => (key_text(*key) is None || built(*value) is None)
                    && e.is_key_must_be_a_string() && final(self)@ == old(self)@,
            },
        decreases value, 2int,
    {
        match self.serialize_key(key) {
            Ok(_) => {},
            Err(e) => {
                return Err(e);
            },
        }
        self.serialize_value(value)
    }

    /// Supplies the field `key` of a structure and its value.
    pub fn serialize_field(&mut self, key: &str, value: &Native) -> (r: Result<(), Error>)
        ensures
            match r {
                Ok(_) => built(*value) matches Some(v) && final(self)@ == with_entry(
                    old(self)@,
                    key@,
                    v,
                ) && final(self).pending() is None,
                Err(e) => built(*value) is None && e.is_key_must_be_a_string() && final(self)@
                    == old(self)@,
            },
        decreases value, 2int,
    {
        match self {
            SerializeMap::Entries { next_key, .. } => {
                *next_key = Some(key.to_owned());
            },
        }
        self.serialize_value(value)
    }

    /// The object of the entries set so far.
    pub fn end(self) -> (r: Result<DType, Error>)
        ensures
            r matches Ok(v) && v@ == Value::Object(self@),
    {
        match self {
            SerializeMap::Entries { map, .. } => Ok(DType::Object(map)),
        }
    }
}

/// The fields of a variant with named fields, as they are built one by
/// one.
pub struct SerializeStructVariant {
    name: String,
    map: OrderedMap,
}

impl View for SerializeStructVariant {
    type V = Entries;

    closed spec fn view(&self) -> Entries {
        self.map@
    }
}

impl SerializeStructVariant {
    /// The name of the variant.
    pub closed spec fn spec_name(&self) -> Seq<char> {
        self.name@
    }

    /// Builds `value` and sets it under the field `key`.
    pub fn serialize_field(&mut self, key: &str, value: &Native) -> (r: Result<(), Error>)
        ensures
            final(self).spec_name() == old(self).spec_name(),
            match r {
                Ok(_) => built(*value) matches Some(v) && final(self)@ == with_entry(
                    old(self)@,
                    key@,
                    v,
                ),
                Err(e) => built(*value) is None && e.is_key_must_be_a_string() && final(self)@
                    == old(self)@,
            },
        decreases value, 1int,
    {
        let v = match to_dtype(value) {
            Ok(v) => v,
            Err(e) => {
                return Err(e);
            },
        };
        self.map.insert(key.to_owned(), v);
        Ok(())
    }

    /// The object with one entry: the name of the variant, and the object
    /// of the fields set so far.
    pub fn end(self) -> (r: Result<DType, Error>)
        ensures
            r matches Ok(v) && v@ == single_entry(self.spec_name(), Value::Object(self@)),
    {
        Ok(single_entry_object(self.name, DType::Object(self.map)))
    }
}

/// Turns the key of a map into a string, where it can be one.
pub struct MapKeySerializer;

impl MapKeySerializer {
    /// The string for the key `key`, or the error of a key that cannot be
    /// a string.
    pub fn serialize(self, key: &Native) -> (r: Result<String, Error>)
        ensures
            match r {
                Ok(k) => key_text(*key) == Some(k@),
                Err(e) => key_text(*key) is None && e.is_key_must_be_a_string(),
            },
        decreases key, 0int,
    {
        match key {
            Native::Bool(b) => self.serialize_bool(*b),
            Native::I8(i) => self.serialize_i8(*i),
            Native::I16(i) => self.serialize_i16(*i),
            Native::I32(i) => self.serialize_i32(*i),
            Native::I64(i) => self.serialize_i64(*i),
            Native::U8(u) => self.serialize_u8(*u),
            Native::U16(u) => self.serialize_u16(*u),
            Native::U32(u) => self.serialize_u32(*u),
            Native::U64(u) => self.serialize_u64(*u),
            Native::F64(bits) => self.serialize_f64(*bits),
            Native::Char(c) => self.serialize_char(*c),
            Native::Str(s) => self.serialize_str(s.as_str()),
            Native::Bytes(b) => self.serialize_bytes(b.as_slice()),
            Native::Absent => self.serialize_none(),
            Native::Present(value) => self.serialize_some(value),
            Native::Unit => self.serialize_unit(),
            Native::UnitStruct { name } => self.serialize_unit_struct(name.as_str()),
            Native::UnitVariant { name, variant_index, variant } => self.serialize_unit_variant(
                name.as_str(),
                *variant_index,
                variant.as_str(),
            ),
            Native::NewtypeStruct { name, value } => self.serialize_newtype_struct(
                name.as_str(),
                value,
            ),
            Native::NewtypeVariant { name, variant_index, variant, value } => {
                self.serialize_newtype_variant(
                    name.as_str(),
                    *variant_index,
                    variant.as_str(),
                    value,
                )
            },
            Native::Sequence(items) => self.serialize_seq(Some(items.len())),
            Native::Tuple(items) => self.serialize_tuple(items.len()),
            Native::TupleStruct { name, fields } => self.serialize_tuple_struct(
                name.as_str(),
                fields.len(),
            ),
            Native::TupleVariant { name, variant_index, variant, fields } => {
                self.serialize_tuple_variant(
                    name.as_str(),
                    *variant_index,
                    variant.as_str(),
                    fields.len(),
                )
            },
            Native::Mapping(entries) => self.serialize_map(Some(entries.len())),
            Native::Struct { name, fields } => self.serialize_struct(name.as_str(), fields.len()),
            Native::StructVariant { name, variant_index, variant, fields } => {
                self.serialize_struct_variant(
                    name.as_str(),
                    *variant_index,
                    variant.as_str(),
                    fields.len(),
                )
            },
        }
    }

    /// A boolean is no key.
    pub fn serialize_bool(self, _value: bool) -> (r: Result<String, Error>)
        ensures
            r matches Err(e) && e.is_key_must_be_a_string(),
    {
        Err(key_must_be_a_string())
    }

    /// A signed integer is a key as its decimal text.
    pub fn serialize_i8(self, value: i8) -> (r: Result<String, Error>)
        ensures
            r matches Ok(k) && k@ == signed_decimal(value as int),
    {
        Ok(i64_to_text(value as i64))
    }

    /// A signed integer is a key as its decimal text.
    pub fn serialize_i16(self, value: i16) -> (r: Result<String, Error>)
        ensures
            r matches Ok(k) && k@ == signed_decimal(value as int),
    {
        Ok(i64_to_text(value as i64))
    }

    /// A signed integer is a key as its decimal text.
    pub fn serialize_i32(self, value: i32) -> (r: Result<String, Error>)
        ensures
            r matches Ok(k) && k@ == signed_decimal(value as int),
    {
        Ok(i64_to_text(value as i64))
    }

    /// A signed integer is a key as its decimal text.
    pub fn serialize_i64(self, value: i64) -> (r: Result<String, Error>)
        ensures
            r matches Ok(k) && k@ == signed_decimal(value as int),
    {
        Ok(i64_to_text(value))
    }

    /// An unsigned integer is a key as its decimal text.
    pub fn serialize_u8(self, value: u8) -> (r: Result<String, Error>)
        ensures
            r matches Ok(k) && k@ == decimal(value as nat),
    {
        Ok(u64_to_text(value as u64))
    }

    /// An unsigned integer is a key as its decimal text.
    pub fn serialize_u16(self, value: u16) -> (r: Result<String, Error>)
        ensures
            r matches Ok(k) && k@ == decimal(value as nat),
    {
        Ok(u64_to_text(value as u64))
    }

    /// An unsigned integer is a key as its decimal text.
    pub fn serialize_u32(self, value: u32) -> (r: Result<String, Error>)
        ensures
            r matches Ok(k) && k@ == decimal(value as nat),
    {
        Ok(u64_to_text(value as u64))
    }

    /// An unsigned integer is a key as its decimal text.
    pub fn serialize_u64(self, value: u64) -> (r: Result<String, Error>)
        ensures
            r matches Ok(k) && k@ == decimal(value as nat),
    {
        Ok(u64_to_text(value))
    }

    /// A float, whatever its bit pattern, is no key.
    pub fn serialize_f64(self, _value: u64) -> (r: Result<String, Error>)
        ensures
            r matches Err(e) && e.is_key_must_be_a_string(),
    {
        Err(key_must_be_a_string())
    }

    /// A character is a key as the string that holds it.
    pub fn serialize_char(self, value: char) -> (r: Result<String, Error>)
        ensures
            r matches Ok(k) && k@ == seq![value],
    {
        Ok(char_to_text(value))
    }

    /// A string is a key as it is.
    pub fn serialize_str(self, value: &str) -> (r: Result<String, Error>)
        ensures
            r matches Ok(k) && k@ == value@,
    {
        Ok(value.to_owned())
    }

    /// A byte string is no key.
    pub fn serialize_bytes(self, _value: &[u8]) -> (r: Result<String, Error>)
        ensures
            r matches Err(e) && e.is_key_must_be_a_string(),
    {
        Err(key_must_be_a_string())
    }

    /// The unit is no key.
    pub fn serialize_unit(self) -> (r: Result<String, Error>)
        ensures
            r matches Err(e) && e.is_key_must_be_a_string(),
    {
        Err(key_must_be_a_string())
    }

    /// A structure without fields is no key.
    pub fn serialize_unit_struct(self, _name: &str) -> (r: Result<String, Error>)
        ensures
            r matches Err(e) && e.is_key_must_be_a_string(),
    {
        Err(key_must_be_a_string())
    }

    /// A variant without fields is a key as its name.
    pub fn serialize_unit_variant(self, _name: &str, _variant_index: u32, variant: &str) -> (r:
        Result<String, Error>)
        ensures
            r matches Ok(k) && k@ == variant@,
    {
        Ok(variant.to_owned())
    }

    /// A structure that wraps one value is a key as that value is.
    pub fn serialize_newtype_struct(self, _name: &str, value: &Native) -> (r: Result<String, Error>)
        ensures
            match r {
                Ok(k) => key_text(*value) == Some(k@),
                Err(e) => key_text(*value) is None && e.is_key_must_be_a_string(),
            },
        decreases value, 1int,
    {
        self.serialize(value)
    }

    /// A variant that wraps a value is no key.
    pub fn serialize_newtype_variant(self, _name: &str, _variant_index: u32, _variant: &str, _value: &Native) -> (r: Result<String, Error>)
        ensures
            r matches Err(e) && e.is_key_must_be_a_string(),
    {
        Err(key_must_be_a_string())
    }

    /// An absent value is no key.
    pub fn serialize_none(self) -> (r: Result<String, Error>)
        ensures
            r matches Err(e) && e.is_key_must_be_a_string(),
    {
        Err(key_must_be_a_string())
    }

    /// A present optional value is no key.
    pub fn serialize_some(self, _value: &Native) -> (r: Result<String, Error>)
        ensures
            r matches Err(e) && e.is_key_must_be_a_string(),
    {
        Err(key_must_be_a_string())
    }

    /// A sequence is no key.
    pub fn serialize_seq(self, _len: Option<usize>) -> (r: Result<String, Error>)
        ensures
            r matches Err(e) && e.is_key_must_be_a_string(),
    {
        Err(key_must_be_a_string())
    }

    /// A tuple is no key.
    pub fn serialize_tuple(self, _len: usize) -> (r: Result<String, Error>)
        ensures
            r matches Err(e) && e.is_key_must_be_a_string(),
    {
        Err(key_must_be_a_string())
    }

    /// A named tuple is no key.
    pub fn serialize_tuple_struct(self, _name: &str, _len: usize) -> (r: Result<String, Error>)
        ensures
            r matches Err(e) && e.is_key_must_be_a_string(),
    {
        Err(key_must_be_a_string())
    }

    /// A variant with unnamed fields is no key.
    pub fn serialize_tuple_variant(self, _name: &str, _variant_index: u32, _variant: &str, _len: usize) -> (r: Result<String, Error>)
        ensures
            r matches Err(e) && e.is_key_must_be_a_string(),
    {
        Err(key_must_be_a_string())
    }

    /// A map is no key.
    pub fn serialize_map(self, _len: Option<usize>) -> (r: Result<String, Error>)
        ensures
            r matches Err(e) && e.is_key_must_be_a_string(),
    {
        Err(key_must_be_a_string())
    }

    /// A structure is no key.
    pub fn serialize_struct(self, _name: &str, _len: usize) -> (r: Result<String, Error>)
        ensures
            r matches Err(e) && e.is_key_must_be_a_string(),
    {
        Err(key_must_be_a_string())
    }

    /// A variant with named fields is no key.
    pub fn serialize_struct_variant(self, _name: &str, _variant_index: u32, _variant: &str, _len: usize) -> (r: Result<String, Error>)
        ensures
            r matches Err(e) && e.is_key_must_be_a_string(),
    {
        Err(key_must_be_a_string())
    }

    /// A value that is shown as text is a key as that text.
    pub fn collect_str(self, value: &str) -> (r: Result<String, Error>)
        ensures
            r matches Ok(k) && k@ == value@,
    {
        Ok(value.to_owned())
    }
}

/// Once some element cannot be built, no longer prefix can be built.
pub proof fn lemma_built_all_fails(items: Seq<Native>, n: int, m: int)
    requires
        0 <= n <= m <= items.len(),
        built_all(items, n) is None,
    ensures
        built_all(items, m) is None,
    decreases m - n,
{
    if n < m {
        lemma_built_all_fails(items, n, m - 1);
    }
}

/// Once some entry cannot be built, no longer prefix can be built.
pub proof fn lemma_built_map_fails(entries: Seq<(Native, Native)>, n: int, m: int)
    requires
        0 <= n <= m <= entries.len(),
        built_map(entries, n) is None,
    ensures
        built_map(entries, m) is None,
    decreases m - n,
{
    if n < m {
        lemma_built_map_fails(entries, n, m - 1);
    }
}

/// Once some field cannot be built, no longer prefix can be built.
pub proof fn lemma_built_fields_fails(fields: Seq<(String, Native)>, n: int, m: int)
    requires
        0 <= n <= m <= fields.len(),
        built_fields(fields, n) is None,
    ensures
        built_fields(fields, m) is None,
    decreases m - n,
{
    if n < m {
        lemma_built_fields_fails(fields, n, m - 1);
    }
}

/// A map with a key that cannot be a string cannot be built, whatever the
/// key's place and whatever else the map holds: a boolean, a float, a
/// sequence or a map as a key fails the whole.
pub proof fn lemma_uncoercible_key_fails(n: Native, i: int)
    requires
        n is Mapping,
        0 <= i < n->Mapping_0@.len(),
        key_text(n->Mapping_0@[i].0) is None,
    ensures
        built(n) is None,
{
    let entries = n->Mapping_0@;
    lemma_built_map_fails(entries, i + 1, entries.len() as int);
}

/// Booleans, floats, byte strings, sequences and maps cannot be keys.
pub proof fn lemma_uncoercible_keys(n: Native)
    requires
        n is Bool || n is F64 || n is Bytes || n is Sequence || n is Tuple || n is Mapping
            || n is Unit || n is Absent || n is Present,
    ensures
        key_text(n) is None,
{
}

/// Builds the elements `items` into an empty sequence builder, in order.
fn fill_vec(items: &Vec<Native>, builder: SerializeVec) -> (r: Result<SerializeVec, Error>)
    requires
        builder@.len() == 0,
    ensures
        match r {
            Ok(b) => built_all(items@, items@.len() as int) == Some(b@),
            Err(e) => built_all(items@, items@.len() as int) is None && e.is_key_must_be_a_string(),
        },
    decreases items, 3int,
{
    let mut builder = builder;
    let mut i: usize = 0;
    assert(builder@ =~= Seq::<Value>::empty());
    while i < items.len()
        invariant
            i <= items@.len(),
            built_all(items@, i as int) == Some(builder@),
        decreases items@.len() - i,
    {
        proof {
            assert(decreases_to!(items => items[i as int]));
        }
        match builder.serialize_element(&items[i]) {
            Ok(_) => {},
            Err(e) => {
                proof {
                    lemma_built_all_fails(items@, i + 1, items@.len() as int);
                }
                return Err(e);
            },
        }
        i += 1;
    }
    Ok(builder)
}

/// Builds the fields `items` into the builder of a variant, in order.
fn fill_tuple_variant(items: &Vec<Native>, builder: SerializeTupleVariant) -> (r: Result<
    SerializeTupleVariant,
    Error,
>)
    requires
        builder@.len() == 0,
    ensures
        match r {
            Ok(b) => built_all(items@, items@.len() as int) == Some(b@) && b.spec_name()
                == builder.spec_name(),
            Err(e) => built_all(items@, items@.len() as int) is None && e.is_key_must_be_a_string(),
        },
    decreases items, 3int,
{
    let ghost name = builder.spec_name();
    let mut builder = builder;
    let mut i: usize = 0;
    assert(builder@ =~= Seq::<Value>::empty());
    while i < items.len()
        invariant
            i <= items@.len(),
            builder.spec_name() == name,
            built_all(items@, i as int) == Some(builder@),
        decreases items@.len() - i,
    {
        proof {
            assert(decreases_to!(items => items[i as int]));
        }
        match builder.serialize_field(&items[i]) {
            Ok(_) => {},
            Err(e) => {
                proof {
                    lemma_built_all_fails(items@, i + 1, items@.len() as int);
                }
                return Err(e);
            },
        }
        i += 1;
    }
    Ok(builder)
}

/// Builds the entries `entries` into an empty map builder, in order.
fn fill_map(entries: &Vec<(Native, Native)>, builder: SerializeMap) -> (r: Result<
    SerializeMap,
    Error,
>)
    requires
        builder@.len() == 0,
    ensures
        match r {
            Ok(b) => built_map(entries@, entries@.len() as int) == Some(b@),
            Err(e) => built_map(entries@, entries@.len() as int) is None
                && e.is_key_must_be_a_string(),
        },
    decreases entries, 3int,
{
    let mut builder = builder;
    let mut i: usize = 0;
    assert(builder@ =~= Seq::<(Seq<char>, Value)>::empty());
    while i < entries.len()
        invariant
            i <= entries@.len(),
            built_map(entries@, i as int) == Some(builder@),
        decreases entries@.len() - i,
    {
        proof {
            assert(decreases_to!(entries => entries[i as int]));
            assert(decreases_to!(entries[i as int] => entries[i as int].1));
        }
        match builder.serialize_entry(&entries[i].0, &entries[i].1) {
            Ok(_) => {},
            Err(e) => {
                proof {
                    lemma_built_map_fails(entries@, i + 1, entries@.len() as int);
                }
                return Err(e);
            },
        }
        i += 1;
    }
    Ok(builder)
}

/// Builds the named fields `fields` into an empty map builder, in order.
fn fill_struct(fields: &Vec<(String, Native)>, builder: SerializeMap) -> (r: Result<
    SerializeMap,
    Error,
>)
    requires
        builder@.len() == 0,
    ensures
        match r {
            Ok(b) => built_fields(fields@, fields@.len() as int) == Some(b@),
            Err(e) => built_fields(fields@, fields@.len() as int) is None
                && e.is_key_must_be_a_string(),
        },
    decreases fields, 3int,
{
    let mut builder = builder;
    let mut i: usize = 0;
    assert(builder@ =~= Seq::<(Seq<char>, Value)>::empty());
    while i < fields.len()
        invariant
            i <= fields@.len(),
            built_fields(fields@, i as int) == Some(builder@),
        decreases fields@.len() - i,
    {
        proof {
            assert(decreases_to!(fields => fields[i as int]));
            assert(decreases_to!(fields[i as int] => fields[i as int].1));
        }
        match builder.serialize_field(fields[i].0.as_str(), &fields[i].1) {
            Ok(_) => {},
            Err(e) => {
                proof {
                    lemma_built_fields_fails(fields@, i + 1, fields@.len() as int);
                }
                return Err(e);
            },
        }
        i += 1;
    }
    Ok(builder)
}

/// Builds the named fields `fields` into the builder of a variant, in
/// order.
fn fill_struct_variant(fields: &Vec<(String, Native)>, builder: SerializeStructVariant) -> (r:
    Result<SerializeStructVariant, Error>)
    requires
        builder@.len() == 0,
    ensures
        match r {
            Ok(b) => built_fields(fields@, fields@.len() as int) == Some(b@) && b.spec_name()
                == builder.spec_name(),
            Err(e) => built_fields(fields@, fields@.len() as int) is None
                && e.is_key_must_be_a_string(),
        },
    decreases fields, 3int,
{
    let ghost name = builder.spec_name();
    let mut builder = builder;
    let mut i: usize = 0;
    assert(builder@ =~= Seq::<(Seq<char>, Value)>::empty());
    while i < fields.len()
        invariant
            i <= fields@.len(),
            builder.spec_name() == name,
            built_fields(fields@, i as int) == Some(builder@),
        decreases fields@.len() - i,
    {
        proof {
            assert(decreases_to!(fields => fields[i as int]));
            assert(decreases_to!(fields[i as int] => fields[i as int].1));
        }
        match builder.serialize_field(fields[i].0.as_str(), &fields[i].1) {
            Ok(_) => {},
            Err(e) => {
                proof {
                    lemma_built_fields_fails(fields@, i + 1, fields@.len() as int);
                }
                return Err(e);
            },
        }
        i += 1;
    }
    Ok(builder)
}

/// Takes the payload of a raw value out of a traversal: only a string can
/// be one.
pub struct RawDTypeEmitter;

impl RawDTypeEmitter {
    /// The text of the raw value that `value` carries, for the lexer to
    /// read. Anything but a string is an invalid raw value.
    pub fn serialize(self, value: &Native) -> (r: Result<String, Error>)
        ensures
            match r {
                Ok(text) => value matches Native::Str(t) && text@ == t@,
                Err(e) => !(value is Str) && e.is_invalid_raw_value(),
            },
    {
        match value {
            Native::Str(s) => self.serialize_str(s.as_str()),
            _ => Err(invalid_raw_value()),
        }
    }

    /// The text of the raw value that the field `key` of a structure
    /// carries: the field must be named by the marker of raw values and
    /// hold a string. A field of another name is an invalid raw value, and
    /// so is a value that is no string.
    pub fn serialize_field(self, key: &str, value: &Native) -> (r: Result<String, Error>)
        ensures
            match r {
                Ok(text) => value matches Native::Str(t) && text@ == t@ && key@
                    == crate::datastore::json::raw::TOKEN@,
                Err(e) => (key@ != crate::datastore::json::raw::TOKEN@ || !(value is Str))
                    && e.is_invalid_raw_value(),
            },
    {
        if crate::text::same_text(key, crate::datastore::json::raw::TOKEN) {
            self.serialize(value)
        } else {
            Err(invalid_raw_value())
        }
    }

    /// A string is the text of a raw value.
    pub fn serialize_str(self, value: &str) -> (r: Result<String, Error>)
        ensures
            r matches Ok(text) && text@ == value@,
    {
        Ok(value.to_owned())
    }
}

/// Builds the value that stands for a native value.
///
/// Fails only where some map in `value` has a key that is neither a
/// string, a character, an integer nor a variant without fields.
pub fn to_dtype(value: &Native) -> (r: Result<DType, Error>)
    ensures
        result_is(r, built(*value)),
    decreases value, 0int,
{
    match value {
        Native::Bool(b) => Serializer.serialize_bool(*b),
        Native::I8(i) => Serializer.serialize_i8(*i),
        Native::I16(i) => Serializer.serialize_i16(*i),
        Native::I32(i) => Serializer.serialize_i32(*i),
        Native::I64(i) => Serializer.serialize_i64(*i),
        Native::U8(u) => Serializer.serialize_u8(*u),
        Native::U16(u) => Serializer.serialize_u16(*u),
        Native::U32(u) => Serializer.serialize_u32(*u),
        Native::U64(u) => Serializer.serialize_u64(*u),
        Native::F64(bits) => Serializer.serialize_f64(*bits),
        Native::Char(c) => Serializer.serialize_char(*c),
        Native::Str(s) => Serializer.serialize_str(s.as_str()),
        Native::Bytes(b) => Serializer.serialize_bytes(b.as_slice()),
        Native::Absent => Serializer.serialize_none(),
        Native::Present(inner) => Serializer.serialize_some(inner),
        Native::Unit => Serializer.serialize_unit(),
        Native::UnitStruct { name } => Serializer.serialize_unit_struct(name.as_str()),
        Native::UnitVariant { name, variant_index, variant } => Serializer.serialize_unit_variant(
            name.as_str(),
            *variant_index,
            variant.as_str(),
        ),
        Native::NewtypeStruct { name, value: inner } => Serializer.serialize_newtype_struct(
            name.as_str(),
            inner,
        ),
        Native::NewtypeVariant { name, variant_index, variant, value: inner } => {
            Serializer.serialize_newtype_variant(
                name.as_str(),
                *variant_index,
                variant.as_str(),
                inner,
            )
        },
        Native::Sequence(items) => {
            let builder = match Serializer.serialize_seq(Some(items.len())) {
                Ok(b) => b,
                Err(e) => {
                    return Err(e);
                },
            };
            match fill_vec(items, builder) {
                Ok(b) => b.end(),
                Err(e) => Err(e),
            }
        },
        Native::Tuple(items) => {
            let builder = match Serializer.serialize_tuple(items.len()) {
                Ok(b) => b,
                Err(e) => {
                    return Err(e);
                },
            };
            match fill_vec(items, builder) {
                Ok(b) => b.end(),
                Err(e) => Err(e),
            }
        },
        Native::TupleStruct { name, fields } => {
            let builder = match Serializer.serialize_tuple_struct(name.as_str(), fields.len()) {
                Ok(b) => b,
                Err(e) => {
                    return Err(e);
                },
            };
            match fill_vec(fields, builder) {
                Ok(b) => b.end(),
                Err(e) => Err(e),
            }
        },
        Native::TupleVariant { name, variant_index, variant, fields } => {
            let builder = match Serializer.serialize_tuple_variant(
                name.as_str(),
                *variant_index,
                variant.as_str(),
                fields.len(),
            ) {
                Ok(b) => b,
                Err(e) => {
                    return Err(e);
                },
            };
            match fill_tuple_variant(fields, builder) {
                Ok(b) => b.end(),
                Err(e) => Err(e),
            }
        },
        Native::Mapping(entries) => {
            let builder = match Serializer.serialize_map(Some(entries.len())) {
                Ok(b) => b,
                Err(e) => {
                    return Err(e);
                },
            };
            match fill_map(entries, builder) {
                Ok(b) => b.end(),
                Err(e) => Err(e),
            }
        },
        Native::Struct { name, fields } => {
            let builder = match Serializer.serialize_struct(name.as_str(), fields.len()) {
                Ok(b) => b,
                Err(e) => {
                    return Err(e);
                },
            };
            match fill_struct(fields, builder) {
                Ok(b) => b.end(),
                Err(e) => Err(e),
            }
        },
        Native::StructVariant { name, variant_index, variant, fields } => {
            let builder = match Serializer.serialize_struct_variant(
                name.as_str(),
                *variant_index,
                variant.as_str(),
                fields.len(),
            ) {
                Ok(b) => b,
                Err(e) => {
                    return Err(e);
                },
            };
            match fill_struct_variant(fields, builder) {
                Ok(b) => b.end(),
                Err(e) => Err(e),
            }
        },
    }
}

impl DType {
    /// The value as a traversal shows it: the unit for null, a boolean for
    /// a boolean, a number by the way it is held, a string for a string, a
    /// sequence for an array and a map for an object. A point in time is
    /// shown as its ISO 8601 text.
    pub fn serialize(&self) -> (r: Native)
        ensures
            shows(r, self@),
            value_wf(self@),
        decreases self,
    {
        match self {
            DType::Null => Native::Unit,
            DType::Boolean(b) => Native::Bool(*b),
            DType::Number(n) => n.serialize(),
            DType::String(s) => Native::Str(s.clone()),
            DType::DateTime(d) => Native::Str(d.as_str().to_owned()),
            DType::Array(v) => {
                let mut shown: Vec<Native> = Vec::with_capacity(v.len());
                let mut i: usize = 0;
                while i < v.len()
                    invariant
                        i <= v@.len(),
                        *self == DType::Array(*v),
                        shown@.len() == i,
                        forall|j: int|
                            0 <= j < i ==> shows(#[trigger] shown@[j], v@[j]@) && value_wf(v@[j]@),
                    decreases v@.len() - i,
                {
                    proof {
                        assert(decreases_to!(self => self->Array_0));
                        assert(decreases_to!(v => v[i as int]));
                    }
                    let item = v[i].serialize();
                    shown.push(item);
                    i += 1;
                }
                assert(values_view(v@).len() == v@.len());
                assert forall|j: int| 0 <= j < v@.len() implies shows(
                    #[trigger] shown@[j],
                    values_view(v@)[j],
                ) by {
                    assert(values_view(v@)[j] == v@[j]@);
                }
                assert forall|j: int| 0 <= j < v@.len() implies value_wf(
                    #[trigger] values_view(v@)[j],
                ) by {
                    assert(values_view(v@)[j] == v@[j]@);
                    assert(shows(shown@[j], v@[j]@));
                }
                Native::Sequence(shown)
            },
            DType::Object(m) => {
                proof {
                    assert(decreases_to!(self => self->Object_0));
                }
                m.serialize()
            },
        }
    }
}

/// Reads a value as the native value that a traversal of it shows.
pub fn from_dtype(value: DType) -> (r: Result<Native, Error>)
    ensures
        r matches Ok(n) && shows(n, value@),
        value_wf(value@),
{
    Ok(value.serialize())
}

} // verus!
