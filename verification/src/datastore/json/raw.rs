//! Raw values: a span of JSON text that holds exactly one value and is
//! passed on as it is, without being read into the data model.
//!
//! The traversal protocol has no shape for such a span, so a raw value is
//! shown as a structure with one field, both named by [`TOKEN`], whose
//! value is the text.

use vstd::prelude::*;
use crate::dtype::ops::native::Native;
use crate::error::{Error, ErrorCode, Unexpected};
use crate::text::{chars_of, same_text, string_of};

verus! {

/// The name that marks a raw value in a traversal.
pub const TOKEN: &'static str = "$sage::raw::RawDType";

/// Where the JSON lexer faults on `text`, as line and column, or `None`
/// where `text` is exactly one JSON value with nothing but whitespace
/// around it.
pub uninterp spec fn json_fault(text: Seq<char>) -> Option<(usize, usize)>;

/// Runs the JSON lexer over `text`.
///
/// Wraps `serde_json::from_str` at the type `serde::de::IgnoredAny`, which
/// reads one JSON value of any shape and keeps nothing of it, then checks
/// that only whitespace follows. The result is the place that
/// `serde_json::Error::line` and `column` give for the fault, if any.
#[verifier::external_body]
fn lex_json(text: &str) -> (r: Option<(usize, usize)>)
    ensures
        r == json_fault(text@),
{
    match serde_json::from_str::<serde::de::IgnoredAny>(text) {
        Ok(_) => None,
        Err(e) => Some((e.line(), e.column())),
    }
}

/// Whether `c` is whitespace in JSON text: a space, a tab, a line feed or
/// a carriage return.
pub open spec fn is_json_space(c: char) -> bool {
    c == ' ' || c == '\t' || c == '\n' || c == '\r'
}

/// `s` without the JSON whitespace at its start.
pub open spec fn trimmed_start(s: Seq<char>) -> Seq<char>
    decreases s.len(),
{
    if s.len() > 0 && is_json_space(s[0]) {
        trimmed_start(s.skip(1))
    } else {
        s
    }
}

/// `s` without the JSON whitespace at its end.
pub open spec fn trimmed_end(s: Seq<char>) -> Seq<char>
    decreases s.len(),
{
    if s.len() > 0 && is_json_space(s.last()) {
        trimmed_end(s.drop_last())
    } else {
        s
    }
}

/// `s` without the JSON whitespace at either end.
pub open spec fn trimmed(s: Seq<char>) -> Seq<char> {
    trimmed_end(trimmed_start(s))
}

/// A span of JSON text that holds exactly one value.
///
/// A raw value can be used to put off reading a part of a payload, or to
/// hand it on word for word: it keeps its formatting and is never
/// minified or pretty-printed.
#[derive(Debug, PartialEq)]
pub struct RawDType {
    json: String,
}

impl View for RawDType {
    type V = Seq<char>;

    closed spec fn view(&self) -> Seq<char> {
        self.json@
    }
}

impl Clone for RawDType {
    fn clone(&self) -> (r: RawDType)
        ensures
            r@ == self@,
    {
        RawDType { json: self.json.clone() }
    }
}

impl Default for RawDType {
    /// The default raw value is the text `null`.
    fn default() -> (r: RawDType)
        ensures
            r@ == "null"@,
    {
        RawDType::from_borrowed("null")
    }
}

/// Whether `c` is JSON whitespace.
fn is_space(c: char) -> (r: bool)
    ensures
        r == is_json_space(c),
{
    c == ' ' || c == '\t' || c == '\n' || c == '\r'
}

impl RawDType {
    /// The raw value of the text `json`, which the caller knows to be
    /// exactly one value. The text is copied.
    pub(crate) fn from_borrowed(json: &str) -> (r: RawDType)
        ensures
            r@ == json@,
    {
        RawDType { json: json.to_owned() }
    }

    /// The raw value that takes over the text `json`, which the caller
    /// knows to be exactly one value.
    pub(crate) fn from_owned(json: String) -> (r: Box<RawDType>)
        ensures
            r@ == json@,
    {
        Box::new(RawDType { json })
    }

    /// Makes a raw value of a text that the lexer has been run over, with
    /// `fault` as what it reported.
    ///
    /// Without a fault, the raw value is the text without the whitespace
    /// at either end; a text that has none there is taken over as it is,
    /// buffer and all. With a fault, the error names its place.
    pub fn from_lexed(json: String, fault: Option<(usize, usize)>) -> (r: Result<Box<RawDType>, Error>)
        ensures
            match r {
                Ok(raw) => fault is None && raw@ == trimmed(json@),
                Err(e) => fault matches Some(place) && e.code is ExpectedSomeDType && e.line
                    == place.0 && e.column == place.1,
            },
    {
        match fault {
            Some(place) => Err(Error::syntax(ErrorCode::ExpectedSomeDType, place.0, place.1)),
            None => {
                let chars = chars_of(json.as_str());
                let mut start: usize = 0;
                assert(chars@.skip(0) =~= chars@);
                while start < chars.len() && is_space(chars[start])
                    invariant
                        start <= chars@.len(),
                        trimmed_start(chars@.skip(start as int)) == trimmed_start(chars@),
                    decreases chars@.len() - start,
                {
                    assert(chars@.skip(start as int).skip(1) =~= chars@.skip(start + 1));
                    start += 1;
                }
                let mut end: usize = chars.len();
                let ghost rest = chars@.skip(start as int);
                assert(rest == trimmed_start(chars@));
                assert(chars@.subrange(start as int, chars@.len() as int) =~= rest);
                while end > start && is_space(chars[end - 1])
                    invariant
                        start <= end <= chars@.len(),
                        trimmed_end(chars@.subrange(start as int, end as int)) == trimmed_end(rest),
                    decreases end,
                {
                    assert(chars@.subrange(start as int, end as int).drop_last()
                        =~= chars@.subrange(start as int, end - 1));
                    end -= 1;
                }
                if start == 0 && end == chars.len() {
                    assert(chars@.subrange(0, chars@.len() as int) =~= chars@);
                    Ok(RawDType::from_owned(json))
                } else {
                    let span = vstd::slice::slice_subrange(chars.as_slice(), start, end);
                    Ok(RawDType::from_owned(string_of(span)))
                }
            },
        }
    }

    /// Converts an owned string of JSON text to a raw value.
    ///
    /// The text must be exactly one JSON value, with nothing but whitespace
    /// around it; the whitespace is left out. The buffer of a text without
    /// such whitespace is taken over and not copied.
    pub fn from_string(json: String) -> (r: Result<Box<RawDType>, Error>)
        ensures
            match r {
                Ok(raw) => json_fault(json@) is None && raw@ == trimmed(json@),
                Err(e) => json_fault(json@) matches Some(place) && e.code is ExpectedSomeDType
                    && e.line == place.0 && e.column == place.1,
            },
    {
        let fault = lex_json(json.as_str());
        RawDType::from_lexed(json, fault)
    }

    /// Access the JSON text underlying a raw value.
    pub fn get(&self) -> (r: &str)
        ensures
            r@ == self@,
    {
        self.json.as_str()
    }

    /// The JSON text, as it was taken.
    pub fn to_string(&self) -> (r: String)
        ensures
            r@ == self@,
    {
        self.json.clone()
    }

    /// The raw value as a traversal shows it: a structure named by
    /// [`TOKEN`] with one field of that name, whose value is the text.
    pub fn serialize(&self) -> (r: Native)
        ensures
            tunnels(r, self@),
    {
        let mut fields: Vec<(String, Native)> = Vec::with_capacity(1);
        fields.push((TOKEN.to_owned(), Native::Str(self.json.clone())));
        Native::Struct { name: TOKEN.to_owned(), fields }
    }

    /// Reads a raw value from what a traversal shows: a map or a structure
    /// whose first entry has the key [`TOKEN`] and a string as its value.
    /// The string is taken as the text, unread.
    ///
    /// Anything but a map, and a map without entries, is refused as a
    /// mismatch with `any valid JSON value`. A first key that is another
    /// string is refused with the message `unexpected raw value`; a first
    /// key or a value that is no string is refused as a mismatch with
    /// `raw value`.
    pub fn deserialize(value: &Native) -> (r: Result<Box<RawDType>, Error>)
        ensures
            match r {
                Ok(raw) => payload(*value) == Payload::Text(raw@),
                Err(e) => match payload(*value) {
                    Payload::NoMap => e.is_invalid_type("any valid JSON value"@),
                    Payload::NoEntry => e.is_invalid_type("any valid JSON value"@),
                    Payload::KeyNoString => e.is_invalid_type("raw value"@),
                    Payload::OtherKey => e.is_message("unexpected raw value"@),
                    Payload::ValueNoString => e.is_invalid_type("raw value"@),
                    Payload::Text(_) => false,
                },
            },
    {
        match value {
            Native::Mapping(entries) => {
                if entries.len() == 0 {
                    return Err(Error::invalid_type(Unexpected::Mapping, "any valid JSON value"));
                }
                match &entries[0].0 {
                    Native::Str(key) => match RawKey::visit_str(key.as_str()) {
                        Ok(_) => {},
                        Err(e) => {
                            return Err(e);
                        },
                    },
                    other => {
                        return Err(Error::invalid_type(other.unexpected(), "raw value"));
                    },
                }
                BoxedFromString.deserialize(&entries[0].1)
            },
            Native::Struct { fields, .. } => {
                if fields.len() == 0 {
                    return Err(Error::invalid_type(Unexpected::Mapping, "any valid JSON value"));
                }
                match RawKey::visit_str(fields[0].0.as_str()) {
                    Ok(_) => {},
                    Err(e) => {
                        return Err(e);
                    },
                }
                BoxedFromString.deserialize(&fields[0].1)
            },
            other => Err(Error::invalid_type(other.unexpected(), "any valid JSON value")),
        }
    }
}

/// `n` is the structure that tunnels the raw text `text` through a
/// traversal.
pub open spec fn tunnels(n: Native, text: Seq<char>) -> bool {
    &&& n matches Native::Struct { name, fields }
    &&& name@ == TOKEN@
    &&& fields@.len() == 1
    &&& fields@[0].0@ == TOKEN@
    &&& fields@[0].1 matches Native::Str(t)
    &&& t@ == text
}

/// What a native value holds for a reader of raw values.
pub enum Payload {
    /// The value is no map.
    NoMap,
    /// The value is a map without entries.
    NoEntry,
    /// The first key is no string.
    KeyNoString,
    /// The first key is a string other than the marker.
    OtherKey,
    /// The value under the marker is no string.
    ValueNoString,
    /// The text under the marker.
    Text(Seq<char>),
}

/// The first key of a map and its value, where both are there.
pub open spec fn first_entry(n: Native) -> Option<(Native, Native)> {
    match n {
        Native::Mapping(entries) => if entries@.len() > 0 {
            Some(entries@[0])
        } else {
            None
        },
        Native::Struct { fields, .. } => if fields@.len() > 0 {
            Some((Native::Str(fields@[0].0), fields@[0].1))
        } else {
            None
        },
        _ => None,
    }
}

/// What `n` holds for a reader of raw values.
pub open spec fn payload(n: Native) -> Payload {
    if !(n is Mapping || n is Struct) {
        Payload::NoMap
    } else {
        match first_entry(n) {
            None => Payload::NoEntry,
            Some((key, value)) => match key {
                Native::Str(k) => if k@ != TOKEN@ {
                    Payload::OtherKey
                } else {
                    match value {
                        Native::Str(t) => Payload::Text(t@),
                        _ => Payload::ValueNoString,
                    }
                },
                _ => Payload::KeyNoString,
            },
        }
    }
}

/// Wraps the text that a serializer wrote for some value into a raw value.
/// The text is taken over as it is.
pub fn to_raw_dtype(json_string: String) -> (r: Result<Box<RawDType>, Error>)
    ensures
        r matches Ok(raw) && raw@ == json_string@,
{
    Ok(RawDType::from_owned(json_string))
}

/// Reads the key of the entry that tunnels a raw value.
struct RawKey;

impl RawKey {
    /// Accepts the marker and no other key.
    fn visit_str(s: &str) -> (r: Result<(), Error>)
        ensures
            match r {
                Ok(_) => s@ == TOKEN@,
                Err(e) => s@ != TOKEN@ && e.is_message("unexpected raw value"@),
            },
    {
        if same_text(s, TOKEN) {
            Ok(())
        } else {
            Err(Error::custom("unexpected raw value"))
        }
    }
}

/// Reads the text of a raw value that is lent by the input.
pub struct ReferenceFromString;

impl ReferenceFromString {
    /// The raw value of the lent text `s`.
    pub fn visit_borrowed_str(self, s: &str) -> (r: Result<RawDType, Error>)
        ensures
            r matches Ok(raw) && raw@ == s@,
    {
        Ok(RawDType::from_borrowed(s))
    }
}

/// Reads the text of a raw value into a buffer of its own.
pub struct BoxedFromString;

impl BoxedFromString {
    /// Reads the text from a native value, which must be a string.
    pub fn deserialize(self, value: &Native) -> (r: Result<Box<RawDType>, Error>)
        ensures
            match r {
                Ok(raw) => value matches Native::Str(t) && raw@ == t@,
                Err(e) => !(value is Str) && e.is_invalid_type("raw value"@),
            },
    {
        match value {
            Native::Str(s) => self.visit_str(s.as_str()),
            other => Err(Error::invalid_type(other.unexpected(), "raw value")),
        }
    }

    /// The raw value of a copy of the text `s`.
    pub fn visit_str(self, s: &str) -> (r: Result<Box<RawDType>, Error>)
        ensures
            r matches Ok(raw) && raw@ == s@,
    {
        self.visit_string(s.to_owned())
    }

    /// The raw value that takes over the text `s`.
    pub fn visit_string(self, s: String) -> (r: Result<Box<RawDType>, Error>)
        ensures
            r matches Ok(raw) && raw@ == s@,
    {
        Ok(RawDType::from_owned(s))
    }
}

/// Hands out a raw value that it owns as a map of one entry: the marker as
/// the key, then the text as the value.
pub struct OwnedRawDeserializer {
    /// The text, until it has been handed out.
    pub raw_dtype: Option<String>,
}

impl OwnedRawDeserializer {
    /// The next key: the marker while the text is there, and no key once it
    /// has been handed out.
    pub fn next_key_seed(&self) -> (r: Result<Option<&'static str>, Error>)
        ensures
            r matches Ok(key) && match key {
                Some(k) => self.raw_dtype is Some && k@ == TOKEN@,
                None => self.raw_dtype is None,
            },
    {
        if self.raw_dtype.is_none() {
            return Ok(None);
        }
        Ok(Some(TOKEN))
    }

    /// Hands out the text, once.
    pub fn next_value_seed(&mut self) -> (r: Result<String, Error>)
        requires
            old(self).raw_dtype is Some,
        ensures
            r matches Ok(text) && text == old(self).raw_dtype->0,
            final(self).raw_dtype is None,
    {
        match self.raw_dtype.take() {
            Some(text) => Ok(text),
            None => {
                assert(false);
                Ok(String::new())
            },
        }
    }
}

/// Hands out a raw value that the input lends as a map of one entry: the
/// marker as the key, then the text as the value.
pub struct BorrowedRawDeserializer<'de> {
    /// The text, until it has been handed out.
    pub raw_dtype: Option<&'de str>,
}

impl<'de> BorrowedRawDeserializer<'de> {
    /// The next key: the marker while the text is there, and no key once it
    /// has been handed out.
    pub fn next_key_seed(&self) -> (r: Result<Option<&'static str>, Error>)
        ensures
            r matches Ok(key) && match key {
                Some(k) => self.raw_dtype is Some && k@ == TOKEN@,
                None => self.raw_dtype is None,
            },
    {
        if self.raw_dtype.is_none() {
            return Ok(None);
        }
        Ok(Some(TOKEN))
    }

    /// Hands out the text, once.
    pub fn next_value_seed(&mut self) -> (r: Result<&'de str, Error>)
        requires
            old(self).raw_dtype is Some,
        ensures
            r matches Ok(text) && text == old(self).raw_dtype->0,
            final(self).raw_dtype is None,
    {
        match self.raw_dtype.take() {
            Some(text) => Ok(text),
            None => {
                assert(false);
                Ok("")
            },
        }
    }
}

} // verus!
