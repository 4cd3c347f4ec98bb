//! The self-describing data value model: a tree of nulls, booleans,
//! numbers, strings, arrays and objects.

use vstd::prelude::*;

pub mod datetime;
pub mod float;
pub mod from;
pub mod map;
pub mod number;
pub mod ops;
pub mod partial_eq;
pub mod pointer;

pub use datetime::DateTime;
pub use map::OrderedMap;
pub use number::Number;
use number::NumImpl;
use pointer::{pointer_replaced, pointer_target, replaced, resolve, step, tokens_view};
use crate::text::{chars_of, string_of};

verus! {

/// An international resource identifier, such as `<name>`.
pub type IRI = String;

/// Any URL-like [`IRI`].
pub type URI = String;

/// The mathematical tree behind a [`DType`].
pub enum Value {
    /// A sequence of values, in order.
    Array(Seq<Value>),
    /// True or false.
    Boolean(bool),
    /// A point in time, as its text.
    DateTime(Seq<char>),
    /// Nothing.
    Null,
    /// A number.
    Number(NumImpl),
    /// Keys and their values, in ascending order of the keys.
    Object(Seq<(Seq<char>, Value)>),
    /// A text.
    String(Seq<char>),
}

/// `DType` represents the various types which data in the knowledge graph
/// can be represented as.
#[derive(Debug, PartialEq)]
pub enum DType {
    /// Represents a collection of values.
    Array(Vec<DType>),
    /// Represents a boolean (true or false) value.
    Boolean(bool),
    /// Represents date, time or datetime.
    DateTime(DateTime),
    /// Represents a null value.
    Null,
    /// Represents a numeric value, either integer or floating point.
    Number(Number),
    /// Represents an object with keys and values, ordered by key.
    Object(OrderedMap),
    /// Represents a string or string-like value.
    String(String),
}

impl Eq for DType {
}

impl Clone for DType {
    /// A copy of the whole tree.
    fn clone(&self) -> (r: DType)
        ensures
            r@ == self@,
        decreases self,
    {
        match self {
            DType::Array(v) => {
                let mut out: Vec<DType> = Vec::with_capacity(v.len());
                let mut i: usize = 0;
                while i < v.len()
                    invariant
                        i <= v@.len(),
                        *self == DType::Array(*v),
                        out@.len() == i,
                        forall|j: int| 0 <= j < i ==> (#[trigger] out@[j])@ == v@[j]@,
                    decreases v@.len() - i,
                {
                    proof {
                        assert(decreases_to!(self => self->Array_0));
                        assert(decreases_to!(v => v[i as int]));
                    }
                    out.push(v[i].clone());
                    i += 1;
                }
                assert(values_view(out@) =~= values_view(v@));
                DType::Array(out)
            },
            DType::Boolean(b) => DType::Boolean(*b),
            DType::DateTime(d) => DType::DateTime(d.clone()),
            DType::Null => DType::Null,
            DType::Number(n) => DType::Number(*n),
            DType::Object(m) => {
                proof {
                    assert(decreases_to!(self => self->Object_0));
                }
                DType::Object(m.clone())
            },
            DType::String(s) => DType::String(s.clone()),
        }
    }
}

/// The same tree under its usual misspelling.
pub type Dtype = DType;

/// The model of a sequence of values, element by element.
pub open spec fn values_view(s: Seq<DType>) -> Seq<Value>
    decreases s,
{
    Seq::new(s.len(), |i: int| if 0 <= i < s.len() { s[i].view() } else { Value::Null })
}

/// The model of the entries of a map, whose keys and values are held side
/// by side.
pub open spec fn entries_view(keys: Seq<String>, values: Seq<Value>) -> Seq<(Seq<char>, Value)> {
    Seq::new(keys.len(), |i: int| (keys[i]@, values[i]))
}

impl View for DType {
    type V = Value;

    open(crate) spec fn view(&self) -> Value
        decreases self,
    {
        match self {
            DType::Array(v) => Value::Array(values_view(v@)),
            DType::Boolean(b) => Value::Boolean(*b),
            DType::DateTime(d) => Value::DateTime(d@),
            DType::Null => Value::Null,
            DType::Number(n) => Value::Number(n@),
            DType::Object(m) => Value::Object(entries_view(m.keys@, values_view(m.values@))),
            DType::String(s) => Value::String(s@),
        }
    }
}

impl DType {
    /// Returns true if the value is an object.
    pub fn is_object(&self) -> (r: bool)
        ensures
            r == (self@ is Object),
    {
        self.as_object().is_some()
    }

    /// If the value is an object, returns the associated map.
    pub fn as_object(&self) -> (r: Option<&OrderedMap>)
        ensures
            match r {
                Some(m) => self@ == Value::Object(m@),
                None => !(self@ is Object),
            },
    {
        match self {
            DType::Object(m) => Some(m),
            _ => None,
        }
    }

    /// If the value is an object, returns the associated map for changes.
    pub fn as_object_mut(&mut self) -> (r: Option<&mut OrderedMap>)
        ensures
            match r {
                Some(m) => old(self)@ == Value::Object(m@) && final(self)@ == Value::Object(
                    final(m)@,
                ),
                None => !(old(self)@ is Object) && final(self)@ == old(self)@,
            },
    {
        match self {
            DType::Object(m) => Some(m),
            _ => None,
        }
    }

    /// Returns true if the value is an array.
    pub fn is_array(&self) -> (r: bool)
        ensures
            r == (self@ is Array),
    {
        self.as_array().is_some()
    }

    /// If the value is an array, returns the associated vector.
    pub fn as_array(&self) -> (r: Option<&Vec<DType>>)
        ensures
            match r {
                Some(v) => self@ == Value::Array(values_view(v@)),
                None => !(self@ is Array),
            },
    {
        match self {
            DType::Array(a) => Some(a),
            _ => None,
        }
    }

    /// If the value is an array, returns the associated vector for changes.
    pub fn as_array_mut(&mut self) -> (r: Option<&mut Vec<DType>>)
        ensures
            match r {
                Some(v) => old(self)@ == Value::Array(values_view(v@)) && final(self)@
                    == Value::Array(values_view(final(v)@)),
                None => !(old(self)@ is Array) && final(self)@ == old(self)@,
            },
    {
        match self {
            DType::Array(v) => Some(v),
            _ => None,
        }
    }

    /// Returns true if the value is a string.
    pub fn is_string(&self) -> (r: bool)
        ensures
            r == (self@ is String),
    {
        self.as_str().is_some()
    }

    /// If the value is a string, returns the associated text.
    pub fn as_str(&self) -> (r: Option<&str>)
        ensures
            match r {
                Some(s) => self@ == Value::String(s@),
                None => !(self@ is String),
            },
    {
        match self {
            DType::String(s) => Some(s.as_str()),
            _ => None,
        }
    }

    /// Returns true if the value is a number.
    pub fn is_number(&self) -> (r: bool)
        ensures
            r == (self@ is Number),
    {
        matches!(*self, DType::Number(_))
    }

    /// Returns true if the value is a number held as a negative integer.
    pub fn is_i64(&self) -> (r: bool)
        ensures
            r == (self@ matches Value::Number(n) && n is NegativeInt),
    {
        match self {
            DType::Number(n) => n.is_i64(),
            _ => false,
        }
    }

    /// Returns true if the value is a number held as an unsigned integer.
    pub fn is_u64(&self) -> (r: bool)
        ensures
            r == (self@ matches Value::Number(n) && n is PositiveInt),
    {
        match self {
            DType::Number(n) => n.is_u64(),
            _ => false,
        }
    }

    /// Returns true if the value is a number held as a float.
    pub fn is_f64(&self) -> (r: bool)
        ensures
            r == (self@ matches Value::Number(n) && n is Float),
    {
        match self {
            DType::Number(n) => n.is_f64(),
            _ => false,
        }
    }

    /// If the value is an integer in the range of `i64`, returns it.
    pub fn as_i64(&self) -> (r: Option<i64>)
        ensures
            r == match self@ {
                Value::Number(NumImpl::PositiveInt(n)) => if n <= i64::MAX {
                    Some(n as i64)
                } else {
                    None
                },
                Value::Number(NumImpl::NegativeInt(n)) => Some(n),
                _ => None,
            },
    {
        match self {
            DType::Number(n) => n.as_i64(),
            _ => None,
        }
    }

    /// If the value is a non-negative integer, returns it.
    pub fn as_u64(&self) -> (r: Option<u64>)
        ensures
            r == match self@ {
                Value::Number(NumImpl::PositiveInt(n)) => Some(n),
                _ => None,
            },
    {
        match self {
            DType::Number(n) => n.as_u64(),
            _ => None,
        }
    }

    /// If the value is a number with a float of exactly its value, returns
    /// that float as its binary64 bit pattern.
    pub fn as_f64(&self) -> (r: Option<u64>)
        ensures
            match self@ {
                Value::Number(n) => number::float_pattern(n, r),
                _ => r is None,
            },
    {
        match self {
            DType::Number(n) => n.as_f64(),
            _ => None,
        }
    }

    /// Returns true if the value is a boolean.
    pub fn is_bool(&self) -> (r: bool)
        ensures
            r == (self@ is Boolean),
    {
        self.as_bool().is_some()
    }

    /// If the value is a boolean, returns it.
    pub fn as_bool(&self) -> (r: Option<bool>)
        ensures
            r == match self@ {
                Value::Boolean(b) => Some(b),
                _ => None,
            },
    {
        match *self {
            DType::Boolean(b) => Some(b),
            _ => None,
        }
    }

    /// Returns true if the value is null.
    pub fn is_null(&self) -> (r: bool)
        ensures
            r == (self@ is Null),
    {
        self.as_null().is_some()
    }

    /// If the value is null, returns `()`.
    pub fn as_null(&self) -> (r: Option<()>)
        ensures
            r is Some <==> self@ is Null,
    {
        match *self {
            DType::Null => Some(()),
            _ => None,
        }
    }

    /// One step into the value: by key into an object, by index into an
    /// array.
    fn child(&self, token: &Vec<char>) -> (r: Option<&DType>)
        ensures
            match r {
                Some(c) => step(self@, token@) == Some(c@),
                None => step(self@, token@) is None,
            },
    {
        match self {
            DType::Object(map) => {
                let key = string_of(token.as_slice());
                map.get(key.as_str())
            },
            DType::Array(list) => match pointer::parse_index(token.as_slice()) {
                Some(i) => if i < list.len() {
                    assert(values_view(list@)[i as int] == list@[i as int]@);
                    Some(&list[i])
                } else {
                    assert(values_view(list@).len() == list@.len());
                    None
                },
                None => None,
            },
            _ => None,
        }
    }

    /// Looks up a value by a path: segments separated by `/`, in which `~1`
    /// stands for `/` and `~0` for `~`. The empty path addresses the value
    /// itself; where the path leads nowhere, `None` is returned.
    pub fn pointer(&self, pointer: &str) -> (r: Option<&DType>)
        ensures
            match r {
                Some(target) => pointer_target(self@, pointer@) == Some(target@),
                None => pointer_target(self@, pointer@) is None,
            },
    {
        let path = chars_of(pointer);
        if path.len() == 0 {
            return Some(self);
        }
        if path[0] != '/' {
            return None;
        }
        let tokens = pointer::tokens(path.as_slice());
        let mut target: &DType = self;
        let mut i: usize = 0;
        assert(tokens_view(tokens@).skip(0) =~= tokens_view(tokens@));
        while i < tokens.len()
            invariant
                i <= tokens@.len(),
                pointer@.len() > 0,
                pointer@[0] == '/',
                tokens_view(tokens@) == pointer::tokens_of(pointer@),
                resolve(target@, tokens_view(tokens@).skip(i as int)) == resolve(
                    self@,
                    tokens_view(tokens@),
                ),
            decreases tokens@.len() - i,
        {
            let ghost rest = tokens_view(tokens@).skip(i as int);
            assert(rest[0] == tokens@[i as int]@);
            assert(rest.skip(1) =~= tokens_view(tokens@).skip(i + 1));
            target = match target.child(&tokens[i]) {
                Some(c) => c,
                None => {
                    assert(resolve(self@, tokens_view(tokens@)) is None);
                    assert(pointer@.len() > 0 && pointer@[0] == '/');
                    return None;
                },
            };
            i += 1;
        }
        Some(target)
    }

    /// Follows the segments of `tokens` from the `i`-th on, for changes.
    fn descend_mut<'a>(&'a mut self, tokens: &Vec<Vec<char>>, i: usize) -> (r: Option<&'a mut DType>)
        requires
            i <= tokens@.len(),
        ensures
            match r {
                Some(t) => {
                    &&& resolve(old(self)@, tokens_view(tokens@).skip(i as int)) == Some(t@)
                    &&& final(self)@ == replaced(
                        old(self)@,
                        tokens_view(tokens@).skip(i as int),
                        final(t)@,
                    )
                },
                None => {
                    &&& resolve(old(self)@, tokens_view(tokens@).skip(i as int)) is None
                    &&& final(self)@ == old(self)@
                },
            },
        decreases tokens@.len() - i,
    {
        if i == tokens.len() {
            return Some(self);
        }
        let ghost rest = tokens_view(tokens@).skip(i as int);
        proof {
            assert(rest[0] == tokens@[i as int]@);
            assert(rest.skip(1) =~= tokens_view(tokens@).skip(i + 1));
        }
        match self {
            DType::Object(map) => {
                let key = string_of(tokens[i].as_slice());
                let ghost entries = map@;
                match map.get_mut(key.as_str()) {
                    Some(c) => {
                        proof {
                            map::lemma_with_same_value(entries, key@);
                        }
                        c.descend_mut(tokens, i + 1)
                    },
                    None => None,
                }
            },
            DType::Array(list) => match pointer::parse_index(tokens[i].as_slice()) {
                Some(ix) => if ix < list.len() {
                    proof {
                        assert(values_view(list@).len() == list@.len());
                        assert(values_view(list@)[ix as int] == list@[ix as int]@);
                        assert forall|e: DType|
                            values_view(#[trigger] list@.update(ix as int, e)) == values_view(
                                list@,
                            ).update(ix as int, e@) by {
                            assert(values_view(list@.update(ix as int, e)) =~= values_view(
                                list@,
                            ).update(ix as int, e@));
                        }
                        assert(values_view(list@).update(ix as int, list@[ix as int]@)
                            =~= values_view(list@));
                    }
                    (&mut list[ix]).descend_mut(tokens, i + 1)
                } else {
                    assert(values_view(list@).len() == list@.len());
                    None
                },
                None => None,
            },
            _ => None,
        }
    }

    /// Looks up a value by a path, as [`DType::pointer`] does, and returns
    /// it for changes.
    pub fn pointer_mut(&mut self, pointer: &str) -> (r: Option<&mut DType>)
        ensures
            match r {
                Some(target) => {
                    &&& pointer_target(old(self)@, pointer@) == Some(target@)
                    &&& final(self)@ == pointer_replaced(old(self)@, pointer@, final(target)@)
                },
                None => {
                    &&& pointer_target(old(self)@, pointer@) is None
                    &&& final(self)@ == old(self)@
                },
            },
    {
        let path = chars_of(pointer);
        if path.len() == 0 {
            return Some(self);
        }
        if path[0] != '/' {
            return None;
        }
        let tokens = pointer::tokens(path.as_slice());
        assert(tokens_view(tokens@).skip(0) =~= tokens_view(tokens@));
        self.descend_mut(&tokens, 0)
    }

    /// Takes the value, leaving a null in its place.
    pub fn take(&mut self) -> (r: DType)
        ensures
            r@ == old(self)@,
            final(self)@ == Value::Null,
    {
        let mut out = DType::Null;
        core::mem::swap(self, &mut out);
        out
    }
}

impl Default for DType {
    /// The default value is null.
    fn default() -> (r: DType)
        ensures
            r@ == Value::Null,
    {
        DType::Null
    }
}

} // verus!
