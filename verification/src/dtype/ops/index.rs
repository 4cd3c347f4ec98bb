//! Indexing into a value: by position into an array, by key into an
//! object.

use vstd::prelude::*;
use crate::dtype::map::{lookup, with_entry};
use crate::dtype::{values_view, DType, Value};

verus! {

/// The element of the array `v` at the position `i`, where there is one.
pub open spec fn element_at(v: Value, i: usize) -> Option<Value> {
    match v {
        Value::Array(items) => if i < items.len() {
            Some(items[i as int])
        } else {
            None
        },
        _ => None,
    }
}

/// The array `v` with the element at the position `i` replaced by `new`;
/// `v` itself where there is no such element.
pub open spec fn with_element(v: Value, i: usize, new: Value) -> Value {
    match v {
        Value::Array(items) => if i < items.len() {
            Value::Array(items.update(i as int, new))
        } else {
            v
        },
        _ => v,
    }
}

/// The value of the object `v` under the key `k`, where there is one.
pub open spec fn member_at(v: Value, k: Seq<char>) -> Option<Value> {
    match v {
        Value::Object(entries) => lookup(entries, k),
        _ => None,
    }
}

/// The object `v` with the value under the key `k` replaced by `new`; `v`
/// itself where there is no such key.
pub open spec fn with_member(v: Value, k: Seq<char>, new: Value) -> Value {
    match v {
        Value::Object(entries) => if lookup(entries, k) is Some {
            Value::Object(with_entry(entries, k, new))
        } else {
            v
        },
        _ => v,
    }
}

/// A type that can be used to index into a [`DType`]: a position for an
/// array, a string for an object.
pub trait Index {
    /// The part of `v` that the index selects, if any.
    spec fn selected(&self, v: Value) -> Option<Value>;

    /// The value `v` with the selected part replaced by `new`.
    spec fn replaced(&self, v: Value, new: Value) -> Value;

    /// Returns the part of `v` that the index selects: `None` where the
    /// value has another type than the index asks for, where the key is
    /// not in the object, and where the position is not in the array.
    fn index_into<'v>(&self, v: &'v DType) -> (r: Option<&'v DType>)
        ensures
            match r {
                Some(part) => self.selected(v@) == Some(part@),
                None => self.selected(v@) is None,
            },
    ;

    /// Returns the part of `v` that the index selects, for changes.
    fn index_into_mut<'v>(&self, v: &'v mut DType) -> (r: Option<&'v mut DType>)
        ensures
            match r {
                Some(part) => self.selected(old(v)@) == Some(part@) && final(v)@ == self.replaced(
                    old(v)@,
                    final(part)@,
                ),
                None => self.selected(old(v)@) is None && final(v)@ == old(v)@,
            },
    ;
}

impl Index for usize {
    open spec fn selected(&self, v: Value) -> Option<Value> {
        element_at(v, *self)
    }

    open spec fn replaced(&self, v: Value, new: Value) -> Value {
        with_element(v, *self, new)
    }

    fn index_into<'v>(&self, v: &'v DType) -> (r: Option<&'v DType>) {
        match v {
            DType::Array(list) => {
                assert(values_view(list@).len() == list@.len());
                if *self < list.len() {
                    assert(values_view(list@)[*self as int] == list@[*self as int]@);
                    Some(&list[*self])
                } else {
                    None
                }
            },
            _ => None,
        }
    }

    fn index_into_mut<'v>(&self, v: &'v mut DType) -> (r: Option<&'v mut DType>) {
        match v {
            DType::Array(list) => {
                assert(values_view(list@).len() == list@.len());
                if *self < list.len() {
                    proof {
                        assert(values_view(list@)[*self as int] == list@[*self as int]@);
                        assert forall|e: DType|
                            values_view(#[trigger] list@.update(*self as int, e)) == values_view(
                                list@,
                            ).update(*self as int, e@) by {
                            assert(values_view(list@.update(*self as int, e)) =~= values_view(
                                list@,
                            ).update(*self as int, e@));
                        }
                    }
                    Some(&mut list[*self])
                } else {
                    None
                }
            },
            _ => None,
        }
    }
}

impl Index for String {
    open spec fn selected(&self, v: Value) -> Option<Value> {
        member_at(v, self@)
    }

    open spec fn replaced(&self, v: Value, new: Value) -> Value {
        with_member(v, self@, new)
    }

    fn index_into<'v>(&self, v: &'v DType) -> (r: Option<&'v DType>) {
        match v {
            DType::Object(map) => map.get(self.as_str()),
            _ => None,
        }
    }

    fn index_into_mut<'v>(&self, v: &'v mut DType) -> (r: Option<&'v mut DType>) {
        match v {
            DType::Object(map) => map.get_mut(self.as_str()),
            _ => None,
        }
    }
}

impl<'a> Index for &'a str {
    open spec fn selected(&self, v: Value) -> Option<Value> {
        member_at(v, self@)
    }

    open spec fn replaced(&self, v: Value, new: Value) -> Value {
        with_member(v, self@, new)
    }

    fn index_into<'v>(&self, v: &'v DType) -> (r: Option<&'v DType>) {
        match v {
            DType::Object(map) => map.get(*self),
            _ => None,
        }
    }

    fn index_into_mut<'v>(&self, v: &'v mut DType) -> (r: Option<&'v mut DType>) {
        match v {
            DType::Object(map) => map.get_mut(*self),
            _ => None,
        }
    }
}

impl DType {
    /// Index into an array or an object: a string selects a value in an
    /// object, a position selects an element of an array.
    pub fn get<I: Index>(&self, index: I) -> (r: Option<&DType>)
        ensures
            match r {
                Some(part) => index.selected(self@) == Some(part@),
                None => index.selected(self@) is None,
            },
    {
        index.index_into(self)
    }

    /// Index into an array or an object, for changes.
    pub fn get_mut<I: Index>(&mut self, index: I) -> (r: Option<&mut DType>)
        ensures
            match r {
                Some(part) => index.selected(old(self)@) == Some(part@) && final(self)@
                    == index.replaced(old(self)@, final(part)@),
                None => index.selected(old(self)@) is None && final(self)@ == old(self)@,
            },
    {
        index.index_into_mut(self)
    }
}

} // verus!
