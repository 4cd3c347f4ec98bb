//! A map of string keys to values, kept sorted by key.
//!
//! The entries are held in a vector in strictly ascending order of their
//! keys, so that no key occurs twice and iteration goes by key.

use vstd::prelude::*;
use super::ops::de::{shows, value_wf};
use super::ops::native::Native;
use super::ops::ser::{built, to_dtype};
use crate::error::{Error, Unexpected};
use super::{entries_view, values_view, DType, Value};
use crate::text::{compare_keys, key_lt, lemma_key_lt_transitive, Rank};

verus! {

/// The model of a map: its entries in iteration order.
pub type Entries = Seq<(Seq<char>, Value)>;

/// The keys of `s` are strictly ascending.
pub open spec fn sorted(s: Entries) -> bool {
    forall|i: int, j: int| 0 <= i < j < s.len() ==> key_lt(#[trigger] s[i].0, #[trigger] s[j].0)
}

/// Some entry of `s` has the key `k`.
pub open spec fn has_key(s: Entries, k: Seq<char>) -> bool {
    exists|i: int| 0 <= i < s.len() && #[trigger] s[i].0 == k
}

/// The number of entries of `s` whose key comes before `k`. In a sorted map
/// this is where `k` stands, or where it would be put.
pub open spec fn rank(s: Entries, k: Seq<char>) -> int
    decreases s.len(),
{
    if s.len() == 0 {
        0
    } else {
        rank(s.drop_last(), k) + if key_lt(s.last().0, k) {
            1int
        } else {
            0int
        }
    }
}

/// The value held under `k`, if any.
pub open spec fn lookup(s: Entries, k: Seq<char>) -> Option<Value> {
    if has_key(s, k) {
        Some(s[rank(s, k)].1)
    } else {
        None
    }
}

/// The map `s` after `k` is set to `v`: the entry is replaced where the key
/// is present, and put in its place by order where it is not.
pub open spec fn with_entry(s: Entries, k: Seq<char>, v: Value) -> Entries {
    if has_key(s, k) {
        s.update(rank(s, k), (k, v))
    } else {
        s.insert(rank(s, k), (k, v))
    }
}

/// The map `s` after the first `n` entries of `t` are set in it, from the
/// `n`-th back to the first.
pub open spec fn merged(s: Entries, t: Entries, n: int) -> Entries
    decreases n,
{
    if n <= 0 || n > t.len() {
        s
    } else {
        merged(with_entry(s, t[n - 1].0, t[n - 1].1), t, n - 1)
    }
}

/// The map `s` after the entry under `k`, if any, is taken out.
pub open spec fn without_key(s: Entries, k: Seq<char>) -> Entries {
    if has_key(s, k) {
        s.remove(rank(s, k))
    } else {
        s
    }
}

/// The rank of any key lies within the map.
pub proof fn lemma_rank_bounds(s: Entries, k: Seq<char>)
    ensures
        0 <= rank(s, k) <= s.len(),
    decreases s.len(),
{
    if s.len() > 0 {
        lemma_rank_bounds(s.drop_last(), k);
    }
}

/// In a map whose first `p` keys come before `k` and whose other keys do
/// not, the rank of `k` is `p`.
pub proof fn lemma_rank_is(s: Entries, k: Seq<char>, p: int)
    requires
        0 <= p <= s.len(),
        forall|i: int| 0 <= i < p ==> key_lt(#[trigger] s[i].0, k),
        forall|i: int| p <= i < s.len() ==> !key_lt(#[trigger] s[i].0, k),
    ensures
        rank(s, k) == p,
    decreases s.len(),
{
    if s.len() > 0 {
        let t = s.drop_last();
        if p == s.len() {
            assert(key_lt(s[s.len() - 1].0, k));
            lemma_rank_is(t, k, p - 1);
        } else {
            assert(!key_lt(s[s.len() - 1].0, k));
            lemma_rank_is(t, k, p);
        }
    }
}

/// In a sorted map, the entry with key `k` stands at the rank of `k`.
pub proof fn lemma_rank_of_present(s: Entries, k: Seq<char>, i: int)
    requires
        sorted(s),
        0 <= i < s.len(),
        s[i].0 == k,
    ensures
        rank(s, k) == i,
{
    assert forall|j: int| i <= j < s.len() implies !key_lt(#[trigger] s[j].0, k) by {
        if j > i {
            crate::text::lemma_lex_lt_asymmetric(
                vstd::utf8::encode_utf8(s[i].0),
                vstd::utf8::encode_utf8(s[j].0),
            );
        } else {
            crate::text::lemma_lex_lt_irreflexive(vstd::utf8::encode_utf8(k));
        }
    }
    lemma_rank_is(s, k, i);
}

/// Setting a key that is present leaves the number of entries as it is,
/// and the value that was held under the key is what a lookup gave.
pub proof fn lemma_insert_existing(s: Entries, k: Seq<char>, v: Value)
    requires
        sorted(s),
        has_key(s, k),
    ensures
        with_entry(s, k, v).len() == s.len(),
        lookup(s, k) is Some,
        sorted(with_entry(s, k, v)),
        lookup(with_entry(s, k, v), k) == Some(v),
{
    let i = choose|i: int| 0 <= i < s.len() && #[trigger] s[i].0 == k;
    lemma_rank_of_present(s, k, i);
    let t = with_entry(s, k, v);
    assert forall|a: int, b: int| 0 <= a < b < t.len() implies key_lt(
        #[trigger] t[a].0,
        #[trigger] t[b].0,
    ) by {
        assert(key_lt(s[a].0, s[b].0));
    }
    assert(t[i].0 == k);
    lemma_rank_of_present(t, k, i);
}

/// Setting a key that is absent adds one entry and keeps the order.
pub proof fn lemma_insert_absent(s: Entries, k: Seq<char>, v: Value)
    requires
        sorted(s),
        !has_key(s, k),
    ensures
        with_entry(s, k, v).len() == s.len() + 1,
        lookup(s, k) is None,
        sorted(with_entry(s, k, v)),
        lookup(with_entry(s, k, v), k) == Some(v),
{
    lemma_rank_bounds(s, k);
    let p = rank(s, k);
    lemma_rank_splits(s, k);
    let t = with_entry(s, k, v);
    assert forall|a: int, b: int| 0 <= a < b < t.len() implies key_lt(
        #[trigger] t[a].0,
        #[trigger] t[b].0,
    ) by {
        if b < p {
            assert(key_lt(s[a].0, s[b].0));
        } else if b == p {
            assert(key_lt(s[a].0, k));
        } else if a < p {
            assert(key_lt(s[a].0, s[b - 1].0));
        } else if a == p {
            assert(key_lt(k, s[b - 1].0));
        } else {
            assert(key_lt(s[a - 1].0, s[b - 1].0));
        }
    }
    assert(t[p].0 == k);
    lemma_rank_of_present(t, k, p);
}

/// In a sorted map without the key `k`, the keys before the rank of `k`
/// come before `k`, and the others come after it.
pub proof fn lemma_rank_splits(s: Entries, k: Seq<char>)
    requires
        sorted(s),
        !has_key(s, k),
    ensures
        forall|i: int| 0 <= i < rank(s, k) ==> key_lt(#[trigger] s[i].0, k),
        forall|i: int| rank(s, k) <= i < s.len() ==> key_lt(k, #[trigger] s[i].0),
    decreases s.len(),
{
    lemma_rank_bounds(s, k);
    if s.len() > 0 {
        let t = s.drop_last();
        assert(sorted(t)) by {
            assert forall|a: int, b: int| 0 <= a < b < t.len() implies key_lt(
                #[trigger] t[a].0,
                #[trigger] t[b].0,
            ) by {
                assert(key_lt(s[a].0, s[b].0));
            }
        }
        assert(!has_key(t, k)) by {
            if has_key(t, k) {
                let i = choose|i: int| 0 <= i < t.len() && #[trigger] t[i].0 == k;
                assert(s[i].0 == k);
            }
        }
        lemma_rank_splits(t, k);
        lemma_rank_bounds(t, k);
        let last = s.last().0;
        assert(s[s.len() - 1].0 == last);
        lemma_key_trichotomy(last, k);
        if key_lt(last, k) {
            assert forall|i: int| 0 <= i < t.len() implies key_lt(#[trigger] t[i].0, k) by {
                assert(key_lt(s[i].0, s[s.len() - 1].0));
                lemma_key_lt_transitive(s[i].0, last, k);
            }
            lemma_rank_is(t, k, t.len() as int);
            assert forall|i: int| 0 <= i < rank(s, k) implies key_lt(#[trigger] s[i].0, k) by {
                if i < s.len() - 1 {
                    assert(t[i] == s[i]);
                }
            }
        } else {
            assert(key_lt(k, last));
            assert forall|i: int| rank(s, k) <= i < s.len() implies key_lt(k, #[trigger] s[i].0) by {
                if i < s.len() - 1 {
                    assert(t[i] == s[i]);
                }
            }
            assert forall|i: int| 0 <= i < rank(s, k) implies key_lt(#[trigger] s[i].0, k) by {
                assert(t[i] == s[i]);
            }
        }
    }
}

/// Of two different keys, one comes before the other.
pub proof fn lemma_key_trichotomy(a: Seq<char>, b: Seq<char>)
    ensures
        a == b || key_lt(a, b) || key_lt(b, a),
{
    crate::text::lemma_lex_trichotomy(vstd::utf8::encode_utf8(a), vstd::utf8::encode_utf8(b));
    if vstd::utf8::encode_utf8(a) == vstd::utf8::encode_utf8(b) {
        crate::text::lemma_encoding_injective(a, b);
    }
}

/// Setting a key to the value it already has changes nothing.
pub proof fn lemma_with_same_value(s: Entries, k: Seq<char>)
    requires
        sorted(s),
        has_key(s, k),
    ensures
        with_entry(s, k, lookup(s, k)->0) == s,
{
    let i = choose|i: int| 0 <= i < s.len() && #[trigger] s[i].0 == k;
    lemma_rank_of_present(s, k, i);
    assert(s.update(i, (k, s[i].1)) =~= s);
}

/// Replacing one value, whatever the new value, leaves the keys in order.
proof fn lemma_values_update_sorted(keys: Seq<String>, values: Seq<DType>, i: int)
    requires
        sorted(entries_view(keys, values_view(values))),
        0 <= i < values.len(),
    ensures
        forall|e: DType| sorted(#[trigger] entries_view(keys, values_view(values.update(i, e)))),
{
    assert forall|e: DType| sorted(
        #[trigger] entries_view(keys, values_view(values.update(i, e))),
    ) by {
        let s = entries_view(keys, values_view(values));
        let t = entries_view(keys, values_view(values.update(i, e)));
        assert forall|a: int, b: int| 0 <= a < b < t.len() implies key_lt(
            #[trigger] t[a].0,
            #[trigger] t[b].0,
        ) by {
            assert(t[a].0 == s[a].0);
            assert(t[b].0 == s[b].0);
        }
    }
}

/// A key-unique map from strings to values whose entries are held, and
/// iterated, in ascending order of their keys.
#[derive(Debug, PartialEq)]
pub struct OrderedMap {
    pub(crate) keys: Vec<String>,
    pub(crate) values: Vec<DType>,
}

impl View for OrderedMap {
    type V = Entries;

    open(crate) spec fn view(&self) -> Entries {
        entries_view(self.keys@, values_view(self.values@))
    }
}

impl Clone for OrderedMap {
    /// A copy of the map and of every value in it.
    fn clone(&self) -> (r: OrderedMap)
        ensures
            r@ == self@,
        decreases self,
    {
        proof {
            use_type_invariant(self);
        }
        let keys = self.keys.clone();
        let mut values: Vec<DType> = Vec::with_capacity(self.values.len());
        let mut i: usize = 0;
        while i < self.values.len()
            invariant
                i <= self.values@.len(),
                values@.len() == i,
                forall|j: int| 0 <= j < i ==> (#[trigger] values@[j])@ == self.values@[j]@,
            decreases self.values@.len() - i,
        {
            proof {
                assert(decreases_to!(self => self.values));
                assert(decreases_to!(self.values => self.values[i as int]));
            }
            values.push(self.values[i].clone());
            i += 1;
        }
        assert(entries_view(keys@, values_view(values@)) =~= self@);
        OrderedMap { keys, values }
    }
}

impl Default for OrderedMap {
    /// The default map is empty.
    fn default() -> (r: OrderedMap)
        ensures
            r@ == Seq::<(Seq<char>, Value)>::empty(),
    {
        OrderedMap::new()
    }
}

impl OrderedMap {
    #[verifier::type_invariant]
    pub closed spec fn inv(&self) -> bool {
        self.keys@.len() == self.values@.len() && sorted(self@)
    }

    /// Makes a new empty map.
    pub fn new() -> (r: Self)
        ensures
            r@ == Seq::<(Seq<char>, Value)>::empty(),
    {
        OrderedMap { keys: Vec::new(), values: Vec::new() }
    }

    /// Makes a new empty map with room for `capacity` entries.
    pub fn with_capacity(capacity: usize) -> (r: Self)
        ensures
            r@ == Seq::<(Seq<char>, Value)>::empty(),
    {
        OrderedMap { keys: Vec::with_capacity(capacity), values: Vec::with_capacity(capacity) }
    }

    /// Returns the number of entries in the map.
    pub fn len(&self) -> (r: usize)
        ensures
            r == self@.len(),
    {
        proof {
            use_type_invariant(self);
        }
        self.keys.len()
    }

    /// Where `key` stands in the map (`Ok`), or where it would be put (`Err`).
    fn find(&self, key: &str) -> (r: Result<usize, usize>)
        ensures
            sorted(self@),
            match r {
                Ok(i) => i < self@.len() && self@[i as int].0 == key@ && has_key(self@, key@)
                    && rank(self@, key@) == i,
                Err(p) => {
                    &&& p <= self@.len()
                    &&& !has_key(self@, key@)
                    &&& rank(self@, key@) == p
                    &&& forall|i: int| 0 <= i < p ==> key_lt(#[trigger] self@[i].0, key@)
                    &&& forall|i: int| p <= i < self@.len() ==> key_lt(key@, #[trigger] self@[i].0)
                },
            },
    {
        proof {
            use_type_invariant(self);
        }
        let mut lo: usize = 0;
        let mut hi: usize = self.keys.len();
        while lo < hi
            invariant
                lo <= hi <= self@.len(),
                self@.len() == self.keys@.len(),
                self.keys@.len() == self.values@.len(),
                sorted(self@),
                forall|i: int| 0 <= i < lo ==> key_lt(#[trigger] self@[i].0, key@),
                forall|i: int| hi <= i < self@.len() ==> key_lt(key@, #[trigger] self@[i].0),
            decreases hi - lo,
        {
            let mid = lo + (hi - lo) / 2;
            match compare_keys(self.keys[mid].as_str(), key) {
                Rank::Same => {
                    proof {
                        lemma_rank_of_present(self@, key@, mid as int);
                    }
                    return Ok(mid);
                },
                Rank::Before => {
                    assert forall|i: int| 0 <= i < mid + 1 implies key_lt(
                        #[trigger] self@[i].0,
                        key@,
                    ) by {
                        if i < mid {
                            lemma_key_lt_transitive(self@[i].0, self@[mid as int].0, key@);
                        }
                    }
                    lo = mid + 1;
                },
                Rank::After => {
                    assert forall|i: int| mid <= i < self@.len() implies key_lt(
                        key@,
                        #[trigger] self@[i].0,
                    ) by {
                        if i > mid {
                            lemma_key_lt_transitive(key@, self@[mid as int].0, self@[i].0);
                        }
                    }
                    hi = mid;
                },
            }
        }
        proof {
            assert forall|i: int| lo <= i < self@.len() implies !key_lt(
                #[trigger] self@[i].0,
                key@,
            ) by {
                crate::text::lemma_lex_lt_asymmetric(
                    vstd::utf8::encode_utf8(key@),
                    vstd::utf8::encode_utf8(self@[i].0),
                );
            }
            lemma_rank_is(self@, key@, lo as int);
            if has_key(self@, key@) {
                let i = choose|i: int| 0 <= i < self@.len() && #[trigger] self@[i].0 == key@;
                crate::text::lemma_lex_lt_irreflexive(vstd::utf8::encode_utf8(key@));
            }
        }
        Err(lo)
    }

    /// Returns a reference to the value corresponding to the key.
    pub fn get(&self, key: &str) -> (r: Option<&DType>)
        ensures
            match r {
                Some(v) => lookup(self@, key@) == Some(v@),
                None => lookup(self@, key@) is None,
            },
    {
        match self.find(key) {
            Ok(i) => {
                proof {
                    use_type_invariant(self);
                }
                Some(&self.values[i])
            },
            Err(_) => None,
        }
    }

    /// Returns a mutable reference to the value corresponding to the key.
    pub fn get_mut(&mut self, key: &str) -> (r: Option<&mut DType>)
        ensures
            match r {
                Some(v) => lookup(old(self)@, key@) == Some(v@) && final(self)@ == with_entry(
                    old(self)@,
                    key@,
                    final(v)@,
                ),
                None => lookup(old(self)@, key@) is None && final(self)@ == old(self)@,
            },
            sorted(old(self)@),
    {
        match self.find(key) {
            Ok(i) => {
                proof {
                    use_type_invariant(&*self);
                    assert forall|e: DType| #[trigger]
                        entries_view(self.keys@, values_view(self.values@.update(i as int, e))) == with_entry(
                            self@,
                            key@,
                            e@,
                        ) by {
                        assert(entries_view(self.keys@, values_view(self.values@.update(i as int, e)))
                            =~= with_entry(self@, key@, e@));
                    }
                }
                Some(&mut self.values[i])
            },
            Err(_) => None,
        }
    }

    /// Inserts a key-value pair into the map.
    ///
    /// If the map did not have this key present, `None` is returned. If it
    /// did, the value is updated and the old value is returned.
    pub fn insert(&mut self, k: String, v: DType) -> (r: Option<DType>)
        ensures
            final(self)@ == with_entry(old(self)@, k@, v@),
            match r {
                Some(prev) => lookup(old(self)@, k@) == Some(prev@),
                None => lookup(old(self)@, k@) is None,
            },
    {
        match self.find(k.as_str()) {
            Ok(i) => {
                let mut prev = v;
                proof {
                    use_type_invariant(&*self);
                    lemma_values_update_sorted(self.keys@, self.values@, i as int);
                    assert(entries_view(self.keys@, values_view(self.values@.update(i as int, v))) =~= with_entry(
                        self@,
                        k@,
                        v@,
                    ));
                }
                core::mem::swap(&mut self.values[i], &mut prev);
                Some(prev)
            },
            Err(p) => {
                proof {
                    use_type_invariant(&*self);
                }
                let mut taken = OrderedMap::new();
                core::mem::swap(self, &mut taken);
                let OrderedMap { mut keys, mut values } = taken;
                keys.insert(p, k);
                values.insert(p, v);
                proof {
                    let t = entries_view(keys@, values_view(values@));
                    assert(t =~= old(self)@.insert(p as int, (k@, v@)));
                    assert forall|i: int, j: int| 0 <= i < j < t.len() implies key_lt(
                        #[trigger] t[i].0,
                        #[trigger] t[j].0,
                    ) by {
                        let s = old(self)@;
                        if j < p {
                            assert(key_lt(s[i].0, s[j].0));
                        } else if j == p {
                            assert(key_lt(s[i].0, k@));
                        } else if i < p {
                            assert(key_lt(s[i].0, s[j - 1].0));
                        } else if i == p {
                            assert(key_lt(k@, s[j - 1].0));
                        } else {
                            assert(key_lt(s[i - 1].0, s[j - 1].0));
                        }
                    }
                }
                *self = OrderedMap { keys, values };
                None
            },
        }
    }

    /// Removes a key from the map, returning the value at the key if the key
    /// was previously in the map.
    pub fn remove(&mut self, key: &str) -> (r: Option<DType>)
        ensures
            final(self)@ == without_key(old(self)@, key@),
            match r {
                Some(prev) => lookup(old(self)@, key@) == Some(prev@),
                None => lookup(old(self)@, key@) is None,
            },
    {
        match self.remove_entry(key) {
            Some(entry) => Some(entry.1),
            None => None,
        }
    }

    /// Removes a key from the map, returning the stored key and value if the
    /// key was previously in the map.
    pub fn remove_entry(&mut self, key: &str) -> (r: Option<(String, DType)>)
        ensures
            final(self)@ == without_key(old(self)@, key@),
            match r {
                Some(entry) => entry.0@ == key@ && lookup(old(self)@, key@) == Some(entry.1@),
                None => lookup(old(self)@, key@) is None,
            },
    {
        match self.find(key) {
            Ok(i) => {
                proof {
                    use_type_invariant(&*self);
                }
                let mut taken = OrderedMap::new();
                core::mem::swap(self, &mut taken);
                let OrderedMap { mut keys, mut values } = taken;
                let k = keys.remove(i);
                let v = values.remove(i);
                proof {
                    let s = old(self)@;
                    let t = entries_view(keys@, values_view(values@));
                    assert(t =~= s.remove(i as int));
                    assert forall|a: int, b: int| 0 <= a < b < t.len() implies key_lt(
                        #[trigger] t[a].0,
                        #[trigger] t[b].0,
                    ) by {
                        let a0 = if a < i { a } else { a + 1 };
                        let b0 = if b < i { b } else { b + 1 };
                        assert(key_lt(s[a0].0, s[b0].0));
                    }
                }
                *self = OrderedMap { keys, values };
                Some((k, v))
            },
            Err(_) => None,
        }
    }

    /// Moves all entries of `other` into the map, leaving `other` empty.
    /// Where both hold a key, the value of `other` stays.
    pub fn append(&mut self, other: &mut OrderedMap)
        ensures
            final(self)@ == merged(old(self)@, old(other)@, old(other)@.len() as int),
            final(other)@ == Seq::<(Seq<char>, Value)>::empty(),
    {
        proof {
            use_type_invariant(&*other);
        }
        let mut taken = OrderedMap::new();
        core::mem::swap(other, &mut taken);
        let OrderedMap { mut keys, mut values } = taken;
        let ghost all = old(other)@;
        assert(all.take(all.len() as int) =~= all);
        while keys.len() > 0
            invariant
                keys@.len() == values@.len(),
                keys@.len() <= all.len(),
                entries_view(keys@, values_view(values@)) == all.take(keys@.len() as int),
                merged(self@, all, keys@.len() as int) == merged(old(self)@, all, all.len() as int),
            decreases keys@.len(),
        {
            let ghost n = keys@.len() as int;
            let ghost before = entries_view(keys@, values_view(values@));
            let k = keys.pop();
            let v = values.pop();
            match (k, v) {
                (Some(k), Some(v)) => {
                    proof {
                        assert(before[n - 1] == (k@, v@));
                        assert(all[n - 1] == (k@, v@));
                        assert(entries_view(keys@, values_view(values@)) =~= all.take(n - 1));
                    }
                    self.insert(k, v);
                },
                _ => {
                    assert(false);
                },
            }
        }
    }

    /// Clears the map, removing all values.
    pub fn clear(&mut self)
        ensures
            final(self)@ == Seq::<(Seq<char>, Value)>::empty(),
    {
        *self = OrderedMap::new();
    }

    /// Returns true if the map contains no elements.
    pub fn is_empty(&self) -> (r: bool)
        ensures
            r == (self@.len() == 0),
    {
        self.keys.len() == 0
    }

    /// The entries of the map, in ascending order of their keys.
    pub fn iter(&self) -> (r: Vec<(&String, &DType)>)
        ensures
            r@.len() == self@.len(),
            forall|i: int|
                0 <= i < r@.len() ==> (#[trigger] r@[i]).0@ == self@[i].0 && r@[i].1@ == self@[i].1,
            sorted(self@),
    {
        proof {
            use_type_invariant(self);
        }
        let n = self.keys.len();
        let mut out: Vec<(&String, &DType)> = Vec::with_capacity(n);
        let mut i: usize = 0;
        while i < n
            invariant
                i <= n,
                n == self.keys@.len(),
                n == self.values@.len(),
                out@.len() == i,
                forall|j: int|
                    0 <= j < i ==> (#[trigger] out@[j]).0@ == self@[j].0 && out@[j].1@ == self@[j].1,
            decreases n - i,
        {
            out.push((&self.keys[i], &self.values[i]));
            i += 1;
        }
        out
    }

    /// The keys of the map, in ascending order.
    pub fn keys(&self) -> (r: &Vec<String>)
        ensures
            r@.len() == self@.len(),
            forall|i: int| 0 <= i < r@.len() ==> #[trigger] r@[i]@ == self@[i].0,
    {
        &self.keys
    }

    /// The values of the map, in ascending order of their keys.
    pub fn values(&self) -> (r: &Vec<DType>)
        ensures
            r@.len() == self@.len(),
            forall|i: int| 0 <= i < r@.len() ==> #[trigger] r@[i]@ == self@[i].1,
    {
        proof {
            use_type_invariant(self);
        }
        &self.values
    }

    /// Gets the entry of the key in the map for in-place manipulation.
    pub fn entry(&mut self, key: String) -> (r: Entry<'_>)
        ensures
            match r {
                Entry::Vacant(e) => {
                    &&& e.wf()
                    &&& e.key@ == key@
                    &&& !has_key(old(self)@, key@)
                    &&& (*e.map)@ == old(self)@
                    &&& final(self)@ == (*final(e.map))@
                },
                Entry::Occupied(e) => {
                    &&& e.wf()
                    &&& has_key(old(self)@, key@)
                    &&& e.index == rank(old(self)@, key@)
                    &&& (*e.map)@ == old(self)@
                    &&& final(self)@ == (*final(e.map))@
                },
            },
    {
        match self.find(key.as_str()) {
            Ok(index) => Entry::Occupied(OccupiedEntry { map: self, index }),
            Err(index) => Entry::Vacant(VacantEntry { map: self, key, index }),
        }
    }

    /// Returns true if the map contains a value for the key.
    pub fn contains_key(&self, key: &str) -> (r: bool)
        ensures
            r == has_key(self@, key@),
    {
        self.find(key).is_ok()
    }
}

impl OrderedMap {
    /// The map as a traversal shows it: a map whose keys are strings, with
    /// the entries in ascending order of the keys.
    pub fn serialize(&self) -> (r: Native)
        ensures
            shows(r, Value::Object(self@)),
            value_wf(Value::Object(self@)),
        decreases self,
    {
        proof {
            use_type_invariant(self);
        }
        let n = self.keys.len();
        let mut shown: Vec<(Native, Native)> = Vec::with_capacity(n);
        let mut i: usize = 0;
        while i < n
            invariant
                i <= n,
                n == self.keys@.len(),
                n == self.values@.len(),
                n == self@.len(),
                shown@.len() == i,
                forall|j: int|
                    0 <= j < i ==> {
                        &&& (#[trigger] shown@[j]).0 matches Native::Str(k)
                        &&& k@ == self@[j].0
                        &&& shows(shown@[j].1, self@[j].1)
                        &&& value_wf(self@[j].1)
                    },
            decreases n - i,
        {
            proof {
                assert(decreases_to!(self => self.values));
                assert(decreases_to!(self.values => self.values[i as int]));
                assert(self@[i as int].1 == self.values@[i as int]@);
            }
            let value = self.values[i].serialize();
            shown.push((Native::Str(self.keys[i].clone()), value));
            i += 1;
        }
        assert forall|j: int| 0 <= j < self@.len() implies value_wf((#[trigger] self@[j]).1) by {
            assert(shows(shown@[j].1, self@[j].1));
        }
        Native::Mapping(shown)
    }
}

/// Why a native value cannot be read as a map.
pub enum MapFault {
    /// The value is no map.
    NoMap,
    /// Some key is no string.
    KeyNoString,
    /// Some value cannot be built.
    BadValue,
}

/// The map that the first `n` of `entries` read as: each key must be a
/// string and each value must build; the entries are set in turn, and the
/// first entry that fails decides the fault.
pub open spec fn read_entries(entries: Seq<(Native, Native)>, n: int) -> Result<Entries, MapFault>
    decreases n,
{
    if n <= 0 || n > entries.len() {
        Ok(Seq::empty())
    } else {
        match read_entries(entries, n - 1) {
            Err(fault) => Err(fault),
            Ok(m) => match entries[n - 1].0 {
                Native::Str(k) => match built(entries[n - 1].1) {
                    Some(v) => Ok(with_entry(m, k@, v)),
                    None => Err(MapFault::BadValue),
                },
                _ => Err(MapFault::KeyNoString),
            },
        }
    }
}

/// The map that a native value reads as: the empty map for the unit, and
/// the entries of a map with string keys.
pub open spec fn read_map(n: Native) -> Result<Entries, MapFault> {
    match n {
        Native::Unit => Ok(Seq::empty()),
        Native::Mapping(entries) => read_entries(entries@, entries@.len() as int),
        _ => Err(MapFault::NoMap),
    }
}

/// Once some entry cannot be read, no longer prefix can be read, and the
/// fault stays.
pub proof fn lemma_read_entries_fails(entries: Seq<(Native, Native)>, n: int, m: int)
    requires
        0 <= n <= m <= entries.len(),
        read_entries(entries, n) is Err,
    ensures
        read_entries(entries, m) == read_entries(entries, n),
    decreases m - n,
{
    if n < m {
        lemma_read_entries_fails(entries, n, m - 1);
    }
}

impl OrderedMap {
    /// Reads a map from a native value: the unit gives the empty map, and
    /// a map gives its entries, whose keys must be strings. Of two entries
    /// with the same key the later one stays.
    ///
    /// Anything else is refused as a mismatch with `a map`, a key that is
    /// no string as a mismatch with `a string`, and a value that cannot be
    /// built with the error of a key that cannot be a string.
    pub fn deserialize(value: &Native) -> (r: Result<OrderedMap, Error>)
        ensures
            match r {
                Ok(m) => read_map(*value) == Ok::<Entries, MapFault>(m@),
                Err(e) => match read_map(*value) {
                    Ok(_) => false,
                    Err(MapFault::NoMap) => e.is_invalid_type("a map"@),
                    Err(MapFault::KeyNoString) => e.is_invalid_type("a string"@),
                    Err(MapFault::BadValue) => e.is_key_must_be_a_string(),
                },
            },
    {
        match value {
            Native::Unit => Ok(OrderedMap::new()),
            Native::Mapping(entries) => {
                let mut values = OrderedMap::new();
                let mut i: usize = 0;
                while i < entries.len()
                    invariant
                        i <= entries@.len(),
                        *value == Native::Mapping(*entries),
                        read_entries(entries@, i as int) == Ok::<Entries, MapFault>(values@),
                    decreases entries@.len() - i,
                {
                    let key = match &entries[i].0 {
                        Native::Str(k) => k.clone(),
                        other => {
                            proof {
                                assert(read_entries(entries@, i + 1) == Err::<Entries, MapFault>(
                                    MapFault::KeyNoString,
                                ));
                                lemma_read_entries_fails(entries@, i + 1, entries@.len() as int);
                            }
                            return Err(Error::invalid_type(other.unexpected(), "a string"));
                        },
                    };
                    let v = match to_dtype(&entries[i].1) {
                        Ok(v) => v,
                        Err(e) => {
                            proof {
                                assert(read_entries(entries@, i + 1) == Err::<Entries, MapFault>(
                                    MapFault::BadValue,
                                ));
                                lemma_read_entries_fails(entries@, i + 1, entries@.len() as int);
                            }
                            return Err(e);
                        },
                    };
                    values.insert(key, v);
                    i += 1;
                }
                Ok(values)
            },
            other => Err(Error::invalid_type(other.unexpected(), "a map")),
        }
    }
}

/// A view into a single entry in a map, which may either be vacant or
/// occupied. It is made by [`OrderedMap::entry`].
pub enum Entry<'a> {
    /// A vacant entry.
    Vacant(VacantEntry<'a>),
    /// An occupied entry.
    Occupied(OccupiedEntry<'a>),
}

/// A vacant entry: a key that the map does not hold, and the place where
/// it would be put.
pub struct VacantEntry<'a> {
    /// The map that the entry looks into.
    pub map: &'a mut OrderedMap,
    /// The key of the entry.
    pub key: String,
    /// The place where the key would be put.
    pub index: usize,
}

/// An occupied entry: the place of a key that the map holds.
pub struct OccupiedEntry<'a> {
    /// The map that the entry looks into.
    pub map: &'a mut OrderedMap,
    /// The place of the key in the map.
    pub index: usize,
}

impl<'a> Entry<'a> {
    /// The entry is what [`OrderedMap::entry`] hands out.
    pub open spec fn wf(&self) -> bool {
        match self {
            Entry::Vacant(e) => e.wf(),
            Entry::Occupied(e) => e.wf(),
        }
    }

    /// Returns a reference to the key of the entry.
    pub fn key(&self) -> (r: &String)
        requires
            self.wf(),
        ensures
            r@ == match self {
                Entry::Vacant(e) => e.key@,
                Entry::Occupied(e) => (*e.map)@[e.index as int].0,
            },
    {
        match self {
            Entry::Vacant(e) => e.key(),
            Entry::Occupied(e) => e.key(),
        }
    }

    /// Ensures a value is in the entry by inserting the default if empty,
    /// and returns a mutable reference to the value in the entry.
    pub fn or_insert(self, default: DType) -> (r: &'a mut DType)
        requires
            self.wf(),
        ensures
            match self {
                Entry::Vacant(e) => r@ == default@ && (*final(e.map))@ == with_entry(
                    (*e.map)@,
                    e.key@,
                    final(r)@,
                ),
                Entry::Occupied(e) => r@ == (*e.map)@[e.index as int].1 && (*final(e.map))@ == (
                *e.map)@.update(e.index as int, ((*e.map)@[e.index as int].0, final(r)@)),
            },
    {
        match self {
            Entry::Vacant(entry) => entry.insert(default),
            Entry::Occupied(entry) => entry.into_mut(),
        }
    }
}

impl<'a> Entry<'a> {
    /// Ensures a value is in the entry by inserting what `default` returns
    /// if empty, and returns a mutable reference to the value in the
    /// entry. The function is called only for a vacant entry.
    pub fn or_insert_with<F: FnOnce() -> DType>(self, default: F) -> (r: &'a mut DType)
        requires
            self.wf(),
            call_requires(default, ()),
        ensures
            match self {
                Entry::Vacant(e) => {
                    &&& exists|d: DType| #[trigger] call_ensures(default, (), d) && r@ == d@
                    &&& (*final(e.map))@ == with_entry((*e.map)@, e.key@, final(r)@)
                },
                Entry::Occupied(e) => r@ == (*e.map)@[e.index as int].1 && (*final(e.map))@ == (
                *e.map)@.update(e.index as int, ((*e.map)@[e.index as int].0, final(r)@)),
            },
    {
        match self {
            Entry::Vacant(entry) => entry.insert(default()),
            Entry::Occupied(entry) => entry.into_mut(),
        }
    }

    /// Provides in-place mutable access to an occupied entry before any
    /// potential inserts into the map. A vacant entry is handed back as it
    /// is.
    pub fn and_modify<F: FnOnce(&mut DType)>(self, f: F) -> (r: Entry<'a>)
        requires
            self.wf(),
            self matches Entry::Occupied(e) ==> forall|v: &mut DType| call_requires(f, (v,)),
        ensures
            r.wf(),
            self is Vacant ==> r == self,
            self matches Entry::Occupied(e) ==> {
                &&& r matches Entry::Occupied(after)
                &&& after.index == e.index
                &&& (*after.map)@ == (*e.map)@.update(
                    e.index as int,
                    ((*e.map)@[e.index as int].0, (*after.map)@[e.index as int].1),
                )
                &&& (*final(e.map))@ == (*final(after.map))@
                &&& exists|v: &mut DType|
                    {
                        &&& (*v)@ == (*e.map)@[e.index as int].1
                        &&& (*final(v))@ == (*after.map)@[e.index as int].1
                        &&& #[trigger] call_ensures(f, (v,), ())
                    }
            },
    {
        match self {
            Entry::Occupied(mut entry) => {
                proof {
                    use_type_invariant(&*entry.map);
                    lemma_values_update_sorted(
                        entry.map.keys@,
                        entry.map.values@,
                        entry.index as int,
                    );
                    assert forall|e: DType| #[trigger]
                        entries_view(
                            entry.map.keys@,
                            values_view(entry.map.values@.update(entry.index as int, e)),
                        ) == entry.map@.update(
                            entry.index as int,
                            (entry.map@[entry.index as int].0, e@),
                        ) by {
                        assert(entries_view(
                            entry.map.keys@,
                            values_view(entry.map.values@.update(entry.index as int, e)),
                        ) =~= entry.map@.update(
                            entry.index as int,
                            (entry.map@[entry.index as int].0, e@),
                        ));
                    }
                }
                f(&mut entry.map.values[entry.index]);
                Entry::Occupied(entry)
            },
            Entry::Vacant(entry) => Entry::Vacant(entry),
        }
    }
}

impl<'a> VacantEntry<'a> {
    /// The entry is of a key that its map does not hold, at the place
    /// where the key would be put.
    pub open spec fn wf(&self) -> bool {
        &&& sorted((*self.map)@)
        &&& !has_key((*self.map)@, self.key@)
        &&& self.index == rank((*self.map)@, self.key@)
    }

    /// Gets a reference to the key that would be used when inserting a
    /// value through the entry.
    pub fn key(&self) -> (r: &String)
        ensures
            r@ == self.key@,
    {
        &self.key
    }

    /// Sets the value of the entry with the key of the entry, and returns
    /// a mutable reference to it.
    pub fn insert(self, value: DType) -> (r: &'a mut DType)
        requires
            self.wf(),
        ensures
            r@ == value@,
            (*final(self.map))@ == with_entry((*old(self.map))@, self.key@, final(r)@),
    {
        let VacantEntry { map, key, index } = self;
        proof {
            use_type_invariant(&*map);
            lemma_rank_splits(map@, key@);
            lemma_rank_bounds(map@, key@);
        }
        let ghost before = map@;
        let mut taken = OrderedMap::new();
        core::mem::swap(map, &mut taken);
        let OrderedMap { mut keys, mut values } = taken;
        keys.insert(index, key);
        values.insert(index, value);
        proof {
            let t = entries_view(keys@, values_view(values@));
            assert(t =~= before.insert(index as int, (key@, value@)));
            assert forall|i: int, j: int| 0 <= i < j < t.len() implies key_lt(
                #[trigger] t[i].0,
                #[trigger] t[j].0,
            ) by {
                if j < index {
                    assert(key_lt(before[i].0, before[j].0));
                } else if j == index {
                    assert(key_lt(before[i].0, key@));
                } else if i < index {
                    assert(key_lt(before[i].0, before[j - 1].0));
                } else if i == index {
                    assert(key_lt(key@, before[j - 1].0));
                } else {
                    assert(key_lt(before[i - 1].0, before[j - 1].0));
                }
            }
            assert forall|e: DType| #[trigger]
                entries_view(keys@, values_view(values@.update(index as int, e))) == with_entry(
                    before,
                    key@,
                    e@,
                ) by {
                assert(entries_view(keys@, values_view(values@.update(index as int, e)))
                    =~= with_entry(before, key@, e@));
            }
        }
        *map = OrderedMap { keys, values };
        &mut map.values[index]
    }
}

impl<'a> OccupiedEntry<'a> {
    /// The entry is of a key that its map holds.
    pub open spec fn wf(&self) -> bool {
        self.index < (*self.map)@.len()
    }

    /// Gets a reference to the key in the entry.
    pub fn key(&self) -> (r: &String)
        requires
            self.wf(),
        ensures
            r@ == (*old(self.map))@[self.index as int].0,
    {
        proof {
            use_type_invariant(&*self.map);
        }
        &self.map.keys[self.index]
    }

    /// Gets a reference to the value in the entry.
    pub fn get(&self) -> (r: &DType)
        requires
            self.wf(),
        ensures
            r@ == (*old(self.map))@[self.index as int].1,
    {
        proof {
            use_type_invariant(&*self.map);
        }
        &self.map.values[self.index]
    }

    /// Converts the entry into a mutable reference to its value.
    pub fn into_mut(self) -> (r: &'a mut DType)
        requires
            self.wf(),
        ensures
            r@ == (*old(self.map))@[self.index as int].1,
            (*final(self.map))@ == (*old(self.map))@.update(
                self.index as int,
                ((*old(self.map))@[self.index as int].0, final(r)@),
            ),
    {
        let OccupiedEntry { map, index } = self;
        proof {
            use_type_invariant(&*map);
            assert forall|e: DType| #[trigger]
                entries_view(map.keys@, values_view(map.values@.update(index as int, e)))
                    == map@.update(index as int, (map@[index as int].0, e@)) by {
                assert(entries_view(map.keys@, values_view(map.values@.update(index as int, e)))
                    =~= map@.update(index as int, (map@[index as int].0, e@)));
            }
        }
        &mut map.values[index]
    }

    /// Sets the value of the entry, and returns the entry's old value.
    pub fn insert(&mut self, value: DType) -> (r: DType)
        requires
            old(self).wf(),
        ensures
            final(self).wf(),
            final(self).index == old(self).index,
            r@ == (*old(self).map)@[old(self).index as int].1,
            (*final(self).map)@ == (*old(self).map)@.update(
                old(self).index as int,
                ((*old(self).map)@[old(self).index as int].0, value@),
            ),
    {
        let mut prev = value;
        proof {
            use_type_invariant(&*self.map);
            lemma_values_update_sorted(self.map.keys@, self.map.values@, self.index as int);
            assert(entries_view(
                self.map.keys@,
                values_view(self.map.values@.update(self.index as int, value)),
            ) =~= self.map@.update(self.index as int, (self.map@[self.index as int].0, value@)));
        }
        core::mem::swap(&mut self.map.values[self.index], &mut prev);
        prev
    }

    /// Takes the value of the entry out of the map, and returns it.
    pub fn remove(self) -> (r: DType)
        requires
            self.wf(),
        ensures
            r@ == (*old(self.map))@[self.index as int].1,
            (*final(self.map))@ == (*old(self.map))@.remove(self.index as int),
    {
        let OccupiedEntry { map, index } = self;
        proof {
            use_type_invariant(&*map);
        }
        let ghost before = map@;
        let mut taken = OrderedMap::new();
        core::mem::swap(map, &mut taken);
        let OrderedMap { mut keys, mut values } = taken;
        let _ = keys.remove(index);
        let v = values.remove(index);
        proof {
            let t = entries_view(keys@, values_view(values@));
            assert(t =~= before.remove(index as int));
            assert forall|a: int, b: int| 0 <= a < b < t.len() implies key_lt(
                #[trigger] t[a].0,
                #[trigger] t[b].0,
            ) by {
                let a0 = if a < index { a } else { a + 1 };
                let b0 = if b < index { b } else { b + 1 };
                assert(key_lt(before[a0].0, before[b0].0));
            }
        }
        *map = OrderedMap { keys, values };
        v
    }
}

} // verus!
