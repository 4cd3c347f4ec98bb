//! A table of pairs of strings, a key and its value, in which no key occurs
//! twice. The pairs stand in the order in which their keys were first set.

use vstd::prelude::*;
use crate::text::same_text;

verus! {

/// The model of a table: its pairs of key and value, in order.
pub type Pairs = Seq<(Seq<char>, Seq<char>)>;

/// No key occurs twice in `s`.
pub open spec fn distinct_keys(s: Pairs) -> bool {
    forall|i: int, j: int| 0 <= i < j < s.len() ==> #[trigger] s[i].0 != #[trigger] s[j].0
}

/// Where the first pair with the key `p` stands, or the length of `s`
/// where there is none.
pub open spec fn key_index(s: Pairs, p: Seq<char>) -> int
    decreases s.len(),
{
    if s.len() == 0 {
        0
    } else if s[0].0 == p {
        0
    } else {
        1 + key_index(s.skip(1), p)
    }
}

/// Where the first pair with the value `f` stands, or the length of `s`
/// where there is none.
pub open spec fn value_index(s: Pairs, f: Seq<char>) -> int
    decreases s.len(),
{
    if s.len() == 0 {
        0
    } else if s[0].1 == f {
        0
    } else {
        1 + value_index(s.skip(1), f)
    }
}

/// The table `s` after the key `p` is set to the value `f`: a known key
/// keeps its place and gets the new value, a new one is added at the end.
pub open spec fn with_pair(s: Pairs, p: Seq<char>, f: Seq<char>) -> Pairs {
    if key_index(s, p) < s.len() {
        s.update(key_index(s, p), (p, f))
    } else {
        s.push((p, f))
    }
}

/// The table `s` after the pairs `more` are set in turn.
pub open spec fn with_pairs(s: Pairs, more: Pairs) -> Pairs
    decreases more.len(),
{
    if more.len() == 0 {
        s
    } else {
        with_pair(with_pairs(s, more.drop_last()), more.last().0, more.last().1)
    }
}

/// The value under the key `iri`, and `iri` itself where it is no known
/// key.
pub open spec fn value_or_key(s: Pairs, iri: Seq<char>) -> Seq<char> {
    if key_index(s, iri) < s.len() {
        s[key_index(s, iri)].1
    } else {
        iri
    }
}

/// The earliest key whose value is `iri`, and `iri` itself where no key
/// has that value.
pub open spec fn key_or_value(s: Pairs, iri: Seq<char>) -> Seq<char> {
    if value_index(s, iri) < s.len() {
        s[value_index(s, iri)].0
    } else {
        iri
    }
}

/// The table `s` holds the pair `pair`: its key is set to its value.
pub open spec fn held_by(s: Pairs, pair: (Seq<char>, Seq<char>)) -> bool {
    key_index(s, pair.0) < s.len() && s[key_index(s, pair.0)].1 == pair.1
}

/// Two tables hold the same pairs, in whatever order: they hold equally
/// many, and the second holds every pair of the first.
pub open spec fn same_pairs(a: Pairs, b: Pairs) -> bool {
    a.len() == b.len() && forall|i: int| 0 <= i < a.len() ==> held_by(b, #[trigger] a[i])
}

/// A table in which no key occurs twice holds the same pairs as itself.
pub proof fn lemma_same_pairs_reflexive(s: Pairs)
    requires
        distinct_keys(s),
    ensures
        same_pairs(s, s),
{
    assert forall|i: int| 0 <= i < s.len() implies held_by(s, #[trigger] s[i]) by {
        assert forall|j: int| 0 <= j < i implies (#[trigger] s[j]).0 != s[i].0 by {
            assert(s[j].0 != s[i].0);
        }
        lemma_key_index_is(s, s[i].0, i);
    }
}

/// If no pair before `i` has the key `p`, and either `i` is the end or the
/// pair at `i` has it, then `i` is the index of `p`.
pub proof fn lemma_key_index_is(s: Pairs, p: Seq<char>, i: int)
    requires
        0 <= i <= s.len(),
        forall|j: int| 0 <= j < i ==> (#[trigger] s[j]).0 != p,
        i < s.len() ==> s[i].0 == p,
    ensures
        key_index(s, p) == i,
    decreases s.len(),
{
    if s.len() > 0 && i > 0 {
        assert(s[0].0 != p);
        assert forall|j: int| 0 <= j < i - 1 implies (#[trigger] s.skip(1)[j]).0 != p by {
            assert(s.skip(1)[j] == s[j + 1]);
        }
        lemma_key_index_is(s.skip(1), p, i - 1);
    }
}

/// If no pair before `i` has the value `f`, and either `i` is the end or
/// the pair at `i` has it, then `i` is the index of `f`.
pub proof fn lemma_value_index_is(s: Pairs, f: Seq<char>, i: int)
    requires
        0 <= i <= s.len(),
        forall|j: int| 0 <= j < i ==> (#[trigger] s[j]).1 != f,
        i < s.len() ==> s[i].1 == f,
    ensures
        value_index(s, f) == i,
    decreases s.len(),
{
    if s.len() > 0 && i > 0 {
        assert(s[0].1 != f);
        assert forall|j: int| 0 <= j < i - 1 implies (#[trigger] s.skip(1)[j]).1 != f by {
            assert(s.skip(1)[j] == s[j + 1]);
        }
        lemma_value_index_is(s.skip(1), f, i - 1);
    }
}

/// The model of two vectors of strings held side by side.
pub open spec fn pairs_view(keys: Seq<String>, values: Seq<String>) -> Pairs {
    Seq::new(keys.len(), |i: int| (keys[i]@, values[i]@))
}

/// A table of keys and their values in which no key occurs twice.
#[derive(Debug)]
pub struct PairTable {
    keys: Vec<String>,
    values: Vec<String>,
}

impl View for PairTable {
    type V = Pairs;

    closed spec fn view(&self) -> Pairs {
        pairs_view(self.keys@, self.values@)
    }
}

impl PartialEq for PairTable {
    fn eq(&self, other: &PairTable) -> (r: bool) {
        self.same(other)
    }
}

impl vstd::std_specs::cmp::PartialEqSpecImpl for PairTable {
    open spec fn obeys_eq_spec() -> bool {
        true
    }

    open spec fn eq_spec(&self, other: &PairTable) -> bool {
        same_pairs(self@, other@)
    }
}

impl Clone for PairTable {
    fn clone(&self) -> (r: PairTable)
        ensures
            r@ == self@,
            same_pairs(self@, r@),
    {
        proof {
            use_type_invariant(self);
            lemma_same_pairs_reflexive(self@);
        }
        let keys = self.keys.clone();
        let values = self.values.clone();
        assert(pairs_view(keys@, values@) =~= self@);
        PairTable { keys, values }
    }
}

impl PairTable {
    #[verifier::type_invariant]
    closed spec fn inv(&self) -> bool {
        self.keys@.len() == self.values@.len() && distinct_keys(self@)
    }

    /// An empty table.
    pub fn new() -> (r: PairTable)
        ensures
            r@ == Seq::<(Seq<char>, Seq<char>)>::empty(),
    {
        PairTable { keys: Vec::new(), values: Vec::new() }
    }

    /// The number of keys.
    pub fn len(&self) -> (r: usize)
        ensures
            r == self@.len(),
            distinct_keys(self@),
    {
        proof {
            use_type_invariant(self);
        }
        self.keys.len()
    }

    /// Where the key `p` stands, or the length of the table.
    fn find_key(&self, p: &str) -> (r: usize)
        ensures
            r == key_index(self@, p@),
            r <= self@.len(),
            r < self@.len() ==> self@[r as int].0 == p@,
            forall|j: int| 0 <= j < r ==> (#[trigger] self@[j]).0 != p@,
            self@.len() == self.keys@.len(),
            self.keys@.len() == self.values@.len(),
            distinct_keys(self@),
    {
        proof {
            use_type_invariant(self);
        }
        let mut i: usize = 0;
        while i < self.keys.len()
            invariant
                i <= self.keys@.len(),
                self@.len() == self.keys@.len(),
                self.keys@.len() == self.values@.len(),
                distinct_keys(self@),
                forall|j: int| 0 <= j < i ==> (#[trigger] self@[j]).0 != p@,
            decreases self.keys@.len() - i,
        {
            if same_text(self.keys[i].as_str(), p) {
                proof {
                    lemma_key_index_is(self@, p@, i as int);
                }
                return i;
            }
            i += 1;
        }
        proof {
            lemma_key_index_is(self@, p@, i as int);
        }
        i
    }

    /// Sets the key `p` to the value `f`.
    pub fn set(&mut self, p: String, f: String)
        ensures
            final(self)@ == with_pair(old(self)@, p@, f@),
    {
        let i = self.find_key(p.as_str());
        let mut taken = PairTable::new();
        core::mem::swap(self, &mut taken);
        let PairTable { mut keys, mut values } = taken;
        if i < keys.len() {
            values[i] = f;
        } else {
            keys.push(p);
            values.push(f);
        }
        proof {
            let s = old(self)@;
            let t = pairs_view(keys@, values@);
            assert(t =~= with_pair(s, p@, f@));
            assert forall|a: int, b: int| 0 <= a < b < t.len() implies #[trigger] t[a].0
                != #[trigger] t[b].0 by {
                if b < s.len() {
                    assert(s[a].0 != s[b].0);
                } else {
                    assert(s[a].0 != p@);
                }
            }
        }
        *self = PairTable { keys, values };
    }

    /// The value under the key `iri`, or `iri` itself.
    pub fn value_or_key(&self, iri: &str) -> (r: String)
        ensures
            r@ == value_or_key(self@, iri@),
    {
        let i = self.find_key(iri);
        if i < self.values.len() {
            self.values[i].clone()
        } else {
            iri.to_owned()
        }
    }

    /// The earliest key whose value is `iri`, or `iri` itself.
    pub fn key_or_value(&self, iri: &str) -> (r: String)
        ensures
            r@ == key_or_value(self@, iri@),
    {
        proof {
            use_type_invariant(self);
        }
        let mut i: usize = 0;
        while i < self.values.len()
            invariant
                i <= self.values@.len(),
                self.keys@.len() == self.values@.len(),
                self@.len() == self.keys@.len(),
                forall|j: int| 0 <= j < i ==> (#[trigger] self@[j]).1 != iri@,
            decreases self.values@.len() - i,
        {
            if same_text(self.values[i].as_str(), iri) {
                proof {
                    lemma_value_index_is(self@, iri@, i as int);
                }
                return self.keys[i].clone();
            }
            i += 1;
        }
        proof {
            lemma_value_index_is(self@, iri@, i as int);
        }
        iri.to_owned()
    }

    /// Whether two tables hold the same pairs, in whatever order.
    pub fn same(&self, other: &PairTable) -> (r: bool)
        ensures
            r == same_pairs(self@, other@),
    {
        proof {
            use_type_invariant(self);
        }
        if self.keys.len() != other.len() {
            return false;
        }
        let mut i: usize = 0;
        while i < self.keys.len()
            invariant
                i <= self.keys@.len(),
                self.keys@.len() == self.values@.len(),
                self@.len() == self.keys@.len(),
                self@.len() == other@.len(),
                forall|k: int| 0 <= k < i ==> held_by(other@, #[trigger] self@[k]),
            decreases self.keys@.len() - i,
        {
            let j = other.find_key(self.keys[i].as_str());
            if j >= other.values.len() || !same_text(
                other.values[j].as_str(),
                self.values[i].as_str(),
            ) {
                assert(!held_by(other@, self@[i as int]));
                return false;
            }
            i += 1;
        }
        true
    }

    /// The key of the `i`-th pair.
    pub fn key_at(&self, i: usize) -> (r: &String)
        requires
            i < self@.len(),
        ensures
            r@ == self@[i as int].0,
    {
        &self.keys[i]
    }

    /// The value of the `i`-th pair.
    pub fn value_at(&self, i: usize) -> (r: &String)
        requires
            i < self@.len(),
        ensures
            r@ == self@[i as int].1,
    {
        proof {
            use_type_invariant(self);
        }
        &self.values[i]
    }
}

} // verus!
