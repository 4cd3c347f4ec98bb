//! Slash-delimited paths into a value, with `~1` standing for `/` and `~0`
//! for `~` inside a segment.

use vstd::prelude::*;
use super::map::{lookup, with_entry};
use super::Value;

verus! {

/// The pieces of `s` between occurrences of `sep`. There is always at least
/// one piece; a separator at either end leaves an empty piece there.
pub open spec fn split(s: Seq<char>, sep: char) -> Seq<Seq<char>>
    decreases s.len(),
{
    if s.len() == 0 {
        seq![Seq::<char>::empty()]
    } else {
        let head = split(s.drop_last(), sep);
        if s.last() == sep {
            head.push(Seq::<char>::empty())
        } else {
            head.update(head.len() - 1, head.last().push(s.last()))
        }
    }
}

/// `s` with every occurrence of the two characters `a`, `b` in a row,
/// found from left to right without overlap, replaced by `r`.
pub open spec fn replace_pair(s: Seq<char>, a: char, b: char, r: char) -> Seq<char>
    decreases s.len(),
{
    if s.len() < 2 {
        s
    } else if s[0] == a && s[1] == b {
        seq![r] + replace_pair(s.skip(2), a, b, r)
    } else {
        seq![s[0]] + replace_pair(s.skip(1), a, b, r)
    }
}

/// A path segment with its escapes undone: first every `~1` becomes `/`,
/// then every `~0` becomes `~`.
pub open spec fn unescape(s: Seq<char>) -> Seq<char> {
    replace_pair(replace_pair(s, '~', '1', '/'), '~', '0', '~')
}

/// The segments of a path that starts with `/`, unescaped.
pub open spec fn tokens_of(p: Seq<char>) -> Seq<Seq<char>> {
    let pieces = split(p, '/').skip(1);
    Seq::new(pieces.len(), |i: int| unescape(pieces[i]))
}

/// Whether `c` is one of the decimal digits `0` to `9`.
pub open spec fn is_digit(c: char) -> bool {
    '0' <= c && c <= '9'
}

/// The number that the decimal digits `s` spell.
pub open spec fn digits_value(s: Seq<char>) -> nat
    decreases s.len(),
{
    if s.len() == 0 {
        0
    } else {
        digits_value(s.drop_last()) * 10 + ((s.last() as u32 - '0' as u32) as nat)
    }
}

/// A segment as an array index: decimal digits only, at least one, with no
/// leading zero but for `0` itself, and a value that fits in `usize`.
pub open spec fn index_of_token(s: Seq<char>) -> Option<usize> {
    if s.len() > 0 && (forall|i: int| 0 <= i < s.len() ==> is_digit(#[trigger] s[i])) && (s[0] != '0'
        || s.len() == 1) && digits_value(s) <= usize::MAX {
        Some(digits_value(s) as usize)
    } else {
        None
    }
}

/// One step into a value: by key into an object, by index into an array,
/// and nowhere from anything else.
pub open spec fn step(v: Value, token: Seq<char>) -> Option<Value> {
    match v {
        Value::Object(entries) => lookup(entries, token),
        Value::Array(items) => match index_of_token(token) {
            Some(i) => if i < items.len() {
                Some(items[i as int])
            } else {
                None
            },
            None => None,
        },
        _ => None,
    }
}

/// The value reached from `v` by taking the steps `tokens` in turn.
pub open spec fn resolve(v: Value, tokens: Seq<Seq<char>>) -> Option<Value>
    decreases tokens.len(),
{
    if tokens.len() == 0 {
        Some(v)
    } else {
        match step(v, tokens[0]) {
            Some(child) => resolve(child, tokens.skip(1)),
            None => None,
        }
    }
}

/// The value that the path `p` addresses inside `v`: `v` itself for the
/// empty path, nothing for a path that does not start with `/`.
pub open spec fn pointer_target(v: Value, p: Seq<char>) -> Option<Value> {
    if p.len() == 0 {
        Some(v)
    } else if p[0] != '/' {
        None
    } else {
        resolve(v, tokens_of(p))
    }
}

/// The value `v` with the value that the steps `tokens` reach replaced by
/// `new`; `v` itself where they reach nothing.
pub open spec fn replaced(v: Value, tokens: Seq<Seq<char>>, new: Value) -> Value
    decreases tokens.len(),
{
    if tokens.len() == 0 {
        new
    } else {
        match step(v, tokens[0]) {
            Some(child) => {
                let inner = replaced(child, tokens.skip(1), new);
                match v {
                    Value::Object(entries) => Value::Object(with_entry(entries, tokens[0], inner)),
                    Value::Array(items) => Value::Array(
                        items.update(index_of_token(tokens[0])->0 as int, inner),
                    ),
                    _ => v,
                }
            },
            None => v,
        }
    }
}

/// The value `v` with the value that the path `p` addresses replaced by
/// `new`; `v` itself where the path addresses nothing.
pub open spec fn pointer_replaced(v: Value, p: Seq<char>, new: Value) -> Value {
    if p.len() == 0 {
        new
    } else if p[0] != '/' {
        v
    } else {
        replaced(v, tokens_of(p), new)
    }
}

/// The model of a list of segments.
pub open spec fn tokens_view(tokens: Seq<Vec<char>>) -> Seq<Seq<char>> {
    Seq::new(tokens.len(), |i: int| tokens[i]@)
}

/// Splits `s` at every occurrence of `sep`.
pub fn split_chars(s: &[char], sep: char) -> (r: Vec<Vec<char>>)
    ensures
        tokens_view(r@) == split(s@, sep),
{
    let mut done: Vec<Vec<char>> = Vec::new();
    let mut cur: Vec<char> = Vec::new();
    let mut i: usize = 0;
    while i < s.len()
        invariant
            i <= s@.len(),
            tokens_view(done@).push(cur@) == split(s@.take(i as int), sep),
        decreases s@.len() - i,
    {
        let c = s[i];
        proof {
            assert(s@.take(i + 1).drop_last() =~= s@.take(i as int));
            assert(s@.take(i + 1).last() == c);
        }
        if c == sep {
            let ghost before = tokens_view(done@).push(cur@);
            done.push(cur);
            cur = Vec::new();
            assert(tokens_view(done@) =~= before);
        } else {
            cur.push(c);
        }
        assert(tokens_view(done@).push(cur@) =~= split(s@.take(i + 1), sep));
        i += 1;
    }
    assert(s@.take(s@.len() as int) =~= s@);
    let ghost before = tokens_view(done@).push(cur@);
    done.push(cur);
    assert(tokens_view(done@) =~= before);
    done
}

/// Replaces every `a`, `b` in a row by `r`, from left to right.
pub fn replace_chars(s: &[char], a: char, b: char, r: char) -> (out: Vec<char>)
    ensures
        out@ == replace_pair(s@, a, b, r),
{
    let mut out: Vec<char> = Vec::new();
    let mut i: usize = 0;
    assert(s@.skip(0) =~= s@);
    assert(out@ + replace_pair(s@, a, b, r) =~= replace_pair(s@, a, b, r));
    while i < s.len()
        invariant
            i <= s@.len(),
            out@ + replace_pair(s@.skip(i as int), a, b, r) == replace_pair(s@, a, b, r),
        decreases s@.len() - i,
    {
        let ghost rest = s@.skip(i as int);
        if i + 1 < s.len() && s[i] == a && s[i + 1] == b {
            assert(rest.skip(2) =~= s@.skip(i + 2));
            out.push(r);
            assert(out@ + replace_pair(s@.skip(i + 2), a, b, r) =~= replace_pair(s@, a, b, r));
            i += 2;
        } else {
            assert(rest.skip(1) =~= s@.skip(i + 1));
            assert(replace_pair(rest, a, b, r) =~= seq![rest[0]] + replace_pair(
                rest.skip(1),
                a,
                b,
                r,
            ));
            out.push(s[i]);
            assert(out@ + replace_pair(s@.skip(i + 1), a, b, r) =~= replace_pair(s@, a, b, r));
            i += 1;
        }
    }
    assert(out@ + Seq::<char>::empty() =~= out@);
    out
}

/// Undoes the escapes of one path segment.
pub fn unescape_chars(s: &[char]) -> (out: Vec<char>)
    ensures
        out@ == unescape(s@),
{
    let first = replace_chars(s, '~', '1', '/');
    replace_chars(first.as_slice(), '~', '0', '~')
}

/// The value of a run of digits never falls when more digits follow.
pub proof fn lemma_digits_value_grows(s: Seq<char>, n: int)
    requires
        0 <= n <= s.len(),
    ensures
        digits_value(s.take(n)) <= digits_value(s),
    decreases s.len() - n,
{
    if n < s.len() {
        lemma_digits_value_grows(s, n + 1);
        assert(s.take(n + 1).drop_last() =~= s.take(n));
    } else {
        assert(s.take(n) =~= s);
    }
}

/// Reads a path segment as an array index.
pub fn parse_index(s: &[char]) -> (r: Option<usize>)
    ensures
        r == index_of_token(s@),
{
    if s.len() == 0 {
        return None;
    }
    if s[0] == '0' && s.len() != 1 {
        return None;
    }
    let mut value: usize = 0;
    let mut i: usize = 0;
    while i < s.len()
        invariant
            i <= s@.len(),
            s@.len() > 0,
            s@[0] != '0' || s@.len() == 1,
            forall|j: int| 0 <= j < i ==> is_digit(#[trigger] s@[j]),
            value == digits_value(s@.take(i as int)),
        decreases s@.len() - i,
    {
        let c = s[i];
        if !(c >= '0' && c <= '9') {
            return None;
        }
        let digit = (c as u32 - '0' as u32) as usize;
        proof {
            assert(s@.take(i + 1).drop_last() =~= s@.take(i as int));
            assert(s@.take(i + 1).last() == c);
            lemma_digits_value_grows(s@, i + 1);
        }
        let shifted = match value.checked_mul(10) {
            Some(x) => x,
            None => {
                return None;
            },
        };
        value = match shifted.checked_add(digit) {
            Some(x) => x,
            None => {
                return None;
            },
        };
        i += 1;
    }
    assert(s@.take(s@.len() as int) =~= s@);
    Some(value)
}

/// The segments of the path `p`, which starts with `/`, unescaped.
pub fn tokens(p: &[char]) -> (r: Vec<Vec<char>>)
    ensures
        tokens_view(r@) == tokens_of(p@),
{
    let pieces = split_chars(p, '/');
    let mut out: Vec<Vec<char>> = Vec::new();
    let mut i: usize = 1;
    proof {
        lemma_split_nonempty(p@, '/');
    }
    while i < pieces.len()
        invariant
            1 <= i <= pieces@.len(),
            tokens_view(pieces@) == split(p@, '/'),
            out@.len() == i - 1,
            forall|j: int| 0 <= j < out@.len() ==> #[trigger] out@[j]@ == unescape(pieces@[j + 1]@),
        decreases pieces@.len() - i,
    {
        out.push(unescape_chars(pieces[i].as_slice()));
        i += 1;
    }
    assert(tokens_view(out@) =~= tokens_of(p@)) by {
        let sp = split(p@, '/');
        assert forall|j: int| 0 <= j < out@.len() implies tokens_view(out@)[j] == tokens_of(p@)[j] by {
            assert(tokens_view(pieces@)[j + 1] == pieces@[j + 1]@);
            assert(sp.skip(1)[j] == sp[j + 1]);
        }
    }
    out
}

/// Splitting gives at least one piece.
pub proof fn lemma_split_nonempty(s: Seq<char>, sep: char)
    ensures
        split(s, sep).len() >= 1,
    decreases s.len(),
{
    if s.len() > 0 {
        lemma_split_nonempty(s.drop_last(), sep);
    }
}

} // verus!
