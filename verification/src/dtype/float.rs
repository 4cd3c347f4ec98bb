//! Integers as binary64 floats, on bit patterns alone: which integers have
//! a float of exactly their value, and which pattern it is.

use vstd::prelude::*;
use super::number::{float_pattern, NumImpl};

verus! {

/// Two to the power of 52: the bit that a normal binary64 number has before
/// its 52 mantissa bits, without holding it.
pub const HIDDEN_BIT: u64 = 0x10_0000_0000_0000;

/// Two to the power of 53: no mantissa reaches it.
pub const MANTISSA_LIMIT: u64 = 0x20_0000_0000_0000;

/// The sign bit of a binary64 pattern.
pub const SIGN_BIT: u64 = 0x8000_0000_0000_0000;

/// The mask of the 52 mantissa bits.
pub const MANTISSA_MASK: u64 = 0xf_ffff_ffff_ffff;

/// The exponent field of the number one: the bias.
pub const EXPONENT_BIAS: u64 = 1023;

/// Two to the power of `n`.
pub open spec fn two_to(n: nat) -> nat
    decreases n,
{
    if n == 0 {
        1
    } else {
        2 * two_to((n - 1) as nat)
    }
}

/// `q` times two to the power of `s`.
pub open spec fn scaled(q: nat, s: nat) -> nat {
    q * two_to(s)
}

/// The natural number `m` has a binary64 float of exactly its value: it is
/// a number below two to the power of 53, times a power of two.
pub open spec fn fits_binary64(m: nat) -> bool {
    exists|q: nat, s: nat| q < MANTISSA_LIMIT && m == #[trigger] scaled(q, s)
}

/// The exponent field of a pattern.
pub open spec fn exponent_of(bits: u64) -> int {
    ((bits >> 52) & 0x7ff) as int
}

/// The mantissa field of a pattern.
pub open spec fn mantissa_of(bits: u64) -> int {
    (bits & MANTISSA_MASK) as int
}

/// Whether the sign bit of a pattern is set.
pub open spec fn negative(bits: u64) -> bool {
    bits >> 63 == 1
}

/// `bits` is the pattern of the float whose value is the integer `v`: the
/// positive zero for zero, and else a normal number with the sign of `v`
/// whose mantissa, with the hidden bit, times two to the power of its
/// exponent less 1075 is the magnitude of `v`.
pub open spec fn denotes(bits: u64, v: int) -> bool {
    let e = exponent_of(bits);
    let n = HIDDEN_BIT + mantissa_of(bits);
    let magnitude = if v < 0 {
        -v
    } else {
        v
    };
    if v == 0 {
        bits == 0
    } else {
        &&& negative(bits) == (v < 0)
        &&& 0 < e < 2047
        &&& if e >= 1075 {
            magnitude == n * two_to((e - 1075) as nat)
        } else {
            magnitude * two_to((1075 - e) as nat) == n
        }
    }
}

/// `r` is what the integer `v` is as a float: its pattern where there is a
/// float of exactly its value, and nothing where there is none.
pub open spec fn integer_pattern(v: int, r: Option<u64>) -> bool {
    let magnitude = if v < 0 {
        -v
    } else {
        v
    };
    match r {
        Some(bits) => fits_binary64(magnitude as nat) && denotes(bits, v),
        None => !fits_binary64(magnitude as nat),
    }
}

/// Powers of two are positive.
pub proof fn lemma_two_to_positive(n: nat)
    ensures
        two_to(n) >= 1,
    decreases n,
{
    if n > 0 {
        lemma_two_to_positive((n - 1) as nat);
    }
}

/// Two to the power of a sum is the product of the powers.
pub proof fn lemma_two_to_adds(a: nat, b: nat)
    ensures
        two_to(a + b) == two_to(a) * two_to(b),
    decreases b,
{
    if b > 0 {
        lemma_two_to_adds(a, (b - 1) as nat);
        assert(two_to(a + b) == 2 * two_to((a + b - 1) as nat));
        assert(2 * (two_to(a) * two_to((b - 1) as nat)) == two_to(a) * (2 * two_to((b - 1) as nat)))
            by (nonlinear_arith);
    } else {
        assert(two_to(a) * 1 == two_to(a)) by (nonlinear_arith);
    }
}

/// The powers of two at the ends of a mantissa and of a `u64`.
pub proof fn lemma_two_to_values()
    ensures
        two_to(52) == 0x10_0000_0000_0000,
        two_to(53) == 0x20_0000_0000_0000,
        two_to(64) == 0x1_0000_0000_0000_0000,
{
    assert(two_to(13) == 8192) by {
        reveal_with_fuel(two_to, 14);
    }
    assert(two_to(12) == 4096) by {
        reveal_with_fuel(two_to, 13);
    }
    assert(two_to(1) == 2) by {
        reveal_with_fuel(two_to, 2);
    }
    lemma_two_to_adds(13, 13);
    assert(two_to(26) == 0x400_0000) by (nonlinear_arith)
        requires
            two_to(26) == two_to(13) * two_to(13),
            two_to(13) == 8192,
    ;
    lemma_two_to_adds(26, 26);
    assert(two_to(52) == 0x10_0000_0000_0000) by (nonlinear_arith)
        requires
            two_to(52) == two_to(26) * two_to(26),
            two_to(26) == 0x400_0000,
    ;
    lemma_two_to_adds(52, 1);
    assert(two_to(53) == 0x20_0000_0000_0000) by (nonlinear_arith)
        requires
            two_to(53) == two_to(52) * two_to(1),
            two_to(52) == 0x10_0000_0000_0000,
            two_to(1) == 2,
    ;
    lemma_two_to_adds(52, 12);
    assert(two_to(64) == 0x1_0000_0000_0000_0000) by (nonlinear_arith)
        requires
            two_to(64) == two_to(52) * two_to(12),
            two_to(52) == 0x10_0000_0000_0000,
            two_to(12) == 4096,
    ;
}

/// An odd number times a power of two is written in one way only: any
/// other way to write it as a number times a power of two has the smaller
/// power and the larger number.
pub proof fn lemma_odd_part(q: nat, s: nat, p: nat, r: nat)
    requires
        q % 2 == 1,
        scaled(q, s) == scaled(p, r),
    ensures
        r <= s,
        p == scaled(q, (s - r) as nat),
        p >= q,
    decreases r,
{
    lemma_two_to_positive(s);
    lemma_two_to_positive(r);
    if r == 0 {
        assert(p * 1 == p) by (nonlinear_arith);
        assert(q * two_to(s) >= q) by (nonlinear_arith)
            requires
                two_to(s) >= 1,
        ;
    } else {
        let tr = two_to((r - 1) as nat);
        assert(p * (2 * tr) == 2 * (p * tr)) by (nonlinear_arith);
        if s == 0 {
            assert(q * 1 == q) by (nonlinear_arith);
            assert(false);
        } else {
            let ts = two_to((s - 1) as nat);
            assert(q * (2 * ts) == 2 * (q * ts)) by (nonlinear_arith);
            lemma_odd_part(q, (s - 1) as nat, p, (r - 1) as nat);
        }
    }
}

/// A pattern is put together from its sign, its exponent and its
/// mantissa.
pub proof fn lemma_parts(bits: u64)
    ensures
        bits == ((bits >> 63) << 63) | ((((bits >> 52) & 0x7ff)) << 52) | (bits & 0xf_ffff_ffff_ffff),
        bits >> 63 == 0 || bits >> 63 == 1,
        (bits >> 52) & 0x7ff < 2048,
        bits & 0xf_ffff_ffff_ffff < 0x10_0000_0000_0000,
{
    assert(bits == ((bits >> 63) << 63) | ((((bits >> 52) & 0x7ff)) << 52) | (bits
        & 0xf_ffff_ffff_ffff)) by (bit_vector);
    assert(bits >> 63 == 0 || bits >> 63 == 1) by (bit_vector);
    assert((bits >> 52) & 0x7ff < 2048) by (bit_vector);
    assert(bits & 0xf_ffff_ffff_ffff < 0x10_0000_0000_0000) by (bit_vector);
}

/// Two to the power of `n` grows with `n`.
pub proof fn lemma_two_to_grows(a: nat, b: nat)
    requires
        a < b,
    ensures
        two_to(a) < two_to(b),
        two_to(b) >= 2 * two_to(a),
    decreases b,
{
    lemma_two_to_positive(a);
    if a + 1 < b {
        lemma_two_to_grows(a, (b - 1) as nat);
    }
}

/// No integer has two patterns.
pub proof fn lemma_denotes_unique(a: u64, b: u64, v: int)
    requires
        denotes(a, v),
        denotes(b, v),
    ensures
        a == b,
{
    if v != 0 {
        lemma_parts(a);
        lemma_parts(b);
        let ea = exponent_of(a);
        let eb = exponent_of(b);
        let na = HIDDEN_BIT + mantissa_of(a);
        let nb = HIDDEN_BIT + mantissa_of(b);
        let magnitude: int = if v < 0 {
            -v
        } else {
            v
        };
        // Both mantissas, with the hidden bit, lie between two to the power
        // of 52 and two to the power of 53, so the exponents are the same.
        if ea != eb {
            let (lo, hi, nlo, nhi) = if ea < eb {
                (ea, eb, na, nb)
            } else {
                (eb, ea, nb, na)
            };
            // The value at the higher exponent is at least twice the least
            // value at the lower one, and more than the most.
            lemma_exponents_differ(lo, hi, nlo, nhi, magnitude);
        }
        assert(ea == eb);
        if ea >= 1075 {
            let d = two_to((ea - 1075) as nat);
            lemma_two_to_positive((ea - 1075) as nat);
            assert(na == nb) by (nonlinear_arith)
                requires
                    na * d == nb * d,
                    d >= 1,
            ;
        }
        assert(mantissa_of(a) == mantissa_of(b));
        assert(a >> 63 == b >> 63);
    }
}

/// A normal number has one exponent: with mantissas between two to the
/// power of 52 and two to the power of 53, a higher exponent gives a
/// larger value.
proof fn lemma_exponents_differ(lo: int, hi: int, nlo: int, nhi: int, magnitude: int)
    requires
        0 < lo <= hi < 2047,
        HIDDEN_BIT <= nlo < MANTISSA_LIMIT,
        HIDDEN_BIT <= nhi < MANTISSA_LIMIT,
        if lo >= 1075 {
            magnitude == nlo * two_to((lo - 1075) as nat)
        } else {
            magnitude * two_to((1075 - lo) as nat) == nlo
        },
        if hi >= 1075 {
            magnitude == nhi * two_to((hi - 1075) as nat)
        } else {
            magnitude * two_to((1075 - hi) as nat) == nhi
        },
    ensures
        lo == hi,
{
    if lo == hi {
    } else if lo >= 1075 {
        let dl = two_to((lo - 1075) as nat);
        let dh = two_to((hi - 1075) as nat);
        lemma_two_to_grows((lo - 1075) as nat, (hi - 1075) as nat);
        lemma_two_to_positive((lo - 1075) as nat);
        assert(nhi * dh >= 2 * (HIDDEN_BIT * dl)) by (nonlinear_arith)
            requires
                nhi >= HIDDEN_BIT,
                dh >= 2 * dl,
                dl >= 1,
        ;
        assert(nlo * dl < 2 * (HIDDEN_BIT * dl)) by (nonlinear_arith)
            requires
                nlo < 2 * HIDDEN_BIT,
                dl >= 1,
        ;
    } else if hi >= 1075 {
        let dl = two_to((1075 - lo) as nat);
        let dh = two_to((hi - 1075) as nat);
        lemma_two_to_positive((hi - 1075) as nat);
        lemma_two_to_grows(0, (1075 - lo) as nat);
        assert(two_to(0) == 1);
        assert(magnitude >= nhi) by (nonlinear_arith)
            requires
                magnitude == nhi * dh,
                dh >= 1,
                nhi >= 0,
        ;
        assert(magnitude * dl >= 2 * magnitude) by (nonlinear_arith)
            requires
                dl >= 2,
                magnitude >= 0,
        ;
    } else {
        let dl = two_to((1075 - lo) as nat);
        let dh = two_to((1075 - hi) as nat);
        lemma_two_to_grows((1075 - hi) as nat, (1075 - lo) as nat);
        lemma_two_to_positive((1075 - hi) as nat);
        assert(magnitude >= 0) by (nonlinear_arith)
            requires
                magnitude * dh == nhi,
                nhi >= 1,
                dh >= 1,
        ;
        assert(magnitude * dl >= 2 * (magnitude * dh)) by (nonlinear_arith)
            requires
                dl >= 2 * dh,
                magnitude >= 0,
        ;
    }
}

/// A number is no more than one float.
pub proof fn lemma_pattern_unique(n: NumImpl, a: u64, b: u64)
    requires
        float_pattern(n, Some(a)),
        float_pattern(n, Some(b)),
    ensures
        a == b,
{
    match n {
        NumImpl::Float(_) => {},
        NumImpl::PositiveInt(u) => {
            lemma_denotes_unique(a, b, u as int);
        },
        NumImpl::NegativeInt(i) => {
            lemma_denotes_unique(a, b, i as int);
        },
    }
}

/// A number that is some float is not without a float.
pub proof fn lemma_pattern_total(n: NumImpl, a: u64)
    requires
        float_pattern(n, Some(a)),
    ensures
        !float_pattern(n, None),
{
}

/// The fields of a pattern put together from an exponent and a mantissa.
pub proof fn lemma_fields(e: u64, mantissa: u64)
    requires
        e < 2047,
        mantissa < HIDDEN_BIT,
    ensures
        exponent_of((e << 52) | mantissa) == e,
        mantissa_of((e << 52) | mantissa) == mantissa,
        !negative((e << 52) | mantissa),
        exponent_of((e << 52) | mantissa | SIGN_BIT) == e,
        mantissa_of((e << 52) | mantissa | SIGN_BIT) == mantissa,
        negative((e << 52) | mantissa | SIGN_BIT),
        e > 0 ==> ((e << 52) | mantissa) != 0,
{
    assert((((e << 52) | mantissa) >> 52) & 0x7ff == e) by (bit_vector)
        requires
            e < 2047,
            mantissa < 0x10_0000_0000_0000u64,
    ;
    assert(((e << 52) | mantissa) & 0xf_ffff_ffff_ffff == mantissa) by (bit_vector)
        requires
            e < 2047,
            mantissa < 0x10_0000_0000_0000u64,
    ;
    assert(((e << 52) | mantissa) >> 63 == 0) by (bit_vector)
        requires
            e < 2047,
            mantissa < 0x10_0000_0000_0000u64,
    ;
    assert((((e << 52) | mantissa | 0x8000_0000_0000_0000) >> 52) & 0x7ff == e) by (bit_vector)
        requires
            e < 2047,
            mantissa < 0x10_0000_0000_0000u64,
    ;
    assert(((e << 52) | mantissa | 0x8000_0000_0000_0000) & 0xf_ffff_ffff_ffff == mantissa)
        by (bit_vector)
        requires
            e < 2047,
            mantissa < 0x10_0000_0000_0000u64,
    ;
    assert(((e << 52) | mantissa | 0x8000_0000_0000_0000u64) >> 63 == 1) by (bit_vector);
    assert(e > 0 ==> ((e << 52) | mantissa) != 0) by (bit_vector)
        requires
            e < 2047,
            mantissa < 0x10_0000_0000_0000u64,
    ;
}

/// The pattern of the float whose value is the integer `m`, or of its
/// negative where `minus` is set, where there is such a float.
pub fn integer_bits(m: u64, minus: bool) -> (r: Option<u64>)
    requires
        minus ==> m > 0,
    ensures
        integer_pattern(
            if minus {
                -(m as int)
            } else {
                m as int
            },
            r,
        ),
{
    if m == 0 {
        assert(0 == scaled(0, 0)) by (nonlinear_arith)
            requires
                scaled(0, 0) == 0 * two_to(0),
        ;
        return Some(0);
    }
    proof {
        lemma_two_to_values();
    }
    let mut q: u64 = m;
    let mut s: u64 = 0;
    assert(m == scaled(m as nat, 0)) by (nonlinear_arith)
        requires
            scaled(m as nat, 0) == m * two_to(0),
            two_to(0) == 1,
    ;
    while q % 2 == 0
        invariant
            q > 0,
            m == scaled(q as nat, s as nat),
            s <= 64,
            two_to(64) == 0x1_0000_0000_0000_0000,
        decreases q,
    {
        let ghost ts = two_to(s as nat);
        assert(q * ts == (q / 2) * (2 * ts)) by (nonlinear_arith)
            requires
                q % 2 == 0,
        ;
        proof {
            if s == 64 {
                lemma_two_to_positive(s as nat);
                assert(q * ts >= ts) by (nonlinear_arith)
                    requires
                        q >= 1,
                        ts >= 0,
                ;
                assert(false);
            }
        }
        q = q / 2;
        s = s + 1;
    }
    proof {
        if s >= 64 {
            lemma_two_to_positive(s as nat);
            let ts = two_to(s as nat);
            assert(q * ts >= ts) by (nonlinear_arith)
                requires
                    q >= 1,
                    ts >= 0,
            ;
            assert(false);
        }
    }
    if q >= MANTISSA_LIMIT {
        proof {
            if fits_binary64(m as nat) {
                let (p, r) = choose|p: nat, r: nat|
                    p < MANTISSA_LIMIT && m as nat == #[trigger] scaled(p, r);
                lemma_odd_part(q as nat, s as nat, p, r);
            }
        }
        return None;
    }
    let mut n: u64 = q;
    let mut t: u64 = 0;
    assert(q == scaled(q as nat, 0)) by (nonlinear_arith)
        requires
            scaled(q as nat, 0) == q * two_to(0),
            two_to(0) == 1,
    ;
    while n < HIDDEN_BIT
        invariant
            q > 0,
            0 < n < MANTISSA_LIMIT,
            n == scaled(q as nat, t as nat),
            t <= 52,
            two_to(52) == 0x10_0000_0000_0000,
        decreases MANTISSA_LIMIT - n,
    {
        let ghost tt = two_to(t as nat);
        assert(2 * (q * tt) == q * (2 * tt)) by (nonlinear_arith);
        proof {
            if t == 52 {
                assert(q * tt >= tt) by (nonlinear_arith)
                    requires
                        q >= 1,
                        tt >= 0,
                ;
                assert(n == q * tt);
                assert(tt == two_to(52));
                assert(false);
            }
        }
        n = n * 2;
        t = t + 1;
    }
    let e: u64 = EXPONENT_BIAS + 52 + s - t;
    let mantissa: u64 = n - HIDDEN_BIT;
    let bits: u64 = (e << 52) | mantissa;
    proof {
        lemma_fields(e, mantissa);
        let ts = two_to(s as nat);
        let tt = two_to(t as nat);
        if s >= t {
            let d = two_to((s - t) as nat);
            lemma_two_to_adds(t as nat, (s - t) as nat);
            assert(ts == tt * d);
            assert(q * (tt * d) == (q * tt) * d) by (nonlinear_arith);
            assert(m == n * d);
        } else {
            let d = two_to((t - s) as nat);
            lemma_two_to_adds(s as nat, (t - s) as nat);
            assert(tt == ts * d);
            assert(q * (ts * d) == (q * ts) * d) by (nonlinear_arith);
            assert(m * d == n);
        }
    }
    if minus {
        Some(bits | SIGN_BIT)
    } else {
        Some(bits)
    }
}

} // verus!
