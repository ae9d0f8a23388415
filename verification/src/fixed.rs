//! Fixed-point scalar arithmetic: values carry `SCALE` sub-units per unit,
//! products are rescaled with division that truncates toward zero, and the
//! vector norms use an exact integer square root.

use vstd::prelude::*;
use vstd::arithmetic::div_mod::{
    lemma_div_by_multiple, lemma_div_is_ordered, lemma_div_nonincreasing, lemma_div_pos_is_pos,
};
use crate::SCALE;

verus! {

/// Division that truncates toward zero, for a positive divisor.
pub open spec fn tdiv(a: int, b: int) -> int {
    if a >= 0 {
        a / b
    } else {
        -((-a) / b)
    }
}

/// Product of two fixed-point values, rescaled by `SCALE`.
pub open spec fn fmul(a: int, b: int) -> int {
    tdiv(a * b, SCALE as int)
}

/// `v` clamped into `[lo, hi]`.
pub open spec fn clamp_spec(v: int, lo: int, hi: int) -> int {
    if v < lo {
        lo
    } else if v > hi {
        hi
    } else {
        v
    }
}

/// `r` is the integer square root of `n`, rounded down.
pub open spec fn is_sqrt_floor(n: int, r: int) -> bool {
    0 <= r && r * r <= n && (r + 1) * (r + 1) > n
}

/// The integer square root of `n`, rounded down (meaningful for `n >= 0`).
pub open spec fn sqrt_floor(n: int) -> int {
    choose|r: int| is_sqrt_floor(n, r)
}

/// The rounded-down square root is unique, so any witness is the root.
pub proof fn lemma_sqrt_floor_agrees(n: int, r: int)
    requires
        is_sqrt_floor(n, r),
    ensures
        sqrt_floor(n) == r,
{
    assert(exists|x: int| is_sqrt_floor(n, x));
    let s = sqrt_floor(n);
    assert(is_sqrt_floor(n, s));
    if s < r {
        assert((s + 1) * (s + 1) <= r * r) by (nonlinear_arith)
            requires
                0 <= s,
                0 <= r,
                s < r,
        ;
        assert(false);
    }
    if r < s {
        assert((r + 1) * (r + 1) <= s * s) by (nonlinear_arith)
            requires
                0 <= r,
                0 <= s,
                r < s,
        ;
        assert(false);
    }
}

/// Truncating division keeps the sign of the numerator.
pub proof fn lemma_tdiv_sign(a: int, b: int)
    requires
        0 < b,
    ensures
        a >= 0 ==> 0 <= tdiv(a, b),
        a <= 0 ==> tdiv(a, b) <= 0,
{
    if a >= 0 {
        lemma_div_pos_is_pos(a, b);
    } else {
        lemma_div_pos_is_pos(-a, b);
    }
}

/// Truncating division is monotone in the numerator.
pub proof fn lemma_tdiv_ordered(a: int, b: int, d: int)
    requires
        0 < d,
        a <= b,
    ensures
        tdiv(a, d) <= tdiv(b, d),
{
    if a >= 0 {
        lemma_div_is_ordered(a, b, d);
    } else if b >= 0 {
        lemma_div_pos_is_pos(-a, d);
        lemma_div_pos_is_pos(b, d);
    } else {
        lemma_div_is_ordered(-b, -a, d);
    }
}

/// Truncating division shrinks magnitude: `|tdiv(a, b)| <= c` when `|a| <= c * b`.
pub proof fn lemma_tdiv_mag(a: int, b: int, c: int)
    requires
        0 < b,
        0 <= c,
        -(c * b) <= a <= c * b,
    ensures
        -c <= tdiv(a, b) <= c,
{
    lemma_div_by_multiple(c, b);
    if a >= 0 {
        lemma_div_is_ordered(a, c * b, b);
        lemma_div_pos_is_pos(a, b);
    } else {
        lemma_div_is_ordered(-a, c * b, b);
        lemma_div_pos_is_pos(-a, b);
    }
}

/// Bounds the product and the rescaled product of two bounded values.
pub proof fn lemma_fmul_bound(a: int, b: int, ca: int, cb: int)
    requires
        -ca <= a <= ca,
        -cb <= b <= cb,
        0 <= ca,
        0 <= cb,
    ensures
        -(ca * cb) <= a * b <= ca * cb,
        -tdiv(ca * cb, SCALE as int) <= fmul(a, b) <= tdiv(ca * cb, SCALE as int),
{
    assert(-(ca * cb) <= a * b <= ca * cb) by (nonlinear_arith)
        requires
            -ca <= a <= ca,
            -cb <= b <= cb,
            0 <= ca,
            0 <= cb,
    ;
    assert(0 <= ca * cb) by (nonlinear_arith)
        requires
            0 <= ca,
            0 <= cb,
    ;
    lemma_tdiv_ordered(a * b, ca * cb, SCALE as int);
    lemma_tdiv_ordered(-(ca * cb), a * b, SCALE as int);
    assert(tdiv(-(ca * cb), SCALE as int) == -tdiv(ca * cb, SCALE as int));
}

/// Truncating division of `a` by a positive `b`, exact per `tdiv`.
pub fn div_trunc(a: i64, b: i64) -> (r: i64)
    requires
        0 < b,
        i64::MIN < a,
    ensures
        r as int == tdiv(a as int, b as int),
{
    if a >= 0 {
        proof {
            lemma_div_nonincreasing(a as int, b as int);
            lemma_div_pos_is_pos(a as int, b as int);
        }
        let q = (a as u64) / (b as u64);
        q as i64
    } else {
        let m = (-a) as u64;
        proof {
            lemma_div_nonincreasing(m as int, b as int);
            lemma_div_pos_is_pos(m as int, b as int);
        }
        let q = m / (b as u64);
        -(q as i64)
    }
}

/// Fixed-point multiply: `a * b` rescaled by `SCALE`, truncating toward zero.
pub fn mul_fx(a: i64, b: i64) -> (r: i64)
    requires
        i64::MIN < a as int * b as int <= i64::MAX,
    ensures
        r as int == fmul(a as int, b as int),
{
    let p = a * b;
    div_trunc(p, SCALE)
}

/// `v` clamped into `[lo, hi]`.
pub fn clamp_i64(v: i64, lo: i64, hi: i64) -> (r: i64)
    requires
        lo <= hi,
    ensures
        r as int == clamp_spec(v as int, lo as int, hi as int),
{
    if v < lo {
        lo
    } else if v > hi {
        hi
    } else {
        v
    }
}

/// Integer square root, rounded down. The bound on `n` keeps the binary
/// search arithmetic inside `u64`.
pub fn isqrt(n: u64) -> (r: u64)
    requires
        n as int <= 4_000_000_000_000_000_000,
    ensures
        is_sqrt_floor(n as int, r as int),
        r as int == sqrt_floor(n as int),
        r as int <= 2_000_000_000,
{
    let mut lo: u64 = 0;
    let mut hi: u64 = 2_000_000_001;
    while lo + 1 < hi
        invariant
            lo < hi <= 2_000_000_001,
            (lo as int) * (lo as int) <= n as int,
            (hi as int) * (hi as int) > n as int,
            n as int <= 4_000_000_000_000_000_000,
        decreases hi - lo,
    {
        let mid = lo + (hi - lo) / 2;
        proof {
            assert(mid as int * mid as int <= 4_000_000_004_000_000_000) by (nonlinear_arith)
                requires
                    0 <= mid as int <= 2_000_000_000,
            ;
        }
        let sq = mid * mid;
        if sq <= n {
            lo = mid;
        } else {
            hi = mid;
        }
    }
    proof {
        assert(is_sqrt_floor(n as int, lo as int));
        lemma_sqrt_floor_agrees(n as int, lo as int);
    }
    lo
}

} // verus!
