//! Fixed-point 2D vectors, their rounded-down Euclidean norm, and rescaling
//! to a fixed-point unit vector.

use vstd::prelude::*;
use crate::fixed::{div_trunc, is_sqrt_floor, isqrt, lemma_tdiv_mag, sqrt_floor, tdiv};
use crate::SCALE;

verus! {

/// A 2D vector of fixed-point components.
#[derive(Clone, Copy, PartialEq, Eq, Structural, Debug)]
pub struct Vec2 {
    pub x: i64,
    pub y: i64,
}

/// Mathematical value of a `Vec2`: unbounded integer components.
pub ghost struct Vec2V {
    pub x: int,
    pub y: int,
}

impl View for Vec2 {
    type V = Vec2V;

    open spec fn view(&self) -> Vec2V {
        Vec2V { x: self.x as int, y: self.y as int }
    }
}

impl Vec2 {
    /// Builds the vector `(x, y)`.
    pub fn new(x: i64, y: i64) -> (r: Vec2)
        ensures
            r@ == (Vec2V { x: x as int, y: y as int }),
    {
        Vec2 { x, y }
    }
}

/// Rounded-down Euclidean length of `v`.
pub open spec fn norm_v(v: Vec2V) -> int {
    sqrt_floor(v.x * v.x + v.y * v.y)
}

/// `v` rescaled to length `SCALE` (a fixed-point unit vector), truncating.
pub open spec fn normalize_v(v: Vec2V) -> Vec2V {
    let n = norm_v(v);
    Vec2V { x: tdiv(v.x * SCALE as int, n), y: tdiv(v.y * SCALE as int, n) }
}

/// Rounded-down Euclidean length of `v`.
pub fn norm(v: Vec2) -> (r: i64)
    requires
        -1_400_000_000 <= v.x <= 1_400_000_000,
        -1_400_000_000 <= v.y <= 1_400_000_000,
    ensures
        r as int == norm_v(v@),
        is_sqrt_floor(v@.x * v@.x + v@.y * v@.y, r as int),
        0 <= r <= 2_000_000_000,
{
    proof {
        assert(0 <= v.x as int * v.x as int <= 1_960_000_000_000_000_000) by (nonlinear_arith)
            requires
                -1_400_000_000 <= v.x as int <= 1_400_000_000,
        ;
        assert(0 <= v.y as int * v.y as int <= 1_960_000_000_000_000_000) by (nonlinear_arith)
            requires
                -1_400_000_000 <= v.y as int <= 1_400_000_000,
        ;
    }
    let xx = v.x * v.x;
    let yy = v.y * v.y;
    let s = (xx + yy) as u64;
    let r = isqrt(s);
    r as i64
}

/// `v` rescaled to length `SCALE`. The result keeps every component within
/// `SCALE` in magnitude and is nonzero whenever `v` is nonzero.
pub fn normalize(v: Vec2) -> (r: Vec2)
    requires
        v.x != 0 || v.y != 0,
        -1_400_000_000 <= v.x <= 1_400_000_000,
        -1_400_000_000 <= v.y <= 1_400_000_000,
    ensures
        r@ == normalize_v(v@),
        -SCALE <= r.x <= SCALE,
        -SCALE <= r.y <= SCALE,
        r.x != 0 || r.y != 0,
{
    let n = norm(v);
    let ghost m = v@.x * v@.x + v@.y * v@.y;
    proof {
        assert(1 <= m) by (nonlinear_arith)
            requires
                v@.x != 0 || v@.y != 0,
                m == v@.x * v@.x + v@.y * v@.y,
        ;
        // n == 0 would force (0 + 1) * (0 + 1) > m, impossible for m >= 1.
        assert(1 <= n as int);
        // Each component is at most the norm in magnitude.
        assert(-(n as int) <= v@.x <= n as int) by (nonlinear_arith)
            requires
                (n as int + 1) * (n as int + 1) > m,
                m == v@.x * v@.x + v@.y * v@.y,
                0 <= n as int,
        ;
        assert(-(n as int) <= v@.y <= n as int) by (nonlinear_arith)
            requires
                (n as int + 1) * (n as int + 1) > m,
                m == v@.x * v@.x + v@.y * v@.y,
                0 <= n as int,
        ;
    }
    let sx = v.x * SCALE;
    let sy = v.y * SCALE;
    let rx = div_trunc(sx, n);
    let ry = div_trunc(sy, n);
    proof {
        lemma_tdiv_mag(sx as int, n as int, SCALE as int);
        lemma_tdiv_mag(sy as int, n as int, SCALE as int);
        lemma_normalized_component_nonzero(v@, n as int);
    }
    Vec2 { x: rx, y: ry }
}

/// For a nonzero `v` whose rounded-down norm is `n`, the larger component,
/// rescaled by `SCALE` and divided by `n`, does not truncate to zero.
proof fn lemma_normalized_component_nonzero(v: Vec2V, n: int)
    requires
        v.x != 0 || v.y != 0,
        is_sqrt_floor(v.x * v.x + v.y * v.y, n),
        1 <= n,
    ensures
        tdiv(v.x * SCALE as int, n) != 0 || tdiv(v.y * SCALE as int, n) != 0,
{
    let ax = if v.x >= 0 {
        v.x
    } else {
        -v.x
    };
    let ay = if v.y >= 0 {
        v.y
    } else {
        -v.y
    };
    let mx = if ax >= ay {
        ax
    } else {
        ay
    };
    assert(1 <= mx);
    assert(v.x * v.x + v.y * v.y <= 2 * (mx * mx)) by (nonlinear_arith)
        requires
            -mx <= v.x <= mx,
            -mx <= v.y <= mx,
            0 <= mx,
    ;
    assert(n <= 1000 * mx) by (nonlinear_arith)
        requires
            n * n <= 2 * (mx * mx),
            1 <= mx,
            0 <= n,
    ;
    vstd::arithmetic::div_mod::lemma_div_is_ordered(n, 1000 * mx, n);
    vstd::arithmetic::div_mod::lemma_div_by_self(n);
    assert((1000 * mx) / n >= 1);
    if ax >= ay {
        assert(tdiv(v.x * SCALE as int, n) != 0);
    } else {
        assert(tdiv(v.y * SCALE as int, n) != 0);
    }
}

} // verus!
