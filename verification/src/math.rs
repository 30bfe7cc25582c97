//! Exact integer arithmetic the game systems are built on: truncating
//! division, integer square root, and 2D vectors with `i64` components.

use vstd::prelude::*;

verus! {

/// Absolute value.
pub open spec fn iabs(a: int) -> int {
    if a >= 0 {
        a
    } else {
        -a
    }
}

/// Division rounding toward zero, for a positive divisor.  On a nonnegative
/// dividend it agrees with Euclidean division.
pub open spec fn tdiv(a: int, d: int) -> int
    recommends
        d > 0,
{
    if a >= 0 {
        a / d
    } else {
        -((-a) / d)
    }
}

/// The integer square root: the largest `r` with `r * r <= n`.
pub open spec fn sqrt_floor(n: nat) -> nat
    decreases n,
{
    if n == 0 {
        0
    } else {
        let p = sqrt_floor((n - 1) as nat);
        if (p + 1) * (p + 1) <= n {
            p + 1
        } else {
            p
        }
    }
}

/// `sqrt_floor(n)` is indeed the floor of the square root of `n`.
pub proof fn lemma_sqrt_floor_bounds(n: nat)
    ensures
        sqrt_floor(n) * sqrt_floor(n) <= n,
        n < (sqrt_floor(n) + 1) * (sqrt_floor(n) + 1),
    decreases n,
{
    let s = sqrt_floor(n);
    if n == 0 {
        assert(s == 0);
        assert(s * s <= n) by (nonlinear_arith)
            requires
                s == 0 && n == 0,
        ;
        assert(n < (s + 1) * (s + 1)) by (nonlinear_arith)
            requires
                s == 0 && n == 0,
        ;
    } else {
        let p = sqrt_floor((n - 1) as nat);
        lemma_sqrt_floor_bounds((n - 1) as nat);
        assert(p * p <= n - 1 && n - 1 < (p + 1) * (p + 1));
        if (p + 1) * (p + 1) <= n {
            assert(s == p + 1);
            assert(s * s <= n);
            assert(n == (p + 1) * (p + 1));
            assert((p + 1) * (p + 1) < (p + 2) * (p + 2)) by (nonlinear_arith);
            assert(n < (s + 1) * (s + 1));
        } else {
            assert(s == p);
            assert(s * s <= n);
            assert(n < (s + 1) * (s + 1));
        }
    }
}

/// Any `r` squeezed between `r^2 <= n < (r+1)^2` is the integer square root.
pub proof fn lemma_sqrt_floor_unique(n: nat, r: nat)
    requires
        r * r <= n,
        n < (r + 1) * (r + 1),
    ensures
        r == sqrt_floor(n),
{
    let s = sqrt_floor(n);
    lemma_sqrt_floor_bounds(n);
    if r < s {
        assert((r + 1) * (r + 1) <= s * s) by (nonlinear_arith)
            requires
                r + 1 <= s,
        ;
    }
    if s < r {
        assert((s + 1) * (s + 1) <= r * r) by (nonlinear_arith)
            requires
                s + 1 <= r,
        ;
    }
}

/// The integer square root is monotone.
pub proof fn lemma_sqrt_floor_mono(a: nat, b: nat)
    requires
        a <= b,
    ensures
        sqrt_floor(a) <= sqrt_floor(b),
{
    let ra = sqrt_floor(a);
    let rb = sqrt_floor(b);
    lemma_sqrt_floor_bounds(a);
    lemma_sqrt_floor_bounds(b);
    if ra > rb {
        assert(ra * ra >= (rb + 1) * (rb + 1)) by (nonlinear_arith)
            requires
                ra >= rb + 1,
        ;
    }
}

/// The integer square root of a perfect square.
pub proof fn lemma_sqrt_floor_square(a: nat)
    ensures
        sqrt_floor(a * a) == a,
{
    assert(a * a < (a + 1) * (a + 1)) by (nonlinear_arith);
    lemma_sqrt_floor_unique(a * a, a);
}

/// The magnitude of the scaled truncating division `tdiv(a * m, d)` is the
/// magnitude of `a` scaled the same way.
pub proof fn lemma_tdiv_magnitude(a: int, m: int, d: int)
    requires
        d > 0,
        m >= 0,
    ensures
        iabs(tdiv(a * m, d)) == iabs(a) * m / d,
{
    if a >= 0 {
        assert(a * m >= 0) by (nonlinear_arith)
            requires
                a >= 0 && m >= 0,
        ;
        assert(a * m / d >= 0) by (nonlinear_arith)
            requires
                a * m >= 0 && d > 0,
        ;
    } else {
        assert(a * m <= 0) by (nonlinear_arith)
            requires
                a <= 0 && m >= 0,
        ;
        assert(-(a * m) == iabs(a) * m) by (nonlinear_arith)
            requires
                a < 0 && iabs(a) == -a,
        ;
        assert(-(a * m) / d >= 0) by (nonlinear_arith)
            requires
                -(a * m) >= 0 && d > 0,
        ;
    }
}

/// Absolute value of an `i64`, as a `u64`.
pub fn abs_i64(x: i64) -> (r: u64)
    requires
        x > i64::MIN,
    ensures
        r == iabs(x as int),
{
    if x >= 0 {
        x as u64
    } else {
        (-x) as u64
    }
}

/// Integer square root of a `u128`, by binary search.
pub fn isqrt_u128(n: u128) -> (r: u128)
    requires
        n < 0x4000_0000_0000_0000_0000_0000_0000_0000,
    ensures
        r == sqrt_floor(n as nat),
        r * r <= n,
        n < (r + 1) * (r + 1),
{
    let mut lo: u128 = 0;
    let mut hi: u128 = 0x8000_0000_0000_0000;
    assert((n as nat) < (hi as nat) * (hi as nat)) by (nonlinear_arith)
        requires
            n < 0x4000_0000_0000_0000_0000_0000_0000_0000 && hi == 0x8000_0000_0000_0000,
    ;
    while lo + 1 < hi
        invariant
            lo < hi <= 0x8000_0000_0000_0000,
            (lo as nat) * (lo as nat) <= n as nat,
            (n as nat) < (hi as nat) * (hi as nat),
        decreases hi - lo,
    {
        let mid: u128 = lo + (hi - lo) / 2;
        assert((mid as nat) * (mid as nat) < 0x1_0000_0000_0000_0000_0000_0000_0000_0000) by (nonlinear_arith)
            requires
                mid <= 0x8000_0000_0000_0000,
        ;
        if mid * mid <= n {
            lo = mid;
        } else {
            hi = mid;
        }
    }
    proof {
        lemma_sqrt_floor_unique(n as nat, lo as nat);
    }
    lo
}

/// Computes `tdiv(a * m, d)` exactly: the magnitude is taken through `u128`,
/// so no intermediate product can overflow.
pub fn mul_div_trunc(a: i64, m: u64, d: u64) -> (r: i64)
    requires
        d > 0,
        a > i64::MIN,
        iabs(a as int) * m / (d as int) <= i64::MAX,
    ensures
        r == tdiv(a as int * m as int, d as int),
        iabs(r as int) == iabs(a as int) * m / (d as int),
{
    let av: u64 = abs_i64(a);
    assert((av as int) * (m as int) < 0x1_0000_0000_0000_0000_0000_0000_0000_0000) by (nonlinear_arith)
        requires
            av <= u64::MAX && m <= u64::MAX,
    ;
    let mag: u128 = (av as u128) * (m as u128);
    assert(mag == iabs(a as int) * m);
    let q: u128 = mag / (d as u128);
    proof {
        assert(q == iabs(a as int) * m / (d as int));
        if a >= 0 {
            assert(a as int * m as int == iabs(a as int) * m);
        } else {
            assert(-(a as int * m as int) == iabs(a as int) * m) by (nonlinear_arith)
                requires
                    a < 0 && iabs(a as int) == -(a as int),
            ;
        }
    }
    if a >= 0 {
        q as i64
    } else {
        -(q as i64)
    }
}

/// A 2D vector (or point) with exact integer components.
#[derive(Clone, Copy, PartialEq, Eq, Structural, Debug)]
pub struct Vec2 {
    pub x: i64,
    pub y: i64,
}

impl Vec2 {
    /// The origin.
    pub fn zero() -> (r: Vec2)
        ensures
            r == (Vec2 { x: 0, y: 0 }),
    {
        Vec2 { x: 0, y: 0 }
    }

    /// Both components lie within `[-m, m]`.
    pub open spec fn in_range(self, m: int) -> bool {
        -m <= self.x <= m && -m <= self.y <= m
    }
}

} // verus!
