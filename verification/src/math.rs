//! Fixed-point scalar arithmetic: the renderer works on integers that carry
//! `SCALE` fixed-point units per world unit, so every distance computation is
//! exact integer arithmetic.

use vstd::prelude::*;

verus! {

use vstd::arithmetic::div_mod::{
    lemma_div_is_ordered, lemma_div_pos_is_pos, lemma_div_by_multiple, lemma_div_nonincreasing,
};

/// Number of fixed-point units in one world unit.
pub const SCALE: i64 = 4096;

/// Truncating (toward zero) division by a positive divisor, the semantics of
/// every fixed-point division in this crate.
pub open spec fn tdiv(a: int, b: int) -> int {
    if a >= 0 {
        a / b
    } else {
        -((-a) / b)
    }
}

/// Floor of the square root of a nonnegative integer.
pub open spec fn sqrt_floor(n: nat) -> nat
    decreases n,
{
    if n == 0 {
        0
    } else {
        let r = sqrt_floor((n - 1) as nat);
        if (r + 1) * (r + 1) <= n {
            r + 1
        } else {
            r
        }
    }
}

/// `r` is the floor square root of `n`.
pub open spec fn is_sqrt_floor(n: int, r: int) -> bool {
    0 <= r && r * r <= n < (r + 1) * (r + 1)
}

pub proof fn lemma_sqrt_floor_correct(n: nat)
    ensures
        is_sqrt_floor(n as int, sqrt_floor(n) as int),
    decreases n,
{
    if n == 0 {
    } else {
        lemma_sqrt_floor_correct((n - 1) as nat);
        let r = sqrt_floor((n - 1) as nat) as int;
        if (r + 1) * (r + 1) <= n {
            assert(n == (r + 1) * (r + 1));
            assert(n < (r + 2) * (r + 2)) by (nonlinear_arith)
                requires
                    n == (r + 1) * (r + 1),
                    0 <= r,
            ;
        }
    }
}

pub proof fn lemma_sqrt_floor_unique(n: int, r: int)
    requires
        is_sqrt_floor(n, r),
    ensures
        r == sqrt_floor(n as nat),
{
    lemma_sqrt_floor_correct(n as nat);
    let s = sqrt_floor(n as nat) as int;
    if r < s {
        assert(false) by (nonlinear_arith)
            requires
                0 <= r < s,
                s * s <= n,
                n < (r + 1) * (r + 1),
        ;
    }
    if s < r {
        assert(false) by (nonlinear_arith)
            requires
                0 <= s < r,
                r * r <= n,
                n < (s + 1) * (s + 1),
        ;
    }
}

/// An upper witness square bounds the floor square root from above.
pub proof fn lemma_sqrt_floor_le(n: int, m: int)
    requires
        0 <= n,
        0 <= m,
        n < (m + 1) * (m + 1),
    ensures
        sqrt_floor(n as nat) <= m,
{
    lemma_sqrt_floor_correct(n as nat);
    let s = sqrt_floor(n as nat) as int;
    if s > m {
        assert(false) by (nonlinear_arith)
            requires
                0 <= m < s,
                s * s <= n,
                n < (m + 1) * (m + 1),
        ;
    }
}

/// A lower witness square bounds the floor square root from below.
pub proof fn lemma_sqrt_floor_ge(n: int, m: int)
    requires
        0 <= m,
        m * m <= n,
    ensures
        m <= sqrt_floor(n as nat),
{
    lemma_sqrt_floor_correct(n as nat);
    let s = sqrt_floor(n as nat) as int;
    if s < m {
        assert(false) by (nonlinear_arith)
            requires
                0 <= s < m,
                m * m <= n,
                n < (s + 1) * (s + 1),
        ;
    }
}

/// Product of values bounded in absolute value is bounded by the product of the bounds.
pub proof fn lemma_mul_abs_bound(a: int, b: int, ca: int, cb: int)
    by (nonlinear_arith)
    requires
        -ca <= a <= ca,
        -cb <= b <= cb,
    ensures
        -(ca * cb) <= a * b <= ca * cb,
{
}

/// Truncating division keeps a quotient bound: if `|a| <= c * b` then `|tdiv(a, b)| <= c`.
pub proof fn lemma_tdiv_bounds(a: int, b: int, c: int)
    requires
        1 <= b,
        0 <= c,
        -(c * b) <= a <= c * b,
    ensures
        -c <= tdiv(a, b) <= c,
{
    if a >= 0 {
        lemma_div_pos_is_pos(a, b);
        lemma_div_is_ordered(a, c * b, b);
        lemma_div_by_multiple(c, b);
    } else {
        lemma_div_pos_is_pos(-a, b);
        lemma_div_is_ordered(-a, c * b, b);
        lemma_div_by_multiple(c, b);
    }
}

/// Exact integer square root of a `u128`, by binary search on the result.
pub fn isqrt(n: u128) -> (r: u64)
    ensures
        r as nat == sqrt_floor(n as nat),
        is_sqrt_floor(n as int, r as int),
{
    let mut lo: u64 = 0;
    let mut hi: u64 = u64::MAX;
    while lo < hi
        invariant
            lo <= hi,
            (lo as int) * (lo as int) <= n as int,
            (n as int) < (hi as int + 1) * (hi as int + 1),
        decreases hi - lo,
    {
        let mid: u64 = lo + (hi - lo) / 2 + 1;
        assert(lo < mid <= hi);
        let m: u128 = mid as u128;
        assert(m * m <= u128::MAX) by (nonlinear_arith)
            requires
                m < 0x10000000000000000,
        ;
        if m * m <= n {
            lo = mid;
        } else {
            hi = mid - 1;
        }
    }
    proof {
        lemma_sqrt_floor_unique(n as int, lo as int);
    }
    lo
}

/// Truncating division of a fixed-point value by a positive divisor.
pub fn div_trunc(a: i64, b: i64) -> (r: i64)
    requires
        1 <= b,
        -0x7fff_ffff_ffff_ffff <= a,
    ensures
        r == tdiv(a as int, b as int),
{
    if a >= 0 {
        let q: u64 = (a as u64) / (b as u64);
        proof {
            lemma_div_nonincreasing(a as int, b as int);
            lemma_div_pos_is_pos(a as int, b as int);
        }
        q as i64
    } else {
        let neg: u64 = (-a) as u64;
        let q: u64 = neg / (b as u64);
        proof {
            lemma_div_nonincreasing(neg as int, b as int);
            lemma_div_pos_is_pos(neg as int, b as int);
        }
        -(q as i64)
    }
}

/// The smaller of two fixed-point scalars.
pub fn min_i64(a: i64, b: i64) -> (r: i64)
    ensures
        r == vstd::math::min(a as int, b as int),
{
    if a <= b {
        a
    } else {
        b
    }
}

/// The larger of two fixed-point scalars.
pub fn max_i64(a: i64, b: i64) -> (r: i64)
    ensures
        r == vstd::math::max(a as int, b as int),
{
    if a >= b {
        a
    } else {
        b
    }
}

} // verus!
