//! Exact integer arithmetic behind the shape classifiers: floor division,
//! parity that is correct for negative numbers, and the integer square root.
//!
//! Spec-level `/` and `%` on `int` are Euclidean, which for a positive
//! divisor coincide with real-number division followed by floor, and with
//! a remainder in `[0, d)`. That makes them the right model for the
//! classifiers' `floor` and for a parity test that does not flip sign
//! across the origin.

use vstd::prelude::*;
use vstd::arithmetic::div_mod::{
    lemma_div_is_ordered, lemma_div_multiples_vanish, lemma_div_nonincreasing, lemma_div_of0,
    lemma_div_pos_is_pos,
};
use vstd::arithmetic::mul::lemma_mul_upper_bound;

verus! {

/// True when `x` is even. `%` on `int` is Euclidean, so the test is
/// correct for negative `x` as well.
pub open spec fn is_even(x: int) -> bool {
    x % 2 == 0
}

/// `r` is the integer square root of `n`: the floor of the real square
/// root, characterized without mentioning reals.
pub open spec fn is_sqrt(n: int, r: int) -> bool {
    0 <= r && r * r <= n && n < (r + 1) * (r + 1)
}

/// The floor of the real square root of `n` (arbitrary when `n < 0`).
pub open spec fn sqrt_floor(n: int) -> int {
    choose|r: int| #[trigger] is_sqrt(n, r)
}

/// The integer square root is unique.
pub proof fn lemma_sqrt_unique(n: int, r1: int, r2: int)
    by (nonlinear_arith)
    requires
        is_sqrt(n, r1),
        is_sqrt(n, r2),
    ensures
        r1 == r2,
{
}

/// A witness for `is_sqrt` is the value of `sqrt_floor`.
pub proof fn lemma_sqrt_floor_of(n: int, r: int)
    requires
        is_sqrt(n, r),
    ensures
        sqrt_floor(n) == r,
{
    assert(exists|x: int| #[trigger] is_sqrt(n, x));
    lemma_sqrt_unique(n, sqrt_floor(n), r);
}

/// Bounds of Euclidean division by a positive divisor: the quotient lies
/// between the dividend and zero.
proof fn lemma_floor_div_range(n: int, d: int)
    requires
        1 <= d,
    ensures
        n >= 0 ==> 0 <= n / d <= n,
        n < 0 ==> n <= n / d <= 0,
{
    if n >= 0 {
        lemma_div_pos_is_pos(n, d);
        lemma_div_nonincreasing(n, d);
    } else {
        lemma_div_is_ordered(n, 0, d);
        lemma_div_of0(d);
        assert(d * n <= n) by (nonlinear_arith)
            requires n < 0 && d >= 1;
        lemma_div_is_ordered(d * n, n, d);
        lemma_div_multiples_vanish(n, d);
    }
}

/// Floor division of `n` by a positive divisor `d`: rounds toward negative
/// infinity, so it agrees with the mathematical `floor(n / d)` also for
/// negative `n`.
pub fn floor_div(n: i64, d: i64) -> (q: i64)
    requires
        1 <= d,
    ensures
        q == n as int / d as int,
        n >= 0 ==> 0 <= q <= n,
        n < 0 ==> n <= q <= 0,
{
    proof {
        lemma_floor_div_range(n as int, d as int);
    }
    match n.checked_div_euclid(d) {
        Some(q) => q,
        None => 0,
    }
}

/// Parity of a possibly negative machine integer, by a genuine modulo-2
/// test rather than a sign-following remainder.
pub fn is_even_i64(x: i64) -> (r: bool)
    ensures
        r == is_even(x as int),
{
    match x.checked_rem_euclid(2) {
        Some(m) => m == 0,
        None => false,
    }
}

/// Integer square root of a 128-bit value, by bisection on the invariant
/// `lo² <= n < hi²`.
pub fn isqrt_u128(n: u128) -> (r: u64)
    ensures
        is_sqrt(n as int, r as int),
{
    let mut lo: u128 = 0;
    let mut hi: u128 = 0x1_0000_0000_0000_0000;
    while hi - lo > 1
        invariant
            0 <= lo < hi <= 0x1_0000_0000_0000_0000,
            (lo as int) * (lo as int) <= n as int,
            (n as int) < (hi as int) * (hi as int),
        decreases hi - lo,
    {
        let mid: u128 = lo + (hi - lo) / 2;
        proof {
            lemma_mul_upper_bound(mid as int, 0xffff_ffff_ffff_ffff, mid as int, 0xffff_ffff_ffff_ffff);
        }
        let sq: u128 = mid * mid;
        if sq <= n {
            lo = mid;
        } else {
            hi = mid;
        }
    }
    lo as u64
}

} // verus!
