//! Fixed-point scalars and the clamping arithmetic shared by all records.
//!
//! Every scalar in this crate is an `i64` counted in thousandths of a unit:
//! the value `1500` stands for one and a half health points, seconds, or
//! world-space units. [`SCALE`] is the number of fixed-point steps in one
//! unit; a ratio of a current value to a maximum is therefore a number in
//! `[0, SCALE]`.

use vstd::arithmetic::div_mod::lemma_div_is_ordered;
use vstd::arithmetic::div_mod::lemma_div_multiples_vanish;
use vstd::arithmetic::div_mod::lemma_div_pos_is_pos;
use vstd::prelude::*;

verus! {

/// Number of fixed-point steps in one unit: all scalars are thousandths.
pub const SCALE: i64 = 1000;

/// The non-negative part of `v`: `v` clamped from below at zero.
pub open spec fn pos_part(v: int) -> int {
    if v < 0 {
        0
    } else {
        v
    }
}

/// `v` clamped from above at `hi`.
pub open spec fn capped(v: int, hi: int) -> int {
    if v > hi {
        hi
    } else {
        v
    }
}

/// `v` clamped to the closed interval `[lo, hi]`.
pub open spec fn clamped(v: int, lo: int, hi: int) -> int {
    if v < lo {
        lo
    } else if v > hi {
        hi
    } else {
        v
    }
}

/// The ratio of `current` to `max` as a fixed-point fraction in
/// `[0, SCALE]`; exactly `0` when `max <= 0`.
pub open spec fn ratio_of(current: int, max: int) -> int {
    if max <= 0 {
        0
    } else {
        clamped(current * SCALE / max, 0, SCALE as int)
    }
}

/// The energy regained over `dt` fixed-point seconds at `rate` energy per
/// second: `rate * dt`, rescaled to the fixed-point grid, rounded down.
pub open spec fn regen_amount(rate: int, dt: int) -> int {
    rate * dt / (SCALE as int)
}

/// With `0 <= current <= max`, the ratio stays in `[0, SCALE]` and the
/// clamp in [`ratio_of`] never bites.
pub proof fn lemma_ratio_in_range(current: int, max: int)
    requires
        0 <= current <= max,
    ensures
        0 <= ratio_of(current, max) <= SCALE,
        max > 0 ==> ratio_of(current, max) == current * SCALE / max,
        max <= 0 ==> ratio_of(current, max) == 0,
{
    if max > 0 {
        assert(current * SCALE <= max * SCALE && current * SCALE >= 0 && max * SCALE == max * (
        SCALE as int)) by (nonlinear_arith)
            requires
                0 <= current <= max,
                SCALE == 1000i64,
        ;
        lemma_div_is_ordered(current * SCALE, max * SCALE, max);
        lemma_div_multiples_vanish(SCALE as int, max);
        lemma_div_pos_is_pos(current * SCALE, max);
        assert(current * SCALE / max <= SCALE);
    }
}

/// Division rounded toward zero, for a positive divisor `b`.
pub open spec fn div_toward_zero(a: int, b: int) -> int {
    if a >= 0 {
        a / b
    } else {
        -((-a) / b)
    }
}

/// `r` is the integer square root of `n`, rounded down.
pub open spec fn is_sqrt_floor(n: int, r: int) -> bool {
    &&& 0 <= r
    &&& r * r <= n
    &&& n < (r + 1) * (r + 1)
}

/// The integer square root of `n`, rounded down. Meaningful for `n >= 0`;
/// [`lemma_sqrt_floor_exists`] shows that it satisfies [`is_sqrt_floor`].
pub closed spec fn sqrt_floor(n: int) -> int {
    choose|r: int| is_sqrt_floor(n, r)
}

/// Every non-negative integer has a rounded-down square root.
pub proof fn lemma_sqrt_floor_exists(n: int)
    requires
        0 <= n,
    ensures
        is_sqrt_floor(n, sqrt_floor(n)),
    decreases n,
{
    if n == 0 {
        assert(is_sqrt_floor(0, 0)) by (nonlinear_arith);
    } else {
        lemma_sqrt_floor_exists(n - 1);
        let r = sqrt_floor(n - 1);
        if (r + 1) * (r + 1) <= n {
            assert(n < (r + 2) * (r + 2)) by (nonlinear_arith)
                requires
                    0 <= r,
                    n - 1 < (r + 1) * (r + 1),
            ;
            assert(is_sqrt_floor(n, r + 1));
        } else {
            assert(is_sqrt_floor(n, r));
        }
    }
    assert(exists|r: int| is_sqrt_floor(n, r));
}

/// The rounded-down square root is unique.
pub proof fn lemma_sqrt_floor_unique(n: int, r: int)
    requires
        is_sqrt_floor(n, r),
    ensures
        r == sqrt_floor(n),
{
    let s = sqrt_floor(n);
    assert(is_sqrt_floor(n, s));
    assert(r == s) by (nonlinear_arith)
        requires
            0 <= r,
            r * r <= n,
            n < (r + 1) * (r + 1),
            0 <= s,
            s * s <= n,
            n < (s + 1) * (s + 1),
    ;
}

/// Largest argument accepted by [`isqrt`]: the square of `2^50`.
pub const ISQRT_ARG_BOUND: u128 = 0x4_0000_0000_0000 * 0x4_0000_0000_0000;

/// Integer square root, rounded down, by bisection.
pub fn isqrt(n: u128) -> (r: u128)
    requires
        n < ISQRT_ARG_BOUND,
    ensures
        r as int == sqrt_floor(n as int),
        is_sqrt_floor(n as int, r as int),
        r < 0x4_0000_0000_0000,
{
    proof {
        lemma_sqrt_floor_exists(n as int);
    }
    if n == 0 {
        proof {
            lemma_sqrt_floor_unique(0, 0);
        }
        return 0;
    }
    let mut lo: u128 = 0;
    let mut hi: u128 = 0x4_0000_0000_0000;
    proof {
        assert((n as int) < (hi as int) * (hi as int));
    }
    while hi - lo > 1
        invariant
            lo < hi,
            hi <= 0x4_0000_0000_0000,
            (lo as int) * (lo as int) <= n as int,
            (n as int) < (hi as int) * (hi as int),
        decreases hi - lo,
    {
        let mid: u128 = lo + (hi - lo) / 2;
        assert(lo < mid < hi);
        assert((mid as int) * (mid as int) < ISQRT_ARG_BOUND) by (nonlinear_arith)
            requires
                0 < mid < 0x4_0000_0000_0000u128,
        ;
        let sq: u128 = mid * mid;
        if sq <= n {
            lo = mid;
        } else {
            hi = mid;
        }
    }
    proof {
        assert(hi == lo + 1);
        assert(is_sqrt_floor(n as int, lo as int));
        lemma_sqrt_floor_unique(n as int, lo as int);
    }
    lo
}

} // verus!
