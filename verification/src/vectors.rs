//! Plain 2- and 3-component fixed-point vectors.
//!
//! Components are fixed-point thousandths, like every other scalar in the
//! crate. The only non-trivial operations the records need are the Euclidean
//! length of a 2-vector and its normalization, both rounded down to the
//! fixed-point grid.

use crate::fixed::div_toward_zero;
use crate::fixed::is_sqrt_floor;
use crate::fixed::isqrt;
use crate::fixed::lemma_sqrt_floor_exists;
use crate::fixed::sqrt_floor;
use crate::fixed::ISQRT_ARG_BOUND;
use crate::fixed::SCALE;
use vstd::arithmetic::div_mod::lemma_div_is_ordered;
use vstd::arithmetic::div_mod::lemma_div_multiples_vanish;
use vstd::arithmetic::div_mod::lemma_div_pos_is_pos;
use vstd::prelude::*;

verus! {

/// Largest component magnitude accepted by the length and direction
/// operations: the squared length must stay within [`isqrt`]'s domain.
pub const MAG_LIMIT: i64 = 2_000_000_000_000;

/// A 2D vector of fixed-point thousandths.
#[derive(Debug, Clone, Copy, PartialEq, Eq)]
pub struct Vec2Fx {
    pub x: i64,
    pub y: i64,
}

/// A 3D vector of fixed-point thousandths.
#[derive(Debug, Clone, Copy, PartialEq, Eq)]
pub struct Vec3Fx {
    pub x: i64,
    pub y: i64,
    pub z: i64,
}

/// The squared Euclidean length of `v`.
pub open spec fn norm2(v: Vec2Fx) -> int {
    v.x * v.x + v.y * v.y
}

impl Vec2Fx {
    /// Both components lie within [`MAG_LIMIT`].
    pub open spec fn in_mag_limit(self) -> bool {
        &&& -MAG_LIMIT <= self.x <= MAG_LIMIT
        &&& -MAG_LIMIT <= self.y <= MAG_LIMIT
    }

    /// The zero vector.
    pub open spec fn spec_zero() -> Vec2Fx {
        Vec2Fx { x: 0, y: 0 }
    }

    pub fn new(x: i64, y: i64) -> (r: Vec2Fx)
        ensures
            r == (Vec2Fx { x, y }),
    {
        Vec2Fx { x, y }
    }

    pub fn zero() -> (r: Vec2Fx)
        ensures
            r == Self::spec_zero(),
    {
        Vec2Fx { x: 0, y: 0 }
    }

    /// Euclidean length, rounded down to the fixed-point grid.
    pub fn length(&self) -> (r: i64)
        requires
            self.in_mag_limit(),
        ensures
            r as int == sqrt_floor(norm2(*self)),
            r >= 0,
            r == 0 <==> *self == Self::spec_zero(),
    {
        let n2 = self.norm2_exec();
        let r = isqrt(n2);
        proof {
            lemma_norm2_zero(*self);
            if n2 == 0 {
                assert(r as int == 0) by (nonlinear_arith)
                    requires
                        0 <= r as int,
                        (r as int) * (r as int) <= 0,
                ;
            }
        }
        r as i64
    }

    /// The normalized direction of `self`, as fixed-point thousandths, or
    /// the zero vector when `self` is exactly zero. Each component of a
    /// non-zero result is the true quotient rounded toward zero; the result
    /// of a non-zero input is never the zero vector.
    pub fn normalize_or_zero(&self) -> (r: Vec2Fx)
        requires
            self.in_mag_limit(),
        ensures
            *self == Self::spec_zero() ==> r == Self::spec_zero(),
            *self != Self::spec_zero() ==> {
                &&& r.x == div_toward_zero(self.x * SCALE, sqrt_floor(norm2(*self)))
                &&& r.y == div_toward_zero(self.y * SCALE, sqrt_floor(norm2(*self)))
            },
            *self != Self::spec_zero() ==> r != Self::spec_zero(),
            *self != Self::spec_zero() ==> (SCALE / 2) * (SCALE / 2) <= norm2(r),
            norm2(r) <= 2 * (SCALE * SCALE),
            -SCALE <= r.x <= SCALE,
            -SCALE <= r.y <= SCALE,
    {
        let n2 = self.norm2_exec();
        proof {
            lemma_norm2_zero(*self);
        }
        if n2 == 0 {
            Vec2Fx { x: 0, y: 0 }
        } else {
            let d = isqrt(n2);
            proof {
                lemma_component_le_root(self.x as int, self.y as int, d as int);
                lemma_component_le_root(self.y as int, self.x as int, d as int);
            }
            let rx = scaled_quotient(self.x, d);
            let ry = scaled_quotient(self.y, d);
            proof {
                lemma_larger_component_stays(self.x as int, self.y as int, d as int);
                assert(rx * rx + ry * ry <= 2 * ((SCALE as int) * (SCALE as int)))
                    by (nonlinear_arith)
                    requires
                        -(SCALE as int) <= rx as int <= SCALE as int,
                        -(SCALE as int) <= ry as int <= SCALE as int,
                ;
            }
            Vec2Fx { x: rx, y: ry }
        }
    }

    /// The squared length, as an unsigned word within [`isqrt`]'s domain.
    fn norm2_exec(&self) -> (r: u128)
        requires
            self.in_mag_limit(),
        ensures
            r as int == norm2(*self),
            r < ISQRT_ARG_BOUND,
    {
        proof {
            lemma_norm2_in_domain(self.x as int, self.y as int);
        }
        let x = self.x as i128;
        let y = self.y as i128;
        (x * x + y * y) as u128
    }
}

impl Vec3Fx {
    pub fn new(x: i64, y: i64, z: i64) -> (r: Vec3Fx)
        ensures
            r == (Vec3Fx { x, y, z }),
    {
        Vec3Fx { x, y, z }
    }
}

/// One component of a normalized vector: `c * SCALE / d`, rounded toward
/// zero.
fn scaled_quotient(c: i64, d: u128) -> (r: i64)
    requires
        d >= 1,
        -(d as int) <= c as int <= d as int,
    ensures
        r as int == div_toward_zero(c * SCALE, d as int),
        -SCALE <= r <= SCALE,
{
    proof {
        lemma_scaled_quotient_bounds(c as int, d as int);
    }
    if c >= 0 {
        let q = (c as u128) * (SCALE as u128) / d;
        q as i64
    } else {
        let neg = (-(c as i128)) as u128;
        let q = neg * (SCALE as u128) / d;
        -(q as i64)
    }
}

/// A squared length of in-limit components stays within [`isqrt`]'s domain.
proof fn lemma_norm2_in_domain(x: int, y: int)
    requires
        -MAG_LIMIT <= x <= MAG_LIMIT,
        -MAG_LIMIT <= y <= MAG_LIMIT,
    ensures
        0 <= x * x + y * y < ISQRT_ARG_BOUND,
        x * x >= 0,
        y * y >= 0,
{
    assert(0 <= x * x + y * y < ISQRT_ARG_BOUND && x * x >= 0 && y * y >= 0)
        by (nonlinear_arith)
        requires
            -MAG_LIMIT <= x <= MAG_LIMIT,
            -MAG_LIMIT <= y <= MAG_LIMIT,
            MAG_LIMIT == 2_000_000_000_000i64,
            ISQRT_ARG_BOUND == 0x4_0000_0000_0000 * 0x4_0000_0000_0000u128,
    ;
}

/// The squared length is zero exactly when both components are zero, and a
/// non-zero vector has a length of at least one fixed-point step.
proof fn lemma_norm2_zero(v: Vec2Fx)
    ensures
        norm2(v) == 0 <==> v == Vec2Fx::spec_zero(),
        norm2(v) >= 0,
        norm2(v) != 0 ==> sqrt_floor(norm2(v)) >= 1,
{
    assert((v.x * v.x + v.y * v.y == 0 <==> v.x == 0 && v.y == 0) && v.x * v.x + v.y
        * v.y >= 0) by (nonlinear_arith);
    if v.x == 0 && v.y == 0 {
        assert(v == Vec2Fx::spec_zero());
    }
    if norm2(v) != 0 {
        lemma_sqrt_floor_exists(norm2(v));
        let n = norm2(v);
        let r = sqrt_floor(n);
        assert(r >= 1) by (nonlinear_arith)
            requires
                0 <= r,
                1 <= n,
                n < (r + 1) * (r + 1),
        ;
    }
}

/// Each component's magnitude is at most the rounded-down length.
proof fn lemma_component_le_root(c: int, o: int, d: int)
    requires
        is_sqrt_floor(c * c + o * o, d),
    ensures
        -d <= c <= d,
{
    assert(o * o >= 0) by (nonlinear_arith);
    assert(-d <= c <= d) by (nonlinear_arith)
        requires
            0 <= d,
            c * c + o * o < (d + 1) * (d + 1),
            o * o >= 0,
    ;
}

/// Bounds for one normalized component: `|c| <= d` keeps the quotient
/// within `[-SCALE, SCALE]`.
proof fn lemma_scaled_quotient_bounds(c: int, d: int)
    requires
        d >= 1,
        -d <= c <= d,
    ensures
        -SCALE <= div_toward_zero(c * SCALE, d) <= SCALE,
        c >= 0 ==> div_toward_zero(c * SCALE, d) == c * SCALE / d,
        c < 0 ==> div_toward_zero(c * SCALE, d) == -((-c) * SCALE / d),
        c >= 0 ==> 0 <= c * SCALE / d <= SCALE,
        c < 0 ==> 0 <= (-c) * SCALE / d <= SCALE,
{
    let m = if c >= 0 { c } else { -c };
    assert(0 <= m <= d);
    assert(m * SCALE <= d * SCALE && m * SCALE >= 0 && d * SCALE == d * (SCALE as int))
        by (nonlinear_arith)
        requires
            0 <= m <= d,
            SCALE == 1000i64,
    ;
    lemma_div_is_ordered(m * SCALE, d * SCALE, d);
    lemma_div_multiples_vanish(SCALE as int, d);
    assert(d * SCALE == d * (SCALE as int));
    assert(m * SCALE / d <= SCALE);
    lemma_div_pos_is_pos(m * SCALE, d);
    if c >= 0 {
        assert(c * SCALE >= 0);
        assert(div_toward_zero(c * SCALE, d) == c * SCALE / d);
    } else {
        assert(c * SCALE < 0);
        assert(-(c * SCALE) == m * SCALE);
        assert(div_toward_zero(c * SCALE, d) == -(m * SCALE / d));
    }
}

/// Normalizing a non-zero vector yields a non-zero vector: the component of
/// larger magnitude keeps at least half of [`SCALE`], so the result's
/// squared length is at least `(SCALE / 2)^2`.
proof fn lemma_larger_component_stays(x: int, y: int, d: int)
    requires
        is_sqrt_floor(x * x + y * y, d),
        x != 0 || y != 0,
    ensures
        div_toward_zero(x * SCALE, d) != 0 || div_toward_zero(y * SCALE, d) != 0,
        (SCALE / 2) * (SCALE / 2) <= div_toward_zero(x * SCALE, d) * div_toward_zero(
            x * SCALE,
            d,
        ) + div_toward_zero(y * SCALE, d) * div_toward_zero(y * SCALE, d),
{
    let m = if x * x >= y * y {
        if x >= 0 {
            x
        } else {
            -x
        }
    } else {
        if y >= 0 {
            y
        } else {
            -y
        }
    };
    assert(m >= 1 && x * x + y * y >= 1 && x * x + y * y <= 2 * (m * m)) by (nonlinear_arith)
        requires
            x != 0 || y != 0,
            m == (if x * x >= y * y {
                if x >= 0 {
                    x
                } else {
                    -x
                }
            } else {
                if y >= 0 {
                    y
                } else {
                    -y
                }
            }),
    ;
    assert(d >= 1) by (nonlinear_arith)
        requires
            0 <= d,
            x * x + y * y >= 1,
            x * x + y * y < (d + 1) * (d + 1),
    ;
    assert(d < 2 * m) by (nonlinear_arith)
        requires
            0 <= d,
            1 <= m,
            d * d <= 2 * (m * m),
    ;
    assert((SCALE / 2) * d <= m * SCALE && (SCALE / 2) * d == d * (SCALE / 2))
        by (nonlinear_arith)
        requires
            d < 2 * m,
            1 <= m,
            0 <= d,
            SCALE == 1000i64,
    ;
    lemma_div_is_ordered((SCALE / 2) * d, m * SCALE, d);
    lemma_div_multiples_vanish(SCALE / 2, d);
    let q = m * SCALE / d;
    assert(q >= SCALE / 2);
    let qx = div_toward_zero(x * SCALE, d);
    let qy = div_toward_zero(y * SCALE, d);
    assert(qx * qx >= 0 && qy * qy >= 0) by (nonlinear_arith);
    if x * x >= y * y {
        if x >= 0 {
            assert(x * SCALE == m * SCALE && x * SCALE >= 0);
            assert(qx == q);
        } else {
            assert(x * SCALE < 0 && -(x * SCALE) == m * SCALE) by (nonlinear_arith)
                requires
                    x < 0,
                    m == -x,
                    SCALE == 1000i64,
            ;
            assert(qx == -q);
        }
        assert(qx != 0);
        assert(qx * qx >= (SCALE / 2) * (SCALE / 2)) by (nonlinear_arith)
            requires
                qx == q || qx == -q,
                q >= 500,
        ;
    } else {
        if y >= 0 {
            assert(y * SCALE == m * SCALE && y * SCALE >= 0);
            assert(qy == q);
        } else {
            assert(y * SCALE < 0 && -(y * SCALE) == m * SCALE) by (nonlinear_arith)
                requires
                    y < 0,
                    m == -y,
                    SCALE == 1000i64,
            ;
            assert(qy == -q);
        }
        assert(qy != 0);
        assert(qy * qy >= (SCALE / 2) * (SCALE / 2)) by (nonlinear_arith)
            requires
                qy == q || qy == -q,
                q >= 500,
        ;
    }
}

} // verus!
