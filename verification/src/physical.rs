//! Physical attribute records: position, health, energy, collision.
//!
//! Health and energy are clamped resources: their accessors sanitize every
//! input by clamping instead of rejecting it, and keep `0 <= current <= max`
//! across any sequence of calls. All scalars are fixed-point thousandths.

use crate::fixed::capped;
use crate::fixed::clamped;
use crate::fixed::div_toward_zero;
use crate::fixed::lemma_ratio_in_range;
use crate::fixed::pos_part;
use crate::fixed::ratio_of;
use crate::fixed::regen_amount;
use crate::fixed::sqrt_floor;
use crate::fixed::SCALE;
use crate::vectors::norm2;
use crate::vectors::Vec2Fx;
use crate::vectors::MAG_LIMIT;
use vstd::prelude::*;

verus! {

/// Entity position in 2D world space, in fixed-point thousandths.
#[derive(Debug, Clone, Copy, PartialEq)]
pub struct Position {
    pub x: i64,
    pub y: i64,
}

/// The squared distance between two positions.
pub open spec fn dist2(a: Position, b: Position) -> int {
    (a.x - b.x) * (a.x - b.x) + (a.y - b.y) * (a.y - b.y)
}

impl Position {
    /// Both coordinates lie within half of [`MAG_LIMIT`], so coordinate
    /// differences stay within the vector operations' domain.
    pub open spec fn in_world_range(self) -> bool {
        &&& -MAG_LIMIT / 2 <= self.x <= MAG_LIMIT / 2
        &&& -MAG_LIMIT / 2 <= self.y <= MAG_LIMIT / 2
    }

    pub fn new(x: i64, y: i64) -> (r: Position)
        ensures
            r == (Position { x, y }),
    {
        Position { x, y }
    }

    pub fn zero() -> (r: Position)
        ensures
            r.x == 0 && r.y == 0,
    {
        Position::new(0, 0)
    }

    pub fn from_vec2(vec: Vec2Fx) -> (r: Position)
        ensures
            r.x == vec.x && r.y == vec.y,
    {
        Position::new(vec.x, vec.y)
    }

    pub fn to_vec2(&self) -> (r: Vec2Fx)
        ensures
            r.x == self.x && r.y == self.y,
    {
        Vec2Fx::new(self.x, self.y)
    }

    /// Euclidean distance to `other`, rounded down to the fixed-point grid.
    pub fn distance_to(&self, other: &Position) -> (r: i64)
        requires
            self.in_world_range(),
            other.in_world_range(),
        ensures
            r as int == sqrt_floor(dist2(*self, *other)),
            r >= 0,
            r == 0 <==> (self.x == other.x && self.y == other.y),
    {
        let v = Vec2Fx::new(self.x - other.x, self.y - other.y);
        v.length()
    }

    /// Unit direction toward `other` in fixed-point thousandths, or the zero
    /// vector when the positions coincide.
    pub fn direction_to(&self, other: &Position) -> (r: Vec2Fx)
        requires
            self.in_world_range(),
            other.in_world_range(),
        ensures
            (self.x == other.x && self.y == other.y) ==> r == Vec2Fx::spec_zero(),
            !(self.x == other.x && self.y == other.y) ==> {
                &&& r.x == div_toward_zero((other.x - self.x) * SCALE, sqrt_floor(dist2(*self, *other)))
                &&& r.y == div_toward_zero((other.y - self.y) * SCALE, sqrt_floor(dist2(*self, *other)))
                &&& r != Vec2Fx::spec_zero()
                &&& (SCALE / 2) * (SCALE / 2) <= norm2(r)
            },
            norm2(r) <= 2 * (SCALE * SCALE),
            -SCALE <= r.x <= SCALE,
            -SCALE <= r.y <= SCALE,
    {
        let v = Vec2Fx::new(other.x - self.x, other.y - self.y);
        proof {
            assert(norm2(v) == dist2(*self, *other)) by (nonlinear_arith)
                requires
                    v.x == other.x - self.x,
                    v.y == other.y - self.y,
            ;
        }
        v.normalize_or_zero()
    }

    /// Clamp the position into the axis-aligned box `[min_x, max_x] x
    /// [min_y, max_y]`.
    pub fn clamp_to_bounds(&mut self, min_x: i64, max_x: i64, min_y: i64, max_y: i64)
        requires
            min_x <= max_x,
            min_y <= max_y,
        ensures
            final(self).x as int == clamped(old(self).x as int, min_x as int, max_x as int),
            final(self).y as int == clamped(old(self).y as int, min_y as int, max_y as int),
    {
        self.x = clamp_i64(self.x, min_x, max_x);
        self.y = clamp_i64(self.y, min_y, max_y);
    }
}

/// `v` clamped to the closed interval `[lo, hi]`.
fn clamp_i64(v: i64, lo: i64, hi: i64) -> (r: i64)
    requires
        lo <= hi,
    ensures
        r as int == clamped(v as int, lo as int, hi as int),
{
    if v < lo {
        lo
    } else if v > hi {
        hi
    } else {
        v
    }
}

/// Ghost view of a [`Health`] record.
pub ghost struct HealthView {
    pub current: int,
    pub max: int,
}

/// Entity health with damage and healing, in fixed-point thousandths.
#[derive(Debug, Clone, PartialEq)]
pub struct Health {
    current: i64,
    max: i64,
}

impl View for Health {
    type V = HealthView;

    closed spec fn view(&self) -> HealthView {
        HealthView { current: self.current as int, max: self.max as int }
    }
}

impl Health {
    /// The record's invariant: `0 <= current <= max`.
    pub open spec fn wf(&self) -> bool {
        0 <= self@.current <= self@.max
    }

    /// A fresh record at full health; a negative maximum is clamped to zero.
    pub fn new(max_health: i64) -> (r: Health)
        ensures
            r.wf(),
            r@.max == pos_part(max_health as int),
            r@.current == r@.max,
    {
        let m = if max_health > 0 {
            max_health
        } else {
            0
        };
        Health { current: m, max: m }
    }

    pub fn current(&self) -> (r: i64)
        ensures
            r as int == self@.current,
    {
        self.current
    }

    pub fn max(&self) -> (r: i64)
        ensures
            r as int == self@.max,
    {
        self.max
    }

    /// Current health as a fraction of the maximum, in `[0, SCALE]`;
    /// exactly `0` when the maximum is zero.
    pub fn ratio(&self) -> (r: i64)
        requires
            self.wf(),
        ensures
            r as int == ratio_of(self@.current, self@.max),
            self@.max <= 0 ==> r == 0,
            0 <= r <= SCALE,
    {
        proof {
            lemma_ratio_in_range(self@.current, self@.max);
        }
        if self.max <= 0 {
            0
        } else {
            let num = (self.current as u128) * (SCALE as u128);
            let q = num / (self.max as u128);
            q as i64
        }
    }

    pub fn is_alive(&self) -> (r: bool)
        ensures
            r == (self@.current > 0),
    {
        self.current > 0
    }

    pub fn is_full(&self) -> (r: bool)
        ensures
            r == (self@.current >= self@.max),
    {
        self.current >= self.max
    }

    /// Whether the health ratio is below `threshold` (a fixed-point
    /// fraction, clamped to `[0, SCALE]`).
    pub fn is_low(&self, threshold: i64) -> (r: bool)
        requires
            self.wf(),
        ensures
            r == (ratio_of(self@.current, self@.max) < clamped(
                threshold as int,
                0,
                SCALE as int,
            )),
    {
        let t = clamp_i64(threshold, 0, SCALE);
        self.ratio() < t
    }

    /// Subtract `damage`, clamping at zero; non-positive damage is a no-op.
    pub fn take_damage(&mut self, damage: i64)
        requires
            old(self).wf(),
        ensures
            final(self).wf(),
            final(self)@.max == old(self)@.max,
            final(self)@.current == (if damage > 0 {
                pos_part(old(self)@.current - damage)
            } else {
                old(self)@.current
            }),
    {
        if damage > 0 {
            if damage >= self.current {
                self.current = 0;
            } else {
                self.current = self.current - damage;
            }
        }
    }

    /// Add `amount`, clamping at the maximum; non-positive amounts are a
    /// no-op.
    pub fn heal(&mut self, amount: i64)
        requires
            old(self).wf(),
        ensures
            final(self).wf(),
            final(self)@.max == old(self)@.max,
            final(self)@.current == (if amount > 0 {
                capped(old(self)@.current + amount, old(self)@.max)
            } else {
                old(self)@.current
            }),
    {
        if amount > 0 {
            let headroom = self.max - self.current;
            if amount >= headroom {
                self.current = self.max;
            } else {
                self.current = self.current + amount;
            }
        }
    }

    /// Set the current health, clamped into `[0, max]`.
    pub fn set_current(&mut self, health: i64)
        requires
            old(self).wf(),
        ensures
            final(self).wf(),
            final(self)@.max == old(self)@.max,
            final(self)@.current == clamped(health as int, 0, old(self)@.max),
    {
        self.current = clamp_i64(health, 0, self.max);
    }

    /// Set the maximum, clamped at zero; the current value is lowered to the
    /// new maximum when it would exceed it.
    pub fn set_max(&mut self, max_health: i64)
        requires
            old(self).wf(),
        ensures
            final(self).wf(),
            final(self)@.max == pos_part(max_health as int),
            final(self)@.current == capped(old(self)@.current, final(self)@.max),
    {
        let new_max = if max_health > 0 {
            max_health
        } else {
            0
        };
        self.max = new_max;
        if self.current > new_max {
            self.current = new_max;
        }
    }
}

/// Ghost view of an [`Energy`] record.
pub ghost struct EnergyView {
    pub current: int,
    pub max: int,
    pub movement_cost: int,
    pub regen_rate: int,
}

/// Entity energy with consumption and regeneration, in fixed-point
/// thousandths. The regeneration rate is energy per second.
#[derive(Debug, Clone, PartialEq)]
pub struct Energy {
    current: i64,
    max: i64,
    movement_cost: i64,
    regen_rate: i64,
}

impl View for Energy {
    type V = EnergyView;

    closed spec fn view(&self) -> EnergyView {
        EnergyView {
            current: self.current as int,
            max: self.max as int,
            movement_cost: self.movement_cost as int,
            regen_rate: self.regen_rate as int,
        }
    }
}

impl Energy {
    /// The record's invariant: `0 <= current <= max`, and the cost and rate
    /// are non-negative.
    pub open spec fn wf(&self) -> bool {
        &&& 0 <= self@.current <= self@.max
        &&& 0 <= self@.movement_cost
        &&& 0 <= self@.regen_rate
    }

    /// A fresh record at full energy; negative inputs are clamped to zero.
    pub fn new(max_energy: i64, movement_cost: i64, regen_rate: i64) -> (r: Energy)
        ensures
            r.wf(),
            r@.max == pos_part(max_energy as int),
            r@.current == r@.max,
            r@.movement_cost == pos_part(movement_cost as int),
            r@.regen_rate == pos_part(regen_rate as int),
    {
        let m = if max_energy > 0 {
            max_energy
        } else {
            0
        };
        Energy {
            current: m,
            max: m,
            movement_cost: if movement_cost > 0 {
                movement_cost
            } else {
                0
            },
            regen_rate: if regen_rate > 0 {
                regen_rate
            } else {
                0
            },
        }
    }

    pub fn current(&self) -> (r: i64)
        ensures
            r as int == self@.current,
    {
        self.current
    }

    pub fn max(&self) -> (r: i64)
        ensures
            r as int == self@.max,
    {
        self.max
    }

    pub fn movement_cost(&self) -> (r: i64)
        ensures
            r as int == self@.movement_cost,
    {
        self.movement_cost
    }

    pub fn regen_rate(&self) -> (r: i64)
        ensures
            r as int == self@.regen_rate,
    {
        self.regen_rate
    }

    /// Current energy as a fraction of the maximum, in `[0, SCALE]`;
    /// exactly `0` when the maximum is zero.
    pub fn ratio(&self) -> (r: i64)
        requires
            self.wf(),
        ensures
            r as int == ratio_of(self@.current, self@.max),
            self@.max <= 0 ==> r == 0,
            0 <= r <= SCALE,
    {
        proof {
            lemma_ratio_in_range(self@.current, self@.max);
        }
        if self.max <= 0 {
            0
        } else {
            let num = (self.current as u128) * (SCALE as u128);
            let q = num / (self.max as u128);
            q as i64
        }
    }

    pub fn is_depleted(&self) -> (r: bool)
        ensures
            r == (self@.current <= 0),
    {
        self.current <= 0
    }

    pub fn is_full(&self) -> (r: bool)
        ensures
            r == (self@.current >= self@.max),
    {
        self.current >= self.max
    }

    /// Whether the energy ratio is below `threshold` (a fixed-point
    /// fraction, clamped to `[0, SCALE]`).
    pub fn is_low(&self, threshold: i64) -> (r: bool)
        requires
            self.wf(),
        ensures
            r == (ratio_of(self@.current, self@.max) < clamped(
                threshold as int,
                0,
                SCALE as int,
            )),
    {
        let t = clamp_i64(threshold, 0, SCALE);
        self.ratio() < t
    }

    /// Non-mutating pre-check for [`Energy::consume_movement`].
    pub fn can_move(&self) -> (r: bool)
        ensures
            r == (self@.current >= self@.movement_cost),
    {
        self.current >= self.movement_cost
    }

    pub fn can_afford(&self, cost: i64) -> (r: bool)
        ensures
            r == (self@.current >= cost),
    {
        self.current >= cost
    }

    /// Conditional withdrawal: fails and changes nothing when `amount`
    /// exceeds the current energy; otherwise succeeds and subtracts exactly
    /// `amount`. (A negative amount is a deposit; it is capped at the
    /// maximum so the invariant holds.) Callers must branch on the result.
    pub fn consume(&mut self, amount: i64) -> (r: bool)
        requires
            old(self).wf(),
        ensures
            final(self).wf(),
            r == (old(self)@.current >= amount),
            final(self)@.max == old(self)@.max,
            final(self)@.movement_cost == old(self)@.movement_cost,
            final(self)@.regen_rate == old(self)@.regen_rate,
            !r ==> final(self)@.current == old(self)@.current,
            r ==> final(self)@.current == capped(
                old(self)@.current - amount,
                old(self)@.max,
            ),
            r && amount >= 0 ==> final(self)@.current == old(self)@.current - amount,
    {
        if self.current >= amount {
            let rest = (self.current as i128) - (amount as i128);
            if rest > self.max as i128 {
                self.current = self.max;
            } else {
                self.current = rest as i64;
            }
            true
        } else {
            false
        }
    }

    /// [`Energy::consume`] with the configured movement cost.
    pub fn consume_movement(&mut self) -> (r: bool)
        requires
            old(self).wf(),
        ensures
            final(self).wf(),
            r == (old(self)@.current >= old(self)@.movement_cost),
            final(self)@.max == old(self)@.max,
            final(self)@.movement_cost == old(self)@.movement_cost,
            final(self)@.regen_rate == old(self)@.regen_rate,
            r ==> final(self)@.current == old(self)@.current - old(self)@.movement_cost,
            !r ==> final(self)@.current == old(self)@.current,
    {
        let cost = self.movement_cost;
        self.consume(cost)
    }

    /// Add `amount`, clamping at the maximum; non-positive amounts are a
    /// no-op.
    pub fn add_energy(&mut self, amount: i64)
        requires
            old(self).wf(),
        ensures
            final(self).wf(),
            final(self)@.max == old(self)@.max,
            final(self)@.movement_cost == old(self)@.movement_cost,
            final(self)@.regen_rate == old(self)@.regen_rate,
            final(self)@.current == (if amount > 0 {
                capped(old(self)@.current + amount, old(self)@.max)
            } else {
                old(self)@.current
            }),
    {
        if amount > 0 {
            let headroom = self.max - self.current;
            if amount >= headroom {
                self.current = self.max;
            } else {
                self.current = self.current + amount;
            }
        }
    }

    /// Regenerate for `delta_seconds` (fixed-point seconds): add
    /// `regen_rate * delta_seconds`, clamping at the maximum. A non-positive
    /// duration is a no-op.
    pub fn regenerate(&mut self, delta_seconds: i64)
        requires
            old(self).wf(),
        ensures
            final(self).wf(),
            final(self)@.max == old(self)@.max,
            final(self)@.movement_cost == old(self)@.movement_cost,
            final(self)@.regen_rate == old(self)@.regen_rate,
            delta_seconds <= 0 ==> final(self)@.current == old(self)@.current,
            delta_seconds > 0 ==> final(self)@.current == capped(
                old(self)@.current + regen_amount(old(self)@.regen_rate, delta_seconds as int),
                old(self)@.max,
            ),
    {
        if delta_seconds > 0 {
            proof {
                assert((self@.regen_rate) * (delta_seconds as int) < 0x8000_0000_0000_0000
                    * 0x8000_0000_0000_0000i128) by (nonlinear_arith)
                    requires
                        0 <= self@.regen_rate < 0x8000_0000_0000_0000i128,
                        0 < (delta_seconds as int) < 0x8000_0000_0000_0000i128,
                ;
            }
            let total = (self.regen_rate as u128) * (delta_seconds as u128);
            let amount = total / (SCALE as u128);
            let headroom = (self.max - self.current) as u128;
            if amount >= headroom {
                self.current = self.max;
            } else {
                self.current = self.current + (amount as i64);
            }
        }
    }

    /// Set the current energy, clamped into `[0, max]`.
    pub fn set_current(&mut self, energy: i64)
        requires
            old(self).wf(),
        ensures
            final(self).wf(),
            final(self)@.max == old(self)@.max,
            final(self)@.movement_cost == old(self)@.movement_cost,
            final(self)@.regen_rate == old(self)@.regen_rate,
            final(self)@.current == clamped(energy as int, 0, old(self)@.max),
    {
        self.current = clamp_i64(energy, 0, self.max);
    }

    /// Set the maximum, clamped at zero; the current value is lowered to the
    /// new maximum when it would exceed it.
    pub fn set_max(&mut self, max_energy: i64)
        requires
            old(self).wf(),
        ensures
            final(self).wf(),
            final(self)@.max == pos_part(max_energy as int),
            final(self)@.movement_cost == old(self)@.movement_cost,
            final(self)@.regen_rate == old(self)@.regen_rate,
            final(self)@.current == capped(old(self)@.current, final(self)@.max),
    {
        let new_max = if max_energy > 0 {
            max_energy
        } else {
            0
        };
        self.max = new_max;
        if self.current > new_max {
            self.current = new_max;
        }
    }

    /// Set the movement cost, clamped at zero.
    pub fn set_movement_cost(&mut self, cost: i64)
        requires
            old(self).wf(),
        ensures
            final(self).wf(),
            final(self)@.movement_cost == pos_part(cost as int),
            final(self)@.current == old(self)@.current,
            final(self)@.max == old(self)@.max,
            final(self)@.regen_rate == old(self)@.regen_rate,
    {
        self.movement_cost = if cost > 0 {
            cost
        } else {
            0
        };
    }

    /// Set the regeneration rate, clamped at zero.
    pub fn set_regen_rate(&mut self, rate: i64)
        requires
            old(self).wf(),
        ensures
            final(self).wf(),
            final(self)@.regen_rate == pos_part(rate as int),
            final(self)@.current == old(self)@.current,
            final(self)@.max == old(self)@.max,
            final(self)@.movement_cost == old(self)@.movement_cost,
    {
        self.regen_rate = if rate > 0 {
            rate
        } else {
            0
        };
    }
}

/// Ghost view of a [`Collision`] record.
pub ghost struct CollisionView {
    pub radius: int,
}

/// Collision body: a radius in fixed-point thousandths. Distances are
/// supplied by the caller, keeping this record independent of the position
/// model.
#[derive(Debug, Clone, PartialEq)]
pub struct Collision {
    radius: i64,
}

impl View for Collision {
    type V = CollisionView;

    closed spec fn view(&self) -> CollisionView {
        CollisionView { radius: self.radius as int }
    }
}

/// Two radii collide at `distance` when the distance is at most their sum
/// (exact touching counts as colliding).
pub open spec fn spec_colliding(radius_a: int, radius_b: int, distance: int) -> bool {
    distance <= radius_a + radius_b
}

/// Collision at a given distance is symmetric in the two bodies.
pub proof fn lemma_colliding_symmetric(radius_a: int, radius_b: int, distance: int)
    ensures
        spec_colliding(radius_a, radius_b, distance) == spec_colliding(
            radius_b,
            radius_a,
            distance,
        ),
{
}

impl Collision {
    /// The record's invariant: a non-negative radius.
    pub open spec fn wf(&self) -> bool {
        0 <= self@.radius
    }

    /// A fresh body; a negative radius is clamped to zero.
    pub fn new(radius: i64) -> (r: Collision)
        ensures
            r.wf(),
            r@.radius == pos_part(radius as int),
    {
        Collision {
            radius: if radius > 0 {
                radius
            } else {
                0
            },
        }
    }

    pub fn radius(&self) -> (r: i64)
        ensures
            r as int == self@.radius,
    {
        self.radius
    }

    /// Set the radius, clamped at zero.
    pub fn set_radius(&mut self, radius: i64)
        ensures
            final(self).wf(),
            final(self)@.radius == pos_part(radius as int),
    {
        self.radius = if radius > 0 {
            radius
        } else {
            0
        };
    }

    pub fn diameter(&self) -> (r: i64)
        requires
            self.wf(),
            2 * self@.radius <= i64::MAX,
        ensures
            r as int == 2 * self@.radius,
    {
        self.radius * 2
    }

    /// Whether two bodies at the given centre distance touch or overlap.
    pub fn is_colliding_with(&self, other: &Collision, distance: i64) -> (r: bool)
        ensures
            r == spec_colliding(self@.radius, other@.radius, distance as int),
    {
        (distance as i128) <= (self.radius as i128) + (other.radius as i128)
    }

    /// The smallest centre distance at which the bodies do not overlap.
    pub fn min_distance_to(&self, other: &Collision) -> (r: i64)
        requires
            self.wf(),
            other.wf(),
            self@.radius + other@.radius <= i64::MAX,
        ensures
            r as int == self@.radius + other@.radius,
    {
        self.radius + other.radius
    }

    /// Penetration depth at the given centre distance: how far the bodies
    /// overlap, or zero when they do not.
    pub fn overlap_amount(&self, other: &Collision, distance: i64) -> (r: i64)
        requires
            self.wf(),
            other.wf(),
            self@.radius + other@.radius - distance <= i64::MAX,
        ensures
            r as int == (if distance < self@.radius + other@.radius {
                self@.radius + other@.radius - distance
            } else {
                0
            }),
    {
        let min_distance = (self.radius as i128) + (other.radius as i128);
        let d = distance as i128;
        if d < min_distance {
            (min_distance - d) as i64
        } else {
            0
        }
    }
}

} // verus!
