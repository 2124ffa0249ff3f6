//! AI input records: what an agent perceives in one observation cycle.

use crate::fixed::clamped;
use crate::fixed::div_toward_zero;
use crate::fixed::sqrt_floor;
use crate::fixed::SCALE;
use crate::organism_type::OrganismType;
use crate::vectors::norm2;
use crate::vectors::Vec2Fx;
use vstd::prelude::*;

verus! {

/// Complete observation data handed to the decision system: a snapshot of
/// the observer plus the entities visible this cycle, in discovery order.
#[derive(Debug, Clone, PartialEq)]
pub struct ObservationData {
    pub visible_entities: Vec<EntityObservation>,
    pub self_state: SelfState,
}

impl ObservationData {
    /// A fresh observation with no visible entities yet.
    pub fn new(self_state: SelfState) -> (r: ObservationData)
        ensures
            r.visible_entities@ == Seq::<EntityObservation>::empty(),
            r.self_state == self_state,
    {
        ObservationData { visible_entities: Vec::new(), self_state }
    }

    /// Append one observation; insertion order is kept, duplicates are not
    /// removed.
    pub fn add_observation(&mut self, observation: EntityObservation)
        ensures
            final(self).visible_entities@ == old(self).visible_entities@.push(observation),
            final(self).self_state == old(self).self_state,
    {
        self.visible_entities.push(observation);
    }

    /// Drop all accumulated observations, keeping the snapshot, so the
    /// record can be reused across cycles.
    pub fn clear_observations(&mut self)
        ensures
            final(self).visible_entities@ == Seq::<EntityObservation>::empty(),
            final(self).self_state == old(self).self_state,
    {
        self.visible_entities.clear();
    }
}

/// One entity within vision range: its species and its position relative to
/// the observer (target minus self).
#[derive(Debug, Clone, Copy, PartialEq)]
pub struct EntityObservation {
    pub organism_type: OrganismType,
    pub relative_position: Vec2Fx,
}

impl EntityObservation {
    pub fn new(organism_type: OrganismType, relative_position: Vec2Fx) -> (r: EntityObservation)
        ensures
            r.organism_type == organism_type,
            r.relative_position == relative_position,
    {
        EntityObservation { organism_type, relative_position }
    }

    /// Distance to the observed entity, rounded down to the fixed-point
    /// grid.
    pub fn distance(&self) -> (r: i64)
        requires
            self.relative_position.in_mag_limit(),
        ensures
            r as int == sqrt_floor(norm2(self.relative_position)),
            r >= 0,
            r == 0 <==> self.relative_position == Vec2Fx::spec_zero(),
    {
        self.relative_position.length()
    }

    /// Unit direction toward the observed entity in fixed-point
    /// thousandths; the zero vector exactly when the relative position is
    /// zero.
    pub fn direction(&self) -> (r: Vec2Fx)
        requires
            self.relative_position.in_mag_limit(),
        ensures
            self.relative_position == Vec2Fx::spec_zero() ==> r == Vec2Fx::spec_zero(),
            self.relative_position != Vec2Fx::spec_zero() ==> {
                &&& r.x == div_toward_zero(
                    self.relative_position.x * SCALE,
                    sqrt_floor(norm2(self.relative_position)),
                )
                &&& r.y == div_toward_zero(
                    self.relative_position.y * SCALE,
                    sqrt_floor(norm2(self.relative_position)),
                )
                &&& r != Vec2Fx::spec_zero()
                &&& (SCALE / 2) * (SCALE / 2) <= norm2(r)
            },
            norm2(r) <= 2 * (SCALE * SCALE),
            -SCALE <= r.x <= SCALE,
            -SCALE <= r.y <= SCALE,
    {
        self.relative_position.normalize_or_zero()
    }
}

/// Snapshot of the observing entity, taken once per cycle. Ratios are
/// fixed-point fractions clamped into `[0, SCALE]` at construction.
#[derive(Debug, Clone, Copy, PartialEq)]
pub struct SelfState {
    /// Health ratio in `[0, SCALE]`.
    pub health_ratio: i64,
    /// Energy ratio in `[0, SCALE]`.
    pub energy_ratio: i64,
    pub current_position: Vec2Fx,
}

impl SelfState {
    pub fn new(health_ratio: i64, energy_ratio: i64, current_position: Vec2Fx) -> (r: SelfState)
        ensures
            r.health_ratio as int == clamped(health_ratio as int, 0, SCALE as int),
            r.energy_ratio as int == clamped(energy_ratio as int, 0, SCALE as int),
            r.current_position == current_position,
    {
        SelfState {
            health_ratio: clamp_ratio(health_ratio),
            energy_ratio: clamp_ratio(energy_ratio),
            current_position,
        }
    }
}

/// A ratio clamped into `[0, SCALE]`.
fn clamp_ratio(v: i64) -> (r: i64)
    ensures
        r as int == clamped(v as int, 0, SCALE as int),
{
    if v < 0 {
        0
    } else if v > SCALE {
        SCALE
    } else {
        v
    }
}

} // verus!
