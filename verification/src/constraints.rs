//! Capability constraints: what an entity is able to do.

use crate::fixed::pos_part;
use vstd::prelude::*;

verus! {

/// Vision capability: how far the entity can see, in fixed-point
/// thousandths.
#[derive(Debug, Clone, PartialEq)]
pub struct Vision {
    pub range: i64,
}

impl Vision {
    /// The record's invariant: a non-negative range.
    pub open spec fn wf(&self) -> bool {
        0 <= self.range
    }

    /// A fresh capability; a negative range is clamped to zero.
    pub fn new(range: i64) -> (r: Vision)
        ensures
            r.wf(),
            r.range as int == pos_part(range as int),
    {
        Vision {
            range: if range > 0 {
                range
            } else {
                0
            },
        }
    }

    /// Set the range, clamped at zero.
    pub fn set_range(&mut self, range: i64)
        ensures
            final(self).wf(),
            final(self).range as int == pos_part(range as int),
    {
        self.range = if range > 0 {
            range
        } else {
            0
        };
    }
}

impl Default for Vision {
    /// The default vision range is one hundred world units.
    fn default() -> (r: Self)
        ensures
            r.range == 100_000,
    {
        Vision::new(100_000)
    }
}

} // verus!
