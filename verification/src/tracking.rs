//! Activity tracking: the single state tag an entity carries.

use vstd::prelude::*;

verus! {

/// Current activity state, overwritten by the behavior or physics system
/// each tick.
#[derive(Debug, Clone, Copy, PartialEq, Eq)]
pub struct CurrentActivity {
    pub activity: ActivityType,
}

/// The activities an entity can be in.
#[derive(Debug, Clone, Copy, PartialEq, Eq)]
pub enum ActivityType {
    /// The entity is currently moving.
    Moving,
    /// The entity is resting to recover energy.
    Resting,
}

impl CurrentActivity {
    pub fn new(activity: ActivityType) -> (r: CurrentActivity)
        ensures
            r.activity == activity,
    {
        CurrentActivity { activity }
    }

    pub fn set_activity(&mut self, activity: ActivityType)
        ensures
            final(self).activity == activity,
    {
        self.activity = activity;
    }
}

impl Default for ActivityType {
    /// The default activity is resting, matching the default action of
    /// rest: an entity with no assigned command presents as resting.
    fn default() -> (r: Self)
        ensures
            r == ActivityType::Resting,
    {
        ActivityType::Resting
    }
}

impl Default for CurrentActivity {
    /// The default state is resting.
    fn default() -> (r: Self)
        ensures
            r.activity == ActivityType::Resting,
    {
        CurrentActivity::new(ActivityType::Resting)
    }
}

} // verus!
