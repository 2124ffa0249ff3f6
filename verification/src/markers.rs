//! Marker records: zero-data tags used by the host runtime to filter
//! entity queries. They carry no behavior of their own.

use vstd::prelude::*;

verus! {

/// Base marker for all simulation entities.
#[derive(Debug, Clone, Copy, PartialEq, Eq)]
pub struct Organism;

/// Marker for entities that can be consumed as food, such as plants, dead
/// organisms, or food sources.
#[derive(Debug, Clone, Copy, PartialEq, Eq)]
pub struct Edible;

/// Marker for entities that are currently alive and active, distinguishing
/// them from corpses or inactive entities.
#[derive(Debug, Clone, Copy, PartialEq, Eq)]
pub struct Alive;

/// Marker for newly spawned entities, for special handling such as
/// temporary immunity or initialization logic.
#[derive(Debug, Clone, Copy, PartialEq, Eq)]
pub struct Newborn;

} // verus!
