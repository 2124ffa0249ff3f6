//! Attribute and perception records for a 2D ecosystem simulation.
//!
//! The crate supplies the passive data records that a host entity-component
//! runtime attaches to its entities (position, health, energy, collision
//! radius, vision range, activity state), the species lookup table, and the
//! observation/command records exchanged between perception, decision and
//! physics systems. Each record owns its numeric invariant and exposes only
//! sanitizing accessors: out-of-range inputs are clamped, never rejected.
//!
//! Every scalar quantity (health and energy points, radii, coordinates,
//! distances, ratios, seconds) is a fixed-point integer counted in
//! thousandths of a unit; see [`fixed::SCALE`].

pub mod ai_inputs;
pub mod ai_outputs;
pub mod constraints;
pub mod fixed;
pub mod markers;
pub mod organism_type;
pub mod physical;
pub mod tracking;
pub mod vectors;
