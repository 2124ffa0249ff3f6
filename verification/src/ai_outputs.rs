//! AI output records: the single command an agent decides on each cycle.

use crate::vectors::Vec2Fx;
use vstd::prelude::*;

verus! {

/// Command issued by the decision system, consumed by the physics system.
/// It carries no success or failure channel: whether the entity can afford
/// the action is resolved by the physics system.
#[derive(Debug, Clone, Copy, PartialEq)]
pub struct ActionCommand {
    pub action_type: ActionType,
}

/// The actions an entity can perform.
#[derive(Debug, Clone, Copy, PartialEq)]
pub enum ActionType {
    /// Move in the given direction (the vector is constrained later by the
    /// entity's movement capabilities).
    Move(Vec2Fx),
    /// Rest to recover energy; no movement.
    Rest,
}

impl ActionCommand {
    pub fn new(action_type: ActionType) -> (r: ActionCommand)
        ensures
            r.action_type == action_type,
    {
        ActionCommand { action_type }
    }

    /// A command to move in `direction`.
    pub fn move_to(direction: Vec2Fx) -> (r: ActionCommand)
        ensures
            r.action_type == ActionType::Move(direction),
    {
        ActionCommand::new(ActionType::Move(direction))
    }

    /// A command to rest.
    pub fn rest() -> (r: ActionCommand)
        ensures
            r.action_type == ActionType::Rest,
    {
        ActionCommand::new(ActionType::Rest)
    }
}

impl Default for ActionType {
    /// The default action is to rest, matching the default activity state.
    fn default() -> (r: Self)
        ensures
            r == ActionType::Rest,
    {
        ActionType::Rest
    }
}

impl Default for ActionCommand {
    /// The default command is to rest.
    fn default() -> (r: Self)
        ensures
            r.action_type == ActionType::Rest,
    {
        ActionCommand::new(ActionType::Rest)
    }
}

} // verus!
