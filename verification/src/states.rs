//! What the player is currently doing with the pointer.

use vstd::prelude::*;

verus! {

/// The pointer-interaction state of the player.
///
/// `Idle` is the starting state: no building is being placed and nothing is
/// selected through the building UI.
#[derive(Debug, Hash, Eq, PartialEq, Clone, Copy, Structural)]
pub enum UserActionState {
    Idle,
    PlacingBuilding,
    BuildingSelected,
    UnitsSelected,
}

impl Default for UserActionState {
    fn default() -> (r: Self)
        ensures
            r == UserActionState::Idle,
    {
        UserActionState::Idle
    }
}

} // verus!
