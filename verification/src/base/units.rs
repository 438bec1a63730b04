//! The components every faction's units share.

use vstd::prelude::*;

verus! {

/// Hit points: the ceiling and what is left of it.
#[derive(Debug, Clone, Copy, PartialEq, Eq, Structural)]
pub struct Health {
    pub max: i32,
    pub current: i32,
}

impl Default for Health {
    fn default() -> (r: Self)
        ensures
            r == (Health { max: 0, current: 0 }),
    {
        Health { max: 0, current: 0 }
    }
}

/// Marker component for units that are currently moving.
#[derive(Debug, Clone, Copy, PartialEq, Eq, Structural)]
pub struct IsMoving;

/// How far a unit walks each second, in thousandths of a world unit.
#[derive(Debug, Clone, Copy, PartialEq, Eq, Structural)]
pub struct Speed(pub i64);

/// How long a unit lives after spawning, in thousandths of a second.
#[derive(Debug, Clone, Copy, PartialEq, Eq, Structural)]
pub struct Lifetime(pub u64);

/// How far a unit's attacks reach.
#[derive(Debug, Clone, Copy, PartialEq, Eq, Structural)]
pub struct AttackRange(pub i32);

/// What a unit is doing right now.
#[derive(Debug, Clone, Copy, PartialEq, Eq, Structural)]
pub enum UnitState {
    Idle,
    Walking,
    Fighting,
    Dead,
}

impl Default for UnitState {
    fn default() -> (r: Self)
        ensures
            r == UnitState::Idle,
    {
        UnitState::Idle
    }
}

} // verus!
