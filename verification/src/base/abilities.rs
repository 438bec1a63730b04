//! The special abilities a unit can carry.

use vstd::prelude::*;

verus! {

/// Marker component for units that cannot be harmed.
#[derive(Debug, Clone, Copy, PartialEq, Eq, Structural)]
pub struct AbilityImmunity;

/// Marker component for units whose attacks strike threefold.
#[derive(Debug, Clone, Copy, PartialEq, Eq, Structural)]
pub struct AbilityTripleDamage;

} // verus!
