//! The components and settings every faction's buildings share.

use vstd::prelude::*;

verus! {

/// Marker component for the provisional building that follows the cursor
/// while the player chooses where to put it.
#[derive(Debug, Clone, Copy, PartialEq, Eq, Structural)]
pub struct BuildingGettingPlaced;

/// Marker component for the building the player has clicked.
#[derive(Debug, Clone, Copy, PartialEq, Eq, Structural)]
pub struct BuildingSelected;

/// Shared building settings: the edge length of a building's footprint, in
/// thousandths of a world unit.
#[derive(Debug, Clone, Copy, PartialEq, Eq, Structural)]
pub struct BuildingsConfig {
    pub size: i64,
}

} // verus!
