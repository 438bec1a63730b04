//! The Roman building roster: the assets it needs, the factory that turns a
//! building kind into an entity bundle, the placement lifecycle and the
//! build-menu button.

use vstd::prelude::*;

pub mod assets;
pub mod factory;
pub mod lifecycle;
pub mod ui;

verus! {

/// Marker component for the spawn point buildings give their units.
#[derive(Debug, Clone, Copy, PartialEq, Eq, Structural)]
pub struct RomeBuildingUnitsSpawn;

} // verus!
