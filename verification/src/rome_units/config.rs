//! The Roman units' statistics, loaded from a configuration file.

use vstd::prelude::*;

verus! {

/// The units of the Roman roster.
#[derive(Debug, Clone, Copy, PartialEq, Eq, Structural)]
pub enum RomeUnitType {
    Legionary,
    Archer,
}

impl Default for RomeUnitType {
    fn default() -> (r: Self)
        ensures
            r == RomeUnitType::Legionary,
    {
        RomeUnitType::Legionary
    }
}

/// The legionary's statistics: hit points and walking speed in thousandths
/// of a world unit per second.
#[derive(Debug, Clone, Copy, PartialEq, Eq, Structural)]
pub struct RomeLegionaryUnitConfig {
    pub health: i32,
    pub speed: i64,
}

impl Default for RomeLegionaryUnitConfig {
    fn default() -> (r: Self)
        ensures
            r == (RomeLegionaryUnitConfig { health: 0, speed: 0 }),
    {
        RomeLegionaryUnitConfig { health: 0, speed: 0 }
    }
}

/// The archer's statistics: hit points and walking speed in thousandths of a
/// world unit per second.
#[derive(Debug, Clone, Copy, PartialEq, Eq, Structural)]
pub struct RomeArcherUnitConfig {
    pub health: i32,
    pub speed: i64,
}

impl Default for RomeArcherUnitConfig {
    fn default() -> (r: Self)
        ensures
            r == (RomeArcherUnitConfig { health: 0, speed: 0 }),
    {
        RomeArcherUnitConfig { health: 0, speed: 0 }
    }
}

/// The whole roster's statistics, as one configuration asset.
#[derive(Debug, Clone, Copy, PartialEq, Eq, Structural)]
pub struct RomeUnitsConfig {
    pub legionary: RomeLegionaryUnitConfig,
    pub archer: RomeArcherUnitConfig,
}

impl Default for RomeUnitsConfig {
    fn default() -> (r: Self)
        ensures
            r == (RomeUnitsConfig {
                legionary: RomeLegionaryUnitConfig { health: 0, speed: 0 },
                archer: RomeArcherUnitConfig { health: 0, speed: 0 },
            }),
    {
        RomeUnitsConfig {
            legionary: RomeLegionaryUnitConfig { health: 0, speed: 0 },
            archer: RomeArcherUnitConfig { health: 0, speed: 0 },
        }
    }
}

/// The handle of the roster configuration asset once its load has begun.
#[derive(Debug, Clone, Copy, PartialEq, Eq, Structural)]
pub struct RomeUnitsConfigResource(pub u64);

impl Default for RomeUnitsConfigResource {
    fn default() -> (r: Self)
        ensures
            r == RomeUnitsConfigResource(0),
    {
        RomeUnitsConfigResource(0)
    }
}

} // verus!
