//! The terrain plane: its configuration, the cursor's projection onto it,
//! and what the engine spawns for it.

use vstd::prelude::*;

use crate::color::Srgb8;
use crate::geometry::{PlanePos, Size2, WorldPos};

pub mod interaction;
pub mod raycast;

verus! {

/// Marker component for the terrain plane.
#[derive(Debug, Clone, Copy, PartialEq, Eq, Structural)]
pub struct Terrain;

/// Where the cursor last met the terrain, on the terrain plane.
#[derive(Debug, Clone, Copy, PartialEq, Eq, Structural)]
pub struct TerrainResource {
    pub cursor_projection: PlanePos,
}

/// The terrain settings a configuration file provides: the plane's
/// half-extents and the edge length of one tile, in thousandths of a world
/// unit.
#[derive(Debug, Clone, Copy, PartialEq, Eq, Structural)]
pub struct TerrainConfig {
    pub dimensions: Size2,
    pub tile_size: i64,
}

impl Default for TerrainConfig {
    fn default() -> (r: Self)
        ensures
            r == (TerrainConfig { dimensions: Size2 { x: 0, y: 0 }, tile_size: 0 }),
    {
        TerrainConfig { dimensions: Size2 { x: 0, y: 0 }, tile_size: 0 }
    }
}

/// The handle of the terrain configuration asset once its load has begun.
#[derive(Debug, Clone, Copy, PartialEq, Eq, Structural)]
pub struct TerrainConfigResource(pub u64);

impl Default for TerrainConfigResource {
    fn default() -> (r: Self)
        ensures
            r == TerrainConfigResource(0),
    {
        TerrainConfigResource(0)
    }
}

/// What the engine spawns for the terrain: its entity name, the plane's
/// half-extents, its brown colour, where it stands, and its flat box
/// collider's half-extents.
#[derive(Debug, Clone, PartialEq, Eq)]
pub struct TerrainBundle {
    pub name: String,
    pub dimensions: Size2,
    pub color: Srgb8,
    pub translation: WorldPos,
    pub collider_half_extents: WorldPos,
}

/// The play phase begins: spawn the terrain from its loaded configuration, a
/// brown plane at the origin with a collider one hundredth of a unit thick.
/// The engine panics when the configuration has not loaded, so that is not
/// handed in.
pub fn setup(loaded: Option<&TerrainConfig>) -> (r: TerrainBundle)
    requires
        loaded is Some,
    ensures
        r.name@ == "Terrain"@,
        r.dimensions == loaded->Some_0.dimensions,
        r.color == (Srgb8 { red: 111, green: 78, blue: 55 }),
        r.translation == (WorldPos { x: 0, y: 0, z: 0 }),
        r.collider_half_extents == (WorldPos {
            x: loaded->Some_0.dimensions.x,
            y: 10,
            z: loaded->Some_0.dimensions.y,
        }),
{
    let config = match loaded {
        Option::Some(c) => c,
        Option::None => vstd::pervasive::unreached(),
    };
    TerrainBundle {
        name: "Terrain".to_owned(),
        dimensions: config.dimensions,
        color: Srgb8 { red: 111, green: 78, blue: 55 },
        translation: WorldPos { x: 0, y: 0, z: 0 },
        collider_half_extents: WorldPos {
            x: config.dimensions.x,
            y: 10,
            z: config.dimensions.y,
        },
    }
}

} // verus!
