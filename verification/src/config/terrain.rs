//! The terrain plane's half-extents, in thousandths of a world unit.

use vstd::prelude::*;

verus! {

/// How far the terrain plane reaches from the origin along each axis.
#[derive(Debug, Clone, Copy, PartialEq, Eq, Structural)]
pub struct TerrainConfig {
    pub x: i64,
    pub y: i64,
}

} // verus!
