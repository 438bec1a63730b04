//! Projecting the cursor onto the terrain.
//!
//! The engine casts the ray from the camera through the cursor and reports
//! where it meets the terrain collider; this records the hit.

use vstd::prelude::*;

use crate::geometry::{PlanePos, ScreenPos};
use crate::terrain::TerrainResource;

verus! {

/// One frame of cursor projection.  With the cursor in the window and the
/// ray meeting the terrain, the hit's terrain-plane point is recorded;
/// otherwise the last projection stands.
pub fn raycast_cursor_to_terrain(
    terrain_resource: &mut TerrainResource,
    cursor_position: Option<ScreenPos>,
    hit: Option<PlanePos>,
)
    ensures
        final(terrain_resource).cursor_projection == if cursor_position is Some
            && hit is Some {
            hit->Some_0
        } else {
            old(terrain_resource).cursor_projection
        },
{
    if cursor_position.is_some() {
        match hit {
            Option::Some(p) => {
                terrain_resource.cursor_projection = p;
            },
            Option::None => {},
        }
    }
}

} // verus!
