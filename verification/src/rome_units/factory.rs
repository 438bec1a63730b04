//! The factory that spawns Roman units.

use vstd::prelude::*;

use crate::base::units::{IsMoving, Lifetime};
use crate::geometry::{div_trunc, lemma_mul_bounds, WorldPos, COORD_LIMIT};
use crate::rome_buildings::factory::SceneRoot;
use crate::rome_units::animations::{
    AnimationGraphs, RomeUnitAnimationPlay, RomeUnitsAnimationAssets,
};
use crate::rome_units::config::RomeUnitType;

verus! {

/// Builds entity bundles for the Roman units.
#[derive(Debug, Clone, Copy, PartialEq, Eq, Structural)]
pub struct RomeUnitsFactory;

/// The factory as the engine holds it between frames.
#[derive(Debug, Clone, Copy, PartialEq, Eq, Structural)]
pub struct RomeUnitsFactoryResource {
    pub factory: RomeUnitsFactory,
}

/// What the engine spawns for one unit: its kind's marker, where it stands,
/// the animation to start, the model's scene, the moving marker, and a
/// ten-second lifetime.
#[derive(Debug, Clone, Copy, PartialEq, Eq, Structural)]
pub struct RomeUnitSpawn {
    pub kind: RomeUnitType,
    pub translation: WorldPos,
    pub animation: RomeUnitAnimationPlay,
    pub scene: SceneRoot,
    pub is_moving: IsMoving,
    pub lifetime: Lifetime,
}

/// The spawn the factory builds for one unit of kind `kind` at `pos`, with a
/// fresh animation graph (handle `graph_handle`) built around the run clip:
/// the unit starts out moving and lives ten seconds.
pub open spec fn spec_unit_spawn(
    r: RomeUnitSpawn,
    kind: RomeUnitType,
    pos: WorldPos,
    rome_animations: RomeUnitsAnimationAssets,
    graph_handle: u64,
) -> bool {
    r == (RomeUnitSpawn {
        kind,
        translation: pos,
        animation: RomeUnitAnimationPlay {
            graph_handle,
            clip: rome_animations.run_animation,
        },
        scene: SceneRoot(rome_animations.scene),
        is_moving: IsMoving,
        lifetime: Lifetime(10_000),
    })
}

impl RomeUnitsFactory {
    /// Spawn one unit: build an animation graph from the run clip, store it,
    /// and bundle the unit's marker, position, animation, scene, moving
    /// marker and ten-second lifetime.
    pub fn spawn(
        &self,
        unit_type: &RomeUnitType,
        pos: &WorldPos,
        rome_animations: &RomeUnitsAnimationAssets,
        graphs: &mut AnimationGraphs,
    ) -> (r: RomeUnitSpawn)
        requires
            old(graphs).next_handle < u64::MAX,
        ensures
            spec_unit_spawn(r, *unit_type, *pos, *rome_animations, old(graphs).next_handle),
            final(graphs).next_handle == old(graphs).next_handle + 1,
    {
        let graph_handle = graphs.add();
        let unit_animation_play = RomeUnitAnimationPlay {
            graph_handle,
            clip: rome_animations.run_animation,
        };
        match unit_type {
            RomeUnitType::Legionary => RomeUnitSpawn {
                kind: RomeUnitType::Legionary,
                translation: *pos,
                animation: unit_animation_play,
                scene: SceneRoot(rome_animations.scene),
                is_moving: IsMoving,
                lifetime: Lifetime(10_000),
            },
            RomeUnitType::Archer => RomeUnitSpawn {
                kind: RomeUnitType::Archer,
                translation: *pos,
                animation: unit_animation_play,
                scene: SceneRoot(rome_animations.scene),
                is_moving: IsMoving,
                lifetime: Lifetime(10_000),
            },
        }
    }
}

/// One frame of marching: a moving unit walks along the world's first axis,
/// its speed in thousandths of a unit per second over the frame's
/// milliseconds.
pub fn movement(translation_x: i64, speed: i64, delta_ms: u64) -> (r: i64)
    requires
        -COORD_LIMIT <= translation_x <= COORD_LIMIT,
        -1_000_000 <= speed <= 1_000_000,
        delta_ms <= 1_000_000,
    ensures
        r == translation_x + div_trunc(speed * delta_ms, 1000),
{
    proof {
        lemma_mul_bounds(speed as int, delta_ms as int, 1_000_000, 1_000_000);
    }
    translation_x + (speed * (delta_ms as i64)) / 1000
}

} // verus!
