//! The Roman unit roster: its configuration, its animation assets, the
//! factory that spawns its units, and the units themselves.

use vstd::prelude::*;

use crate::geometry::WorldPos;
use crate::rome_units::animations::{AnimationGraphs, RomeUnitsAnimationAssets};
use crate::rome_units::config::RomeUnitType;
use crate::rome_units::factory::{RomeUnitSpawn, RomeUnitsFactoryResource};

pub mod animations;
pub mod archer;
pub mod config;
pub mod factory;
pub mod legionary;

verus! {

/// Play begins: one legionary spawns at the origin and one archer two units
/// away along each ground axis.
pub fn spawn_units(
    factory_resource: &RomeUnitsFactoryResource,
    rome_animations: &RomeUnitsAnimationAssets,
    graphs: &mut AnimationGraphs,
) -> (r: (RomeUnitSpawn, RomeUnitSpawn))
    requires
        old(graphs).next_handle <= u64::MAX - 2,
    ensures
        factory::spec_unit_spawn(
            r.0,
            RomeUnitType::Legionary,
            WorldPos { x: 0, y: 0, z: 0 },
            *rome_animations,
            old(graphs).next_handle,
        ),
        factory::spec_unit_spawn(
            r.1,
            RomeUnitType::Archer,
            WorldPos { x: 2000, y: 0, z: 2000 },
            *rome_animations,
            (old(graphs).next_handle + 1) as u64,
        ),
        final(graphs).next_handle == old(graphs).next_handle + 2,
{
    let first = factory_resource.factory.spawn(
        &RomeUnitType::Legionary,
        &WorldPos { x: 0, y: 0, z: 0 },
        rome_animations,
        graphs,
    );
    let second = factory_resource.factory.spawn(
        &RomeUnitType::Archer,
        &WorldPos { x: 2000, y: 0, z: 2000 },
        rome_animations,
        graphs,
    );
    (first, second)
}

} // verus!
