//! The factory that turns a Roman building kind into an entity bundle.

use vstd::prelude::*;

use crate::base::buildings::BuildingGettingPlaced;
use crate::base::factions::RomeBuildingType;
use crate::color::Hsl;
use crate::geometry::WorldPos;
use crate::rome_buildings::assets::{GltfAssets, RomeBuildingsAssets};

verus! {

/// The settings of the Roman building factory: the uniform scale a building
/// is spawned with, in thousandths.
#[derive(Debug, Clone, Copy, PartialEq, Eq, Structural)]
pub struct RomeBuildingsConfig {
    pub size: i64,
}

/// Builds entity bundles for the Roman buildings.
#[derive(Debug, Clone, Copy, PartialEq, Eq, Structural)]
pub struct RomeBuildingsFactory {
    pub config: RomeBuildingsConfig,
}

/// The factory as the engine holds it between frames.
#[derive(Debug, Clone, Copy, PartialEq, Eq, Structural)]
pub struct RomeBuildingsFactoryResource {
    pub factory: RomeBuildingsFactory,
}

/// The scene a spawned entity is drawn with, as a scene handle.
#[derive(Debug, Clone, Copy, PartialEq, Eq, Structural)]
pub struct SceneRoot(pub u64);

/// What the engine spawns for one building: its entity name, where it stands,
/// its uniform scale, its picking and visibility flags, its box collider's
/// half-extents and the collider's debug colour.
#[derive(Debug, Clone, PartialEq, Eq)]
pub struct BuildingBundle {
    pub name: String,
    pub translation: WorldPos,
    pub scale: i64,
    pub pickable: bool,
    pub visible: bool,
    pub collider_half_extents: WorldPos,
    pub debug_color: Hsl,
}

/// The bundle the factory builds for a cottage standing at `pos` under the
/// settings `config`: named "RomeCottage", scaled by the configured size,
/// pickable and visible, with a quarter-unit box collider drawn in a deep
/// blue hue.
pub open spec fn is_cottage_bundle(
    b: BuildingBundle,
    config: RomeBuildingsConfig,
    pos: WorldPos,
) -> bool {
    &&& b.name@ == "RomeCottage"@
    &&& b.translation == pos
    &&& b.scale == config.size
    &&& b.pickable
    &&& b.visible
    &&& b.collider_half_extents == (WorldPos { x: 250, y: 250, z: 250 })
    &&& b.debug_color == (Hsl { hue: 220_000, saturation: 1000, lightness: 300 })
}

/// The cottage model has finished loading and holds at least one scene.
pub open spec fn cottage_model_loaded(
    rome_building_assets: RomeBuildingsAssets,
    assets_gltf: GltfAssets,
) -> bool {
    &&& rome_building_assets.spec_model_handle(RomeBuildingType::Cottage) is Some
    &&& assets_gltf.spec_get(
        rome_building_assets.spec_model_handle(RomeBuildingType::Cottage)->Some_0,
    ) matches Option::Some(m) && m.scenes@.len() > 0
}

/// The first scene of the loaded cottage model.
pub open spec fn cottage_scene(
    rome_building_assets: RomeBuildingsAssets,
    assets_gltf: GltfAssets,
) -> u64 {
    assets_gltf.spec_get(
        rome_building_assets.spec_model_handle(RomeBuildingType::Cottage)->Some_0,
    )->Some_0.scenes@[0]
}

impl RomeBuildingsFactory {
    /// The bundle for one building kind standing at `pos`.  Only the cottage
    /// has been modelled so far; the other kinds are not handed in.
    pub fn building(&self, building_type: RomeBuildingType, pos: WorldPos) -> (r: BuildingBundle)
        requires
            building_type == RomeBuildingType::Cottage,
        ensures
            is_cottage_bundle(r, self.config, pos),
    {
        match building_type {
            RomeBuildingType::Cottage => BuildingBundle {
                name: "RomeCottage".to_owned(),
                translation: pos,
                scale: self.config.size,
                pickable: true,
                visible: true,
                collider_half_extents: WorldPos { x: 250, y: 250, z: 250 },
                debug_color: Hsl { hue: 220_000, saturation: 1000, lightness: 300 },
            },
            RomeBuildingType::Barracks => vstd::pervasive::unreached(),
            RomeBuildingType::Armory => vstd::pervasive::unreached(),
        }
    }

    /// The provisional building that follows the cursor: the building bundle
    /// together with the placement marker.
    pub fn spawn_holo(&self, building_type: RomeBuildingType, pos: WorldPos) -> (r: (
        BuildingGettingPlaced,
        BuildingBundle,
    ))
        requires
            building_type == RomeBuildingType::Cottage,
        ensures
            is_cottage_bundle(r.1, self.config, pos),
    {
        (BuildingGettingPlaced, self.building(building_type, pos))
    }

    /// The definitive building: the building bundle together with the first
    /// scene of its loaded model.  The model must have finished loading and
    /// hold at least one scene.
    pub fn spawn(
        &self,
        rome_building_assets: &RomeBuildingsAssets,
        assets_gltf: &GltfAssets,
        building_type: RomeBuildingType,
        pos: WorldPos,
    ) -> (r: (BuildingBundle, SceneRoot))
        requires
            building_type == RomeBuildingType::Cottage,
            cottage_model_loaded(*rome_building_assets, *assets_gltf),
        ensures
            is_cottage_bundle(r.0, self.config, pos),
            r.1 == SceneRoot(cottage_scene(*rome_building_assets, *assets_gltf)),
    {
        let model_gltf = rome_building_assets.model_handle(building_type).unwrap();
        let model = match assets_gltf.get(model_gltf) {
            Option::Some(m) => m,
            Option::None => vstd::pervasive::unreached(),
        };
        (self.building(building_type, pos), SceneRoot(model.scenes[0]))
    }
}

} // verus!
