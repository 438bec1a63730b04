use rts_game_rs::base::factions::{Factions, RomeBuildingType};
use rts_game_rs::base::units::{AttackRange, Health, IsMoving, Lifetime, Speed, UnitState};
use rts_game_rs::color::Srgb8;
use rts_game_rs::geometry::{PlanePos, ScreenPos, Size2, WorldPos};
use rts_game_rs::rome_buildings::factory::SceneRoot;
use rts_game_rs::rome_units::animations::{AnimationGraphs, RomeUnitsAnimationAssets};
use rts_game_rs::rome_units::archer::{RomeArcher, SpawnableUnit};
use rts_game_rs::rome_units::config::RomeUnitType;
use rts_game_rs::rome_units::factory::{movement, RomeUnitsFactory, RomeUnitsFactoryResource};
use rts_game_rs::rome_units::legionary::RomeLegionary;
use rts_game_rs::rome_units::spawn_units;
use rts_game_rs::terrain::raycast::raycast_cursor_to_terrain;
use rts_game_rs::terrain::{setup as terrain_setup, TerrainConfig, TerrainResource};

fn animations() -> RomeUnitsAnimationAssets {
    RomeUnitsAnimationAssets {
        scene: 60,
        idle_animation: 61,
        walk_animation: 62,
        run_animation: 63,
        fight_animation: 64,
        die_animation: 65,
    }
}

#[test]
fn the_roster_names_its_factions_and_buildings() {
    assert_eq!(Factions::Rome, Factions::Rome);
    assert_eq!(
        RomeBuildingType::from_asset_path("buildings/Cottage.glb"),
        RomeBuildingType::Cottage
    );
    assert_eq!(
        RomeBuildingType::from_asset_path("buildings/Armory.glb"),
        RomeBuildingType::Armory
    );
    assert_eq!(
        RomeBuildingType::from_asset_path("buildings/Barracks.glb"),
        RomeBuildingType::Barracks
    );
}

#[test]
fn spawning_a_unit_builds_one_graph_and_bundles_the_run_clip() {
    let mut graphs = AnimationGraphs { next_handle: 0 };
    let spawn = RomeUnitsFactory.spawn(
        &RomeUnitType::Archer,
        &WorldPos { x: 10, y: 0, z: 20 },
        &animations(),
        &mut graphs,
    );
    assert_eq!(spawn.kind, RomeUnitType::Archer);
    assert_eq!(spawn.translation, WorldPos { x: 10, y: 0, z: 20 });
    assert_eq!(spawn.animation.graph_handle, 0);
    assert_eq!(spawn.animation.clip, 63);
    assert_eq!(spawn.scene, SceneRoot(60));
    assert_eq!(spawn.is_moving, IsMoving);
    assert_eq!(spawn.lifetime, Lifetime(10_000));
    assert_eq!(graphs.next_handle, 1);
}

#[test]
fn play_opens_with_a_legionary_and_an_archer() {
    let mut graphs = AnimationGraphs { next_handle: 5 };
    let resource = RomeUnitsFactoryResource { factory: RomeUnitsFactory };
    let (first, second) = spawn_units(&resource, &animations(), &mut graphs);
    assert_eq!(first.kind, RomeUnitType::Legionary);
    assert_eq!(first.translation, WorldPos { x: 0, y: 0, z: 0 });
    assert_eq!(first.animation.graph_handle, 5);
    assert_eq!(second.kind, RomeUnitType::Archer);
    assert_eq!(second.translation, WorldPos { x: 2000, y: 0, z: 2000 });
    assert_eq!(second.animation.graph_handle, 6);
    assert_eq!(graphs.next_handle, 7);
}

#[test]
fn marching_moves_with_speed_and_time() {
    assert_eq!(movement(1000, 500, 2000), 2000);
    assert_eq!(movement(0, -1000, 500), -500);
    assert_eq!(movement(7, 0, 1000), 7);
}

#[test]
fn the_legionary_starts_sturdy_and_slow() {
    let (name, health, speed, _immunity) = RomeLegionary::required_components();
    assert_eq!(name, "Legionary");
    assert_eq!(health, Health { max: 100, current: 100 });
    assert_eq!(speed, Speed(500));
}

#[test]
fn the_archer_starts_brisk_and_far_reaching() {
    let (name, health, speed, range, _triple) = RomeArcher::required_components();
    assert_eq!(name, "Archer");
    assert_eq!(health, Health { max: 50, current: 50 });
    assert_eq!(speed, Speed(1000));
    assert_eq!(range, AttackRange(20));
}

#[test]
fn the_archer_announces_its_kind() {
    assert_eq!(RomeArcher.build_unit(), "Archer");
}

#[test]
fn unit_state_rests_idle() {
    assert_eq!(UnitState::default(), UnitState::Idle);
    assert_eq!(Health::default(), Health { max: 0, current: 0 });
}

#[test]
fn the_terrain_spawns_from_its_configuration() {
    let config = TerrainConfig { dimensions: Size2 { x: 5000, y: 4000 }, tile_size: 1000 };
    let bundle = terrain_setup(Some(&config));
    assert_eq!(bundle.name, "Terrain");
    assert_eq!(bundle.dimensions, Size2 { x: 5000, y: 4000 });
    assert_eq!(bundle.color, Srgb8 { red: 111, green: 78, blue: 55 });
    assert_eq!(bundle.translation, WorldPos { x: 0, y: 0, z: 0 });
    assert_eq!(bundle.collider_half_extents, WorldPos { x: 5000, y: 10, z: 4000 });
}

#[test]
fn the_cursor_projection_follows_hits_and_keeps_misses() {
    let mut resource = TerrainResource { cursor_projection: PlanePos { x: 1, z: 2 } };
    raycast_cursor_to_terrain(
        &mut resource,
        Some(ScreenPos { x: 0, y: 0 }),
        Some(PlanePos { x: 9, z: 8 }),
    );
    assert_eq!(resource.cursor_projection, PlanePos { x: 9, z: 8 });
    raycast_cursor_to_terrain(&mut resource, Some(ScreenPos { x: 0, y: 0 }), None);
    assert_eq!(resource.cursor_projection, PlanePos { x: 9, z: 8 });
    raycast_cursor_to_terrain(&mut resource, None, Some(PlanePos { x: 1, z: 1 }));
    assert_eq!(resource.cursor_projection, PlanePos { x: 9, z: 8 });
}
