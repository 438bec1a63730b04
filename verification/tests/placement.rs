use rts_game_rs::base::factions::RomeBuildingType;
use rts_game_rs::geometry::{PlanePos, WorldPos};
use rts_game_rs::input::Interaction;
use rts_game_rs::rome_buildings::assets::{GltfAssets, GltfModel, RomeBuildingsAssets};
use rts_game_rs::rome_buildings::factory::{
    RomeBuildingsConfig, RomeBuildingsFactory, RomeBuildingsFactoryResource, SceneRoot,
};
use rts_game_rs::rome_buildings::lifecycle::{
    apply_actions, highlight_building, place_or_cancel_building, placement_step, PlacementAction,
    PlacementEvent, PlacementWorld, QuerySingleError,
};
use rts_game_rs::rome_buildings::ui::{move_building_getting_placed, spawn_holo};
use rts_game_rs::states::UserActionState;

fn factory() -> RomeBuildingsFactory {
    RomeBuildingsFactory { config: RomeBuildingsConfig { size: 2000 } }
}

fn assets() -> RomeBuildingsAssets {
    RomeBuildingsAssets { cottage: Some(7), barracks: None, armory: None }
}

fn gltf() -> GltfAssets {
    GltfAssets { entries: vec![(7, GltfModel { scenes: vec![42, 43] })] }
}

fn fresh_world() -> PlacementWorld {
    PlacementWorld {
        state: UserActionState::Idle,
        holos: Vec::new(),
        selected: Vec::new(),
        buildings: Vec::new(),
        next_entity: 100,
    }
}

fn cursor() -> PlanePos {
    PlanePos { x: 3000, z: -1500 }
}

#[test]
fn factory_builds_the_cottage_bundle() {
    let b = factory().building(RomeBuildingType::Cottage, WorldPos { x: 1, y: 0, z: 2 });
    assert_eq!(b.name, "RomeCottage");
    assert_eq!(b.translation, WorldPos { x: 1, y: 0, z: 2 });
    assert_eq!(b.scale, 2000);
    assert!(b.pickable);
    assert!(b.visible);
    assert_eq!(b.collider_half_extents, WorldPos { x: 250, y: 250, z: 250 });
    assert_eq!(b.debug_color.hue, 220_000);
    assert_eq!(b.debug_color.saturation, 1000);
    assert_eq!(b.debug_color.lightness, 300);
}

#[test]
fn factory_spawn_attaches_the_first_scene() {
    let resource = RomeBuildingsFactoryResource { factory: factory() };
    let (bundle, scene) = resource.factory.spawn(
        &assets(),
        &gltf(),
        RomeBuildingType::Cottage,
        WorldPos { x: 0, y: 0, z: 0 },
    );
    assert_eq!(bundle.name, "RomeCottage");
    assert_eq!(scene, SceneRoot(42));
}

#[test]
fn gltf_store_finds_models_by_handle() {
    let store = gltf();
    assert_eq!(store.get(7), Some(&GltfModel { scenes: vec![42, 43] }));
    assert_eq!(store.get(8), None);
}

#[test]
fn build_button_press_spawns_one_holo_and_starts_placing() {
    let (actions, next) = spawn_holo(
        &factory(),
        cursor(),
        &vec![Interaction::Pressed],
        UserActionState::Idle,
    );
    assert_eq!(actions.len(), 1);
    match &actions[0] {
        PlacementAction::SpawnHolo { bundle } => {
            assert_eq!(bundle.translation, WorldPos { x: 3000, y: 0, z: -1500 });
            assert_eq!(bundle.scale, 2000);
        }
        other => panic!("expected a holo spawn, got {:?}", other),
    }
    assert_eq!(next, Some(UserActionState::PlacingBuilding));
}

#[test]
fn build_button_hover_spawns_nothing() {
    let (actions, next) = spawn_holo(
        &factory(),
        cursor(),
        &vec![Interaction::Hovered, Interaction::Idle],
        UserActionState::Idle,
    );
    assert!(actions.is_empty());
    assert_eq!(next, None);
}

#[test]
fn build_button_is_inert_while_placing() {
    let (actions, next) = spawn_holo(
        &factory(),
        cursor(),
        &vec![Interaction::Pressed],
        UserActionState::PlacingBuilding,
    );
    assert!(actions.is_empty());
    assert_eq!(next, None);
}

#[test]
fn left_click_plants_a_building_and_keeps_placing() {
    let outcome = place_or_cancel_building(
        &factory(),
        &assets(),
        &gltf(),
        cursor(),
        true,
        false,
        false,
        &vec![5],
    );
    assert_eq!(outcome.actions.len(), 1);
    match &outcome.actions[0] {
        PlacementAction::SpawnBuilding { bundle, scene } => {
            assert_eq!(bundle.translation, WorldPos { x: 3000, y: 0, z: -1500 });
            assert_eq!(*scene, SceneRoot(42));
        }
        other => panic!("expected a building spawn, got {:?}", other),
    }
    assert_eq!(outcome.next, None);
    assert_eq!(outcome.error, None);
}

#[test]
fn right_click_cancels_placement() {
    let outcome = place_or_cancel_building(
        &factory(),
        &assets(),
        &gltf(),
        cursor(),
        false,
        true,
        false,
        &vec![5],
    );
    assert_eq!(outcome.actions, vec![PlacementAction::DespawnHolo { entity: 5 }]);
    assert_eq!(outcome.next, Some(UserActionState::Idle));
    assert_eq!(outcome.error, None);
}

#[test]
fn cancel_without_a_holo_reports_the_query_error() {
    let outcome = place_or_cancel_building(
        &factory(),
        &assets(),
        &gltf(),
        cursor(),
        false,
        false,
        true,
        &Vec::new(),
    );
    assert!(outcome.actions.is_empty());
    assert_eq!(outcome.next, None);
    assert_eq!(outcome.error, Some(QuerySingleError::NoEntities));
}

#[test]
fn cancel_with_two_holos_reports_the_query_error() {
    let outcome = place_or_cancel_building(
        &factory(),
        &assets(),
        &gltf(),
        cursor(),
        false,
        true,
        false,
        &vec![5, 6],
    );
    assert_eq!(outcome.error, Some(QuerySingleError::MultipleEntities));
}

#[test]
fn clicking_a_building_selects_it() {
    let outcome = highlight_building(9, UserActionState::Idle, &Vec::new());
    assert_eq!(outcome.actions.len(), 1);
    match &outcome.actions[0] {
        PlacementAction::Select { entity, material } => {
            assert_eq!(*entity, 9);
            assert_eq!(material.base_color.red, 1000);
            assert_eq!(material.base_color.blue, 500);
            assert_eq!(material.emissive.alpha, 300);
        }
        other => panic!("expected a select, got {:?}", other),
    }
    assert_eq!(outcome.next, Some(UserActionState::BuildingSelected));
}

#[test]
fn clicking_a_building_swaps_the_selection() {
    let outcome = highlight_building(9, UserActionState::BuildingSelected, &vec![4]);
    assert_eq!(outcome.actions.len(), 2);
    assert_eq!(outcome.actions[0], PlacementAction::Deselect { entity: 4 });
    match &outcome.actions[1] {
        PlacementAction::Select { entity, .. } => assert_eq!(*entity, 9),
        other => panic!("expected a select, got {:?}", other),
    }
}

#[test]
fn clicking_while_placing_changes_nothing() {
    let outcome = highlight_building(9, UserActionState::PlacingBuilding, &vec![4]);
    assert!(outcome.actions.is_empty());
    assert_eq!(outcome.next, None);
    assert_eq!(outcome.error, None);
}

#[test]
fn reselecting_with_a_torn_selection_reports_the_query_error() {
    let outcome = highlight_building(9, UserActionState::BuildingSelected, &vec![4, 5]);
    assert!(outcome.actions.is_empty());
    assert_eq!(outcome.error, Some(QuerySingleError::MultipleEntities));
}

#[test]
fn the_holo_follows_the_cursor_at_its_height() {
    let moved = move_building_getting_placed(WorldPos { x: 0, y: 777, z: 0 }, cursor());
    assert_eq!(moved, WorldPos { x: 3000, y: 777, z: -1500 });
}

#[test]
fn a_whole_placement_round_trip() {
    let f = factory();
    let a = assets();
    let g = gltf();
    let mut world = fresh_world();

    let press = PlacementEvent::BuildButton { interactions: vec![Interaction::Pressed] };
    assert_eq!(placement_step(&mut world, &f, &a, &g, cursor(), &press), None);
    assert_eq!(world.state, UserActionState::PlacingBuilding);
    assert_eq!(world.holos, vec![100]);

    let plant = PlacementEvent::PlacementFrame {
        left_just_pressed: true,
        right_just_pressed: false,
        escape_just_pressed: false,
    };
    assert_eq!(placement_step(&mut world, &f, &a, &g, cursor(), &plant), None);
    assert_eq!(world.state, UserActionState::PlacingBuilding);
    assert_eq!(world.holos, vec![100]);
    assert_eq!(world.buildings, vec![101]);

    let cancel = PlacementEvent::PlacementFrame {
        left_just_pressed: false,
        right_just_pressed: false,
        escape_just_pressed: true,
    };
    assert_eq!(placement_step(&mut world, &f, &a, &g, cursor(), &cancel), None);
    assert_eq!(world.state, UserActionState::Idle);
    assert!(world.holos.is_empty());

    let click = PlacementEvent::BuildingClick { entity: 101 };
    assert_eq!(placement_step(&mut world, &f, &a, &g, cursor(), &click), None);
    assert_eq!(world.state, UserActionState::BuildingSelected);
    assert_eq!(world.selected, vec![101]);
}

#[test]
fn placement_frames_are_inert_outside_placing() {
    let f = factory();
    let a = assets();
    let g = gltf();
    let mut world = fresh_world();
    let plant = PlacementEvent::PlacementFrame {
        left_just_pressed: true,
        right_just_pressed: false,
        escape_just_pressed: false,
    };
    assert_eq!(placement_step(&mut world, &f, &a, &g, cursor(), &plant), None);
    assert_eq!(world, fresh_world());
}

#[test]
fn applying_actions_replays_them_in_order() {
    let mut world = fresh_world();
    let actions = vec![
        PlacementAction::Select {
            entity: 3,
            material: match highlight_building(3, UserActionState::Idle, &Vec::new()).actions[0] {
                PlacementAction::Select { material, .. } => material,
                _ => unreachable!(),
            },
        },
        PlacementAction::Deselect { entity: 3 },
    ];
    apply_actions(&mut world, &actions);
    assert!(world.selected.is_empty());
}

#[test]
fn cancelling_undoes_opening_placement() {
    let f = factory();
    let a = assets();
    let g = gltf();
    let mut world = fresh_world();
    let press = PlacementEvent::BuildButton { interactions: vec![Interaction::Pressed] };
    placement_step(&mut world, &f, &a, &g, cursor(), &press);
    let cancel = PlacementEvent::PlacementFrame {
        left_just_pressed: false,
        right_just_pressed: true,
        escape_just_pressed: false,
    };
    placement_step(&mut world, &f, &a, &g, cursor(), &cancel);
    let mut expected = fresh_world();
    expected.next_entity += 1;
    assert_eq!(world, expected);
}
