use rts_game_rs::color::Srgba8;
use rts_game_rs::geometry::{PlanePos, ScreenPos, ScreenRect, WorldPos};
use rts_game_rs::input::PointerButton;
use rts_game_rs::terrain::interaction::{on_click as terrain_on_click, MoveOrder};
use rts_game_rs::units::selection::{
    create_selection_box, mouse_click, selection_step, update_selection_box, SelectionBox,
    SelectionBoxWorld, SelectionState,
};
use rts_game_rs::units::utils::remove_selection;
use rts_game_rs::units::{close_enough, on_click, SelectionAction};

#[test]
fn creating_the_box_needs_a_cursor() {
    assert_eq!(create_selection_box(None), None);
    let spawn = create_selection_box(Some(ScreenPos { x: 40_000, y: 25_000 })).unwrap();
    assert_eq!(spawn.selection_box, SelectionBox { origin: ScreenPos { x: 40_000, y: 25_000 } });
    assert_eq!(spawn.node, ScreenRect { left: 40_000, top: 25_000, width: 0, height: 0 });
    assert_eq!(spawn.color, Srgba8 { red: 0, green: 200, blue: 0, alpha: 50 });
}

#[test]
fn holding_the_button_starts_selecting() {
    let (next, despawn) = mouse_click(true, false, &Vec::new());
    assert_eq!(next, Some(SelectionState::Selecting));
    assert_eq!(despawn, None);
}

#[test]
fn releasing_the_button_ends_selecting_and_despawns_the_box() {
    let (next, despawn) = mouse_click(false, true, &vec![12]);
    assert_eq!(next, Some(SelectionState::Idle));
    assert_eq!(despawn, Some(12));
}

#[test]
fn releasing_without_a_box_despawns_nothing() {
    let (next, despawn) = mouse_click(false, true, &Vec::new());
    assert_eq!(next, Some(SelectionState::Idle));
    assert_eq!(despawn, None);
}

#[test]
fn the_box_spans_origin_and_cursor() {
    let origin = ScreenPos { x: 50_000, y: 10_000 };
    let rect = update_selection_box(origin, Some(ScreenPos { x: 20_000, y: 30_000 })).unwrap();
    assert_eq!(rect, ScreenRect { left: 20_000, top: 10_000, width: 30_000, height: 20_000 });
    assert_eq!(update_selection_box(origin, None), None);
}

#[test]
fn a_whole_drag_round_trip() {
    let mut world = SelectionBoxWorld {
        state: SelectionState::Idle,
        boxes: Vec::new(),
        next_entity: 50,
    };
    selection_step(&mut world, Some(ScreenPos { x: 1000, y: 1000 }), true, false);
    assert_eq!(world.state, SelectionState::Selecting);
    assert_eq!(world.boxes, vec![50]);

    selection_step(&mut world, Some(ScreenPos { x: 2000, y: 500 }), true, false);
    assert_eq!(world.boxes, vec![50]);

    selection_step(&mut world, Some(ScreenPos { x: 2000, y: 500 }), false, true);
    assert_eq!(world.state, SelectionState::Idle);
    assert!(world.boxes.is_empty());
}

#[test]
fn a_drag_with_the_cursor_outside_spawns_no_box() {
    let mut world = SelectionBoxWorld {
        state: SelectionState::Idle,
        boxes: Vec::new(),
        next_entity: 50,
    };
    selection_step(&mut world, None, true, false);
    assert_eq!(world.state, SelectionState::Selecting);
    assert!(world.boxes.is_empty());
}

#[test]
fn remove_selection_names_every_selected_entity() {
    let actions = remove_selection(&vec![1, 2], &vec![8]);
    assert_eq!(
        actions,
        vec![
            SelectionAction::Deselect { entity: 1 },
            SelectionAction::Deselect { entity: 2 },
            SelectionAction::DeselectAndHide { entity: 8 },
        ]
    );
}

#[test]
fn clicking_a_unit_reselects_it_and_its_rings() {
    let actions = on_click(PointerButton::Primary, 30, &vec![1, 2], &vec![8], &vec![31]);
    assert_eq!(
        actions,
        vec![
            SelectionAction::Deselect { entity: 1 },
            SelectionAction::Deselect { entity: 2 },
            SelectionAction::DeselectAndHide { entity: 8 },
            SelectionAction::Select { entity: 30 },
            SelectionAction::SelectAndShow { entity: 31 },
        ]
    );
}

#[test]
fn terrain_primary_click_clears_the_selection() {
    let (sel, moves) = terrain_on_click(
        PointerButton::Primary,
        Some(WorldPos { x: 5000, y: 0, z: 6000 }),
        &vec![1],
        &vec![8],
    );
    assert_eq!(
        sel,
        vec![
            SelectionAction::Deselect { entity: 1 },
            SelectionAction::DeselectAndHide { entity: 8 },
        ]
    );
    assert!(moves.is_empty());
}

#[test]
fn terrain_secondary_click_orders_the_selected_units_over() {
    let (sel, moves) = terrain_on_click(
        PointerButton::Secondary,
        Some(WorldPos { x: 5000, y: 0, z: 6000 }),
        &vec![1, 2],
        &vec![8],
    );
    assert!(sel.is_empty());
    assert_eq!(
        moves,
        vec![
            MoveOrder { entity: 1, target: PlanePos { x: 5000, z: 6000 } },
            MoveOrder { entity: 2, target: PlanePos { x: 5000, z: 6000 } },
        ]
    );
}

#[test]
fn terrain_middle_click_does_nothing() {
    let (sel, moves) = terrain_on_click(
        PointerButton::Middle,
        Some(WorldPos { x: 0, y: 0, z: 0 }),
        &vec![1],
        &Vec::new(),
    );
    assert!(sel.is_empty());
    assert!(moves.is_empty());
}

#[test]
fn close_enough_is_coincidence_at_this_resolution() {
    let p = PlanePos { x: 4000, z: -100 };
    assert!(close_enough(p, p));
    assert!(!close_enough(p, PlanePos { x: 4001, z: -100 }));
}

fn replay_selection(initial: Vec<u64>, actions: &[SelectionAction]) -> Vec<u64> {
    let mut selected = initial;
    for action in actions {
        match action {
            SelectionAction::Deselect { entity } | SelectionAction::DeselectAndHide { entity } => {
                selected.retain(|e| e != entity);
            }
            SelectionAction::Select { entity } | SelectionAction::SelectAndShow { entity } => {
                selected.push(*entity);
            }
        }
    }
    selected
}

#[test]
fn a_click_leaves_exactly_the_clicked_unit_and_its_rings_selected() {
    let actions = on_click(PointerButton::Primary, 30, &vec![1, 2], &vec![8, 9], &vec![31, 32]);
    let selected = replay_selection(vec![1, 2, 8, 9], &actions);
    assert_eq!(selected, vec![30, 31, 32]);
}
