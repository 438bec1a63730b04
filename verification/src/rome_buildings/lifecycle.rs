//! The building placement lifecycle.
//!
//! Placement is a small state machine.  The build button hangs a provisional
//! building (the holo) on the cursor and enters `PlacingBuilding`; while
//! placing, a left click plants a definitive building, and a right click or
//! escape removes the holo and returns to `Idle`; clicking a planted building
//! highlights it and enters `BuildingSelected`.  The engine performs the
//! returned actions; [`placement_step`] replays them on a [`PlacementWorld`]
//! and proves that the holo exists exactly while placement is under way.

use vstd::prelude::*;

use crate::color::{Rgb, Rgba};
use crate::geometry::{PlanePos, WorldPos};
use crate::input::Interaction;
use crate::rome_buildings::assets::{GltfAssets, RomeBuildingsAssets};
use crate::rome_buildings::factory::{
    cottage_model_loaded, cottage_scene, is_cottage_bundle, BuildingBundle, RomeBuildingsConfig,
    RomeBuildingsFactory, SceneRoot,
};
use crate::states::UserActionState;

verus! {

/// Why a query that expects exactly one entity failed.
#[derive(Debug, Clone, Copy, PartialEq, Eq, Structural)]
pub enum QuerySingleError {
    NoEntities,
    MultipleEntities,
}

/// The material a selected building is repainted with: a pale yellow with a
/// faint glow.
#[derive(Debug, Clone, Copy, PartialEq, Eq, Structural)]
pub struct HighlightMaterial {
    pub base_color: Rgb,
    pub emissive: Rgba,
}

/// The one highlight material the lifecycle ever applies.
pub open spec fn spec_highlight_material() -> HighlightMaterial {
    HighlightMaterial {
        base_color: Rgb { red: 1000, green: 1000, blue: 500 },
        emissive: Rgba { red: 500, green: 500, blue: 200, alpha: 300 },
    }
}

/// One engine-side effect the placement logic asks for.
#[derive(Debug, Clone, PartialEq, Eq)]
pub enum PlacementAction {
    /// Spawn the provisional building, marked as getting placed.
    SpawnHolo { bundle: BuildingBundle },
    /// Spawn a definitive building with its model's scene, ready to be
    /// clicked and highlighted.
    SpawnBuilding { bundle: BuildingBundle, scene: SceneRoot },
    /// Remove the provisional building.
    DespawnHolo { entity: u64 },
    /// Take the selection marker and the highlight material off a building.
    Deselect { entity: u64 },
    /// Put the selection marker and the highlight material on a building.
    Select { entity: u64, material: HighlightMaterial },
}

/// What one placement system asks of the engine this frame: the actions to
/// perform, the state to move to, and the error it stopped on, if any.
#[derive(Debug, Clone, PartialEq, Eq)]
pub struct PlacementOutcome {
    pub actions: Vec<PlacementAction>,
    pub next: Option<UserActionState>,
    pub error: Option<QuerySingleError>,
}

/// The action that spawns the provisional cottage at `pos` under the factory
/// settings `config`.
pub open spec fn is_spawn_holo_action(
    a: PlacementAction,
    config: RomeBuildingsConfig,
    pos: WorldPos,
) -> bool {
    &&& a matches PlacementAction::SpawnHolo { bundle }
    &&& is_cottage_bundle(bundle, config, pos)
}

/// One frame of the placement phase.  A left click plants a cottage at the
/// cursor's terrain projection; a right click or escape asks for the one holo
/// to be removed and placement to end.  Removing the holo needs exactly one
/// holo to exist; with none or several, the frame stops with the query error
/// and the already queued planting stands.
///
/// A left click panics in the engine when the cottage model is missing or
/// empty, so those inputs are not handed in.
pub fn place_or_cancel_building(
    buildings_factory: &RomeBuildingsFactory,
    rome_building_assets: &RomeBuildingsAssets,
    assets_gltf: &GltfAssets,
    cursor: PlanePos,
    left_just_pressed: bool,
    right_just_pressed: bool,
    escape_just_pressed: bool,
    holos: &Vec<u64>,
) -> (r: PlacementOutcome)
    requires
        left_just_pressed ==> cottage_model_loaded(*rome_building_assets, *assets_gltf),
    ensures
        ({
            let cancel = right_just_pressed || escape_just_pressed;
            let placed: int = if left_just_pressed {
                1
            } else {
                0
            };
            &&& r.actions@.len() == placed + if cancel && holos@.len() == 1 {
                1int
            } else {
                0
            }
            &&& left_just_pressed ==> (r.actions@[0] matches PlacementAction::SpawnBuilding {
                bundle,
                scene,
            } && is_cottage_bundle(
                bundle,
                buildings_factory.config,
                WorldPos { x: cursor.x, y: 0, z: cursor.z },
            ) && scene == SceneRoot(cottage_scene(*rome_building_assets, *assets_gltf)))
            &&& (cancel && holos@.len() == 1) ==> r.actions@[placed]
                == (PlacementAction::DespawnHolo { entity: holos@[0] })
            &&& r.next == if cancel && holos@.len() == 1 {
                Option::Some(UserActionState::Idle)
            } else {
                Option::<UserActionState>::None
            }
            &&& r.error == if !cancel || holos@.len() == 1 {
                Option::<QuerySingleError>::None
            } else if holos@.len() == 0 {
                Option::Some(QuerySingleError::NoEntities)
            } else {
                Option::Some(QuerySingleError::MultipleEntities)
            }
        }),
{
    let mut actions: Vec<PlacementAction> = Vec::new();
    let mut next: Option<UserActionState> = Option::None;
    let mut error: Option<QuerySingleError> = Option::None;

    if left_just_pressed {
        let spawned = buildings_factory.spawn(
            rome_building_assets,
            assets_gltf,
            crate::base::factions::RomeBuildingType::Cottage,
            cursor.to_world(),
        );
        actions.push(PlacementAction::SpawnBuilding { bundle: spawned.0, scene: spawned.1 });
    }
    if right_just_pressed || escape_just_pressed {
        if holos.len() == 1 {
            actions.push(PlacementAction::DespawnHolo { entity: holos[0] });
            next = Option::Some(UserActionState::Idle);
        } else if holos.len() == 0 {
            error = Option::Some(QuerySingleError::NoEntities);
        } else {
            error = Option::Some(QuerySingleError::MultipleEntities);
        }
    }
    PlacementOutcome { actions, next, error }
}

/// A planted building was clicked.  While placing, the click does nothing.
/// Otherwise the clicked building is highlighted and becomes the selection;
/// when a building was already selected, that one is unhighlighted first,
/// which needs the selection to hold exactly one entity — with none or
/// several, the frame stops with the query error and nothing changes.
pub fn highlight_building(
    clicked: u64,
    current_user_action_state: UserActionState,
    building_selected: &Vec<u64>,
) -> (r: PlacementOutcome)
    ensures
        current_user_action_state == UserActionState::PlacingBuilding ==> r.actions@.len() == 0
            && r.next is None && r.error is None,
        current_user_action_state != UserActionState::PlacingBuilding ==> ({
            let selected_now = current_user_action_state == UserActionState::BuildingSelected;
            if selected_now && building_selected@.len() != 1 {
                &&& r.actions@.len() == 0
                &&& r.next is None
                &&& r.error == if building_selected@.len() == 0 {
                    Option::Some(QuerySingleError::NoEntities)
                } else {
                    Option::Some(QuerySingleError::MultipleEntities)
                }
            } else {
                let deselects: int = if selected_now {
                    1
                } else {
                    0
                };
                &&& r.actions@.len() == deselects + 1
                &&& selected_now ==> r.actions@[0] == (PlacementAction::Deselect {
                    entity: building_selected@[0],
                })
                &&& r.actions@[deselects] == (PlacementAction::Select {
                    entity: clicked,
                    material: spec_highlight_material(),
                })
                &&& r.next == Option::Some(UserActionState::BuildingSelected)
                &&& r.error is None
            }
        }),
{
    let mut actions: Vec<PlacementAction> = Vec::new();
    if current_user_action_state == UserActionState::PlacingBuilding {
        return PlacementOutcome { actions, next: Option::None, error: Option::None };
    }
    if current_user_action_state == UserActionState::BuildingSelected {
        if building_selected.len() == 0 {
            return PlacementOutcome {
                actions,
                next: Option::None,
                error: Option::Some(QuerySingleError::NoEntities),
            };
        }
        if building_selected.len() > 1 {
            return PlacementOutcome {
                actions,
                next: Option::None,
                error: Option::Some(QuerySingleError::MultipleEntities),
            };
        }
        actions.push(PlacementAction::Deselect { entity: building_selected[0] });
    }
    actions.push(
        PlacementAction::Select {
            entity: clicked,
            material: HighlightMaterial {
                base_color: Rgb { red: 1000, green: 1000, blue: 500 },
                emissive: Rgba { red: 500, green: 500, blue: 200, alpha: 300 },
            },
        },
    );
    PlacementOutcome {
        actions,
        next: Option::Some(UserActionState::BuildingSelected),
        error: Option::None,
    }
}

/// The placement-relevant slice of the engine world: the pointer state, the
/// entities that carry the placement and selection markers, the planted
/// buildings, and the id the next spawned entity gets.
#[derive(Debug, Clone, PartialEq, Eq)]
pub struct PlacementWorld {
    pub state: UserActionState,
    pub holos: Vec<u64>,
    pub selected: Vec<u64>,
    pub buildings: Vec<u64>,
    pub next_entity: u64,
}

/// The mathematical shadow of a [`PlacementWorld`].
#[verifier::ext_equal]
pub struct PlacementView {
    pub state: UserActionState,
    pub holos: Seq<u64>,
    pub selected: Seq<u64>,
    pub buildings: Seq<u64>,
    pub next_entity: u64,
}

impl View for PlacementWorld {
    type V = PlacementView;

    open spec fn view(&self) -> PlacementView {
        PlacementView {
            state: self.state,
            holos: self.holos@,
            selected: self.selected@,
            buildings: self.buildings@,
            next_entity: self.next_entity,
        }
    }
}

/// The sequence with every occurrence of `target` taken out, order kept.
pub open spec fn seq_remove(s: Seq<u64>, target: u64) -> Seq<u64>
    decreases s.len(),
{
    if s.len() == 0 {
        Seq::<u64>::empty()
    } else if s.last() == target {
        seq_remove(s.drop_last(), target)
    } else {
        seq_remove(s.drop_last(), target).push(s.last())
    }
}

/// What one action does to the world: a spawn takes the next entity id, a
/// despawn or deselect takes the entity out of its set, a select adds it.
pub open spec fn apply_one(v: PlacementView, a: PlacementAction) -> PlacementView {
    match a {
        PlacementAction::SpawnHolo { .. } => PlacementView {
            holos: v.holos.push(v.next_entity),
            next_entity: (v.next_entity + 1) as u64,
            ..v
        },
        PlacementAction::SpawnBuilding { .. } => PlacementView {
            buildings: v.buildings.push(v.next_entity),
            next_entity: (v.next_entity + 1) as u64,
            ..v
        },
        PlacementAction::DespawnHolo { entity } => PlacementView {
            holos: seq_remove(v.holos, entity),
            ..v
        },
        PlacementAction::Deselect { entity } => PlacementView {
            selected: seq_remove(v.selected, entity),
            ..v
        },
        PlacementAction::Select { entity, .. } => PlacementView {
            selected: v.selected.push(entity),
            ..v
        },
    }
}

/// The world after performing a whole list of actions, in order.
pub open spec fn spec_apply(v: PlacementView, actions: Seq<PlacementAction>) -> PlacementView
    decreases actions.len(),
{
    if actions.len() == 0 {
        v
    } else {
        apply_one(spec_apply(v, actions.drop_last()), actions.last())
    }
}

/// The placement machine as one mathematical step: the world after an event
/// under the engine's frame order — actions first, the state change last —
/// and the query error the frame stops on.  The build button is taken to
/// report at most one press, as the one button does.
pub open spec fn spec_step(v: PlacementView, event: PlacementEvent) -> (PlacementView, Option<
    QuerySingleError,
>) {
    match event {
        PlacementEvent::BuildButton { interactions } => {
            if v.state == UserActionState::PlacingBuilding || crate::rome_buildings::ui::count_pressed(interactions@) == 0 {
                (v, Option::<QuerySingleError>::None)
            } else {
                (
                    PlacementView {
                        state: UserActionState::PlacingBuilding,
                        holos: v.holos.push(v.next_entity),
                        next_entity: (v.next_entity + 1) as u64,
                        ..v
                    },
                    Option::<QuerySingleError>::None,
                )
            }
        },
        PlacementEvent::PlacementFrame { left_just_pressed, right_just_pressed, escape_just_pressed } => {
            if v.state != UserActionState::PlacingBuilding {
                (v, Option::<QuerySingleError>::None)
            } else {
                let cancel = right_just_pressed || escape_just_pressed;
                let planted = if left_just_pressed {
                    PlacementView {
                        buildings: v.buildings.push(v.next_entity),
                        next_entity: (v.next_entity + 1) as u64,
                        ..v
                    }
                } else {
                    v
                };
                if !cancel {
                    (planted, Option::<QuerySingleError>::None)
                } else if v.holos.len() == 1 {
                    (
                        PlacementView {
                            state: UserActionState::Idle,
                            holos: seq_remove(planted.holos, planted.holos[0]),
                            ..planted
                        },
                        Option::<QuerySingleError>::None,
                    )
                } else if v.holos.len() == 0 {
                    (planted, Option::Some(QuerySingleError::NoEntities))
                } else {
                    (planted, Option::Some(QuerySingleError::MultipleEntities))
                }
            }
        },
        PlacementEvent::BuildingClick { entity } => {
            if v.state == UserActionState::PlacingBuilding {
                (v, Option::<QuerySingleError>::None)
            } else if v.state == UserActionState::BuildingSelected && v.selected.len() != 1 {
                (
                    v,
                    Option::Some(
                        if v.selected.len() == 0 {
                            QuerySingleError::NoEntities
                        } else {
                            QuerySingleError::MultipleEntities
                        },
                    ),
                )
            } else {
                let deselected = if v.state == UserActionState::BuildingSelected {
                    seq_remove(v.selected, v.selected[0])
                } else {
                    v.selected
                };
                (
                    PlacementView {
                        state: UserActionState::BuildingSelected,
                        selected: deselected.push(entity),
                        ..v
                    },
                    Option::<QuerySingleError>::None,
                )
            }
        },
    }
}

/// The placement invariant: the provisional building exists exactly while
/// placement is under way.
pub open spec fn holo_inv(v: PlacementView) -> bool {
    if v.state == UserActionState::PlacingBuilding {
        v.holos.len() == 1
    } else {
        v.holos.len() == 0
    }
}

/// Take every occurrence of `target` out of the vector, keeping the order.
fn remove_entity(v: &mut Vec<u64>, target: u64)
    ensures
        final(v)@ == seq_remove(old(v)@, target),
{
    let n = v.len();
    let mut out: Vec<u64> = Vec::new();
    let mut i: usize = 0;
    proof {
        assert(v@.take(0) =~= Seq::<u64>::empty());
    }
    while i < n
        invariant
            i <= n,
            n == v@.len(),
            v@ == old(v)@,
            out@ == seq_remove(v@.take(i as int), target),
        decreases n - i,
    {
        proof {
            assert(v@.take(i as int + 1).drop_last() =~= v@.take(i as int));
            assert(v@.take(i as int + 1).last() == v@[i as int]);
        }
        if v[i] != target {
            out.push(v[i]);
        }
        i = i + 1;
    }
    proof {
        assert(v@.take(n as int) =~= v@);
    }
    *v = out;
}

/// Perform a list of actions on the world, in order.
pub fn apply_actions(w: &mut PlacementWorld, actions: &Vec<PlacementAction>)
    requires
        old(w).next_entity + actions@.len() <= u64::MAX,
    ensures
        final(w)@ == spec_apply(old(w)@, actions@),
{
    let n = actions.len();
    let mut i: usize = 0;
    proof {
        assert(actions@.take(0) =~= Seq::<PlacementAction>::empty());
    }
    while i < n
        invariant
            i <= n,
            n == actions@.len(),
            old(w).next_entity + n <= u64::MAX,
            w@ == spec_apply(old(w)@, actions@.take(i as int)),
            w.next_entity <= old(w).next_entity + i,
        decreases n - i,
    {
        proof {
            assert(actions@.take(i as int + 1).drop_last() =~= actions@.take(i as int));
            assert(actions@.take(i as int + 1).last() == actions@[i as int]);
        }
        match &actions[i] {
            PlacementAction::SpawnHolo { .. } => {
                let id = w.next_entity;
                w.holos.push(id);
                w.next_entity = w.next_entity + 1;
            },
            PlacementAction::SpawnBuilding { .. } => {
                let id = w.next_entity;
                w.buildings.push(id);
                w.next_entity = w.next_entity + 1;
            },
            PlacementAction::DespawnHolo { entity } => {
                remove_entity(&mut w.holos, *entity);
            },
            PlacementAction::Deselect { entity } => {
                remove_entity(&mut w.selected, *entity);
            },
            PlacementAction::Select { entity, .. } => {
                w.selected.push(*entity);
            },
        }
        proof {
            assert(w@ =~= spec_apply(old(w)@, actions@.take(i as int + 1)));
        }
        i = i + 1;
    }
    proof {
        assert(actions@.take(n as int) =~= actions@);
    }
}

/// One input the placement systems can receive in a frame.
#[derive(Debug, Clone, PartialEq, Eq)]
pub enum PlacementEvent {
    /// The build button reported these interactions.  The scene holds one
    /// build button, so at most one interaction arrives.
    BuildButton { interactions: Vec<Interaction> },
    /// A frame of the placement phase: the mouse clicks and the escape key.
    PlacementFrame {
        left_just_pressed: bool,
        right_just_pressed: bool,
        escape_just_pressed: bool,
    },
    /// A planted building was clicked.
    BuildingClick { entity: u64 },
}

/// Drive one event through the placement systems and replay the returned
/// actions on the world, moving to the returned state afterwards as the
/// engine does between frames.
///
/// The holo invariant is preserved: after any event, the provisional
/// building exists exactly while placement is under way.
pub fn placement_step(
    w: &mut PlacementWorld,
    buildings_factory: &RomeBuildingsFactory,
    rome_building_assets: &RomeBuildingsAssets,
    assets_gltf: &GltfAssets,
    cursor: PlanePos,
    event: &PlacementEvent,
) -> (r: Option<QuerySingleError>)
    requires
        holo_inv(old(w)@),
        old(w).next_entity <= u64::MAX - 2,
        event matches PlacementEvent::BuildButton { interactions } ==> interactions@.len() <= 1,
        (event matches PlacementEvent::PlacementFrame { left_just_pressed, .. }
            && *left_just_pressed && old(w).state == UserActionState::PlacingBuilding)
            ==> cottage_model_loaded(*rome_building_assets, *assets_gltf),
    ensures
        holo_inv(final(w)@),
        final(w)@ == spec_step(old(w)@, *event).0,
        r == spec_step(old(w)@, *event).1,
{
    match event {
        PlacementEvent::BuildButton { interactions } => {
            let (actions, next) = crate::rome_buildings::ui::spawn_holo(
                buildings_factory,
                cursor,
                interactions,
                w.state,
            );
            proof {
                if old(w).state != UserActionState::PlacingBuilding {
                    if interactions@.len() == 0 {
                        assert(crate::rome_buildings::ui::count_pressed(interactions@) == 0);
                    } else {
                        assert(interactions@.drop_last().len() == 0);
                        assert(crate::rome_buildings::ui::count_pressed(interactions@.drop_last())
                            == 0);
                    }
                }
                assert(actions@.len() <= 1);
            }
            apply_actions(w, &actions);
            if let Option::Some(s) = next {
                w.state = s;
            }
            proof {
                let v0 = old(w)@;
                let acts = actions@;
                if old(w).state == UserActionState::PlacingBuilding {
                    assert(spec_apply(v0, acts) == v0);
                } else if acts.len() == 1 {
                    assert(acts.drop_last().len() == 0);
                    assert(spec_apply(v0, acts.drop_last()) == v0);
                    assert(is_spawn_holo_action(
                        acts[0],
                        buildings_factory.config,
                        WorldPos { x: cursor.x, y: 0, z: cursor.z },
                    ));
                    assert(acts.last() == acts[0]);
                    assert(spec_apply(v0, acts).holos =~= v0.holos.push(v0.next_entity));
                } else {
                    assert(spec_apply(v0, acts) == v0);
                }
            }
            Option::None
        },
        PlacementEvent::PlacementFrame {
            left_just_pressed,
            right_just_pressed,
            escape_just_pressed,
        } => {
            if w.state == UserActionState::PlacingBuilding {
                let outcome = place_or_cancel_building(
                    buildings_factory,
                    rome_building_assets,
                    assets_gltf,
                    cursor,
                    *left_just_pressed,
                    *right_just_pressed,
                    *escape_just_pressed,
                    &w.holos,
                );
                apply_actions(w, &outcome.actions);
                if let Option::Some(s) = outcome.next {
                    w.state = s;
                }
                proof {
                    let v0 = old(w)@;
                    let acts = outcome.actions@;
                    let cancel = *right_just_pressed || *escape_just_pressed;
                    let e = v0.holos[0];
                    assert(seq_remove(v0.holos, e) =~= Seq::<u64>::empty()) by {
                        assert(v0.holos.last() == e);
                        assert(v0.holos.drop_last().len() == 0);
                        assert(seq_remove(v0.holos.drop_last(), e) =~= Seq::<u64>::empty());
                    };
                    if *left_just_pressed {
                        if cancel {
                            assert(acts.len() == 2);
                            assert(acts.drop_last().drop_last().len() == 0);
                            assert(spec_apply(v0, acts.drop_last().drop_last()) == v0);
                            assert(acts.drop_last().last() == acts[0]);
                            let v1 = apply_one(v0, acts[0]);
                            assert(spec_apply(v0, acts.drop_last()) == v1);
                            assert(acts[0] is SpawnBuilding);
                            assert(v1.holos == v0.holos);
                            assert(acts.last() == (PlacementAction::DespawnHolo { entity: e }));
                            assert(spec_apply(v0, acts).holos =~= Seq::<u64>::empty());
                        } else {
                            assert(acts.len() == 1);
                            assert(acts.drop_last().len() == 0);
                            assert(acts.last() == acts[0]);
                            assert(acts[0] is SpawnBuilding);
                            assert(spec_apply(v0, acts).holos == v0.holos);
                        }
                    } else {
                        if cancel {
                            assert(acts.len() == 1);
                            assert(acts.drop_last().len() == 0);
                            assert(acts.last() == acts[0]);
                            assert(acts[0] == (PlacementAction::DespawnHolo { entity: e }));
                            assert(spec_apply(v0, acts).holos =~= Seq::<u64>::empty());
                        } else {
                            assert(acts.len() == 0);
                            assert(spec_apply(v0, acts) == v0);
                        }
                    }
                }
                outcome.error
            } else {
                Option::None
            }
        },
        PlacementEvent::BuildingClick { entity } => {
            let outcome = highlight_building(*entity, w.state, &w.selected);
            apply_actions(w, &outcome.actions);
            if let Option::Some(s) = outcome.next {
                w.state = s;
            }
            proof {
                let v0 = old(w)@;
                let acts = outcome.actions@;
                if old(w).state == UserActionState::PlacingBuilding {
                    assert(spec_apply(v0, acts) == v0);
                } else if acts.len() == 0 {
                    assert(spec_apply(v0, acts) == v0);
                } else if acts.len() == 1 {
                    assert(acts.drop_last().len() == 0);
                    assert(acts.last() == acts[0]);
                    assert(acts[0] is Select);
                    assert(spec_apply(v0, acts).holos == v0.holos);
                } else {
                    assert(acts.len() == 2);
                    assert(acts.drop_last().drop_last().len() == 0);
                    assert(spec_apply(v0, acts.drop_last().drop_last()) == v0);
                    assert(acts.drop_last().last() == acts[0]);
                    let v1 = apply_one(v0, acts[0]);
                    assert(spec_apply(v0, acts.drop_last()) == v1);
                    assert(acts[0] is Deselect);
                    assert(v1.holos == v0.holos);
                    assert(acts.last() == acts[1]);
                    assert(acts[1] is Select);
                    assert(spec_apply(v0, acts).holos == v0.holos);
                }
            }
            outcome.error
        },
    }
}

/// Opening placement and then cancelling it leaves the world exactly as it
/// was, but for the one entity id the holo spent: the provisional building
/// comes and goes without a trace.  `press` is a build-button event with at
/// least one press, and `cancel` a placement frame with no left click and
/// the right button or escape down.
pub proof fn lemma_cancel_undoes_build(
    v: PlacementView,
    press: PlacementEvent,
    cancel: PlacementEvent,
)
    requires
        holo_inv(v),
        v.state == UserActionState::Idle,
        v.next_entity < u64::MAX,
        press matches PlacementEvent::BuildButton { interactions }
            && crate::rome_buildings::ui::count_pressed(interactions@) > 0,
        cancel matches PlacementEvent::PlacementFrame {
            left_just_pressed,
            right_just_pressed,
            escape_just_pressed,
        } && !left_just_pressed && (right_just_pressed || escape_just_pressed),
    ensures
        spec_step(spec_step(v, press).0, cancel).0 == (PlacementView {
            next_entity: (v.next_entity + 1) as u64,
            ..v
        }),
        spec_step(v, press).1 is None,
        spec_step(spec_step(v, press).0, cancel).1 is None,
{
    let v1 = spec_step(v, press).0;
    assert(v1.holos == v.holos.push(v.next_entity));
    assert(v1.holos.len() == 1);
    assert(v1.holos[0] == v.next_entity);
    let v2 = spec_step(v1, cancel).0;
    assert(v2.holos == seq_remove(v1.holos, v1.holos[0]));
    assert(seq_remove(v1.holos, v1.holos[0]) =~= Seq::<u64>::empty()) by {
        assert(v1.holos.last() == v1.holos[0]);
        assert(v1.holos.drop_last().len() == 0);
        assert(seq_remove(v1.holos.drop_last(), v1.holos[0]) =~= Seq::<u64>::empty());
    };
    assert(v.holos =~= Seq::<u64>::empty());
    assert(v2 =~= (PlacementView { next_entity: (v.next_entity + 1) as u64, ..v }));
}

} // verus!
