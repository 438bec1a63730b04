//! The build-menu button: pressing it hangs a provisional building on the
//! cursor and starts placement.

use vstd::prelude::*;

use crate::base::factions::RomeBuildingType;
use crate::geometry::{PlanePos, WorldPos};
use crate::input::Interaction;
use crate::rome_buildings::factory::RomeBuildingsFactory;
use crate::rome_buildings::lifecycle::PlacementAction;
use crate::states::UserActionState;

verus! {

/// Marker component for the build-menu button.
#[derive(Debug, Clone, Copy, PartialEq, Eq, Structural)]
pub struct RomeBuildingsUIFrame;

/// How many of the reported interactions are presses.
pub open spec fn count_pressed(s: Seq<Interaction>) -> int
    decreases s.len(),
{
    if s.len() == 0 {
        0
    } else {
        count_pressed(s.drop_last()) + if s.last() == Interaction::Pressed {
            1int
        } else {
            0
        }
    }
}

/// The build button was clicked: unless a building is already being placed,
/// every press reported this frame spawns one provisional cottage at the
/// cursor's terrain projection and placement begins.
pub fn spawn_holo(
    buildings_factory: &RomeBuildingsFactory,
    cursor: PlanePos,
    interactions: &Vec<Interaction>,
    current_user_action_state: UserActionState,
) -> (r: (Vec<PlacementAction>, Option<UserActionState>))
    ensures
        current_user_action_state == UserActionState::PlacingBuilding ==> r.0@.len() == 0 && r.1
            is None,
        current_user_action_state != UserActionState::PlacingBuilding ==> {
            &&& r.0@.len() == count_pressed(interactions@)
            &&& r.1 == if count_pressed(interactions@) > 0 {
                Option::Some(UserActionState::PlacingBuilding)
            } else {
                Option::<UserActionState>::None
            }
            &&& forall|k: int|
                0 <= k < r.0@.len() ==> crate::rome_buildings::lifecycle::is_spawn_holo_action(
                    #[trigger] r.0@[k],
                    buildings_factory.config,
                    WorldPos { x: cursor.x, y: 0, z: cursor.z },
                )
        },
{
    let mut actions: Vec<PlacementAction> = Vec::new();
    let mut next: Option<UserActionState> = Option::None;
    if current_user_action_state == UserActionState::PlacingBuilding {
        return (actions, next);
    }
    let n = interactions.len();
    let mut i: usize = 0;
    proof {
        assert(interactions@.take(0) =~= Seq::<Interaction>::empty());
    }
    while i < n
        invariant
            i <= n,
            n == interactions@.len(),
            actions@.len() == count_pressed(interactions@.take(i as int)),
            next == if count_pressed(interactions@.take(i as int)) > 0 {
                Option::Some(UserActionState::PlacingBuilding)
            } else {
                Option::<UserActionState>::None
            },
            forall|k: int|
                0 <= k < actions@.len() ==> crate::rome_buildings::lifecycle::is_spawn_holo_action(
                    #[trigger] actions@[k],
                    buildings_factory.config,
                    WorldPos { x: cursor.x, y: 0, z: cursor.z },
                ),
        decreases n - i,
    {
        proof {
            assert(interactions@.take(i as int + 1).drop_last() =~= interactions@.take(i as int));
            assert(interactions@.take(i as int + 1).last() == interactions@[i as int]);
        }
        match interactions[i] {
            Interaction::Pressed => {
                let holo = buildings_factory.spawn_holo(
                    RomeBuildingType::Cottage,
                    cursor.to_world(),
                );
                actions.push(PlacementAction::SpawnHolo { bundle: holo.1 });
                next = Option::Some(UserActionState::PlacingBuilding);
            },
            Interaction::Hovered => {},
            Interaction::Idle => {},
        }
        i = i + 1;
    }
    proof {
        assert(interactions@.take(n as int) =~= interactions@);
    }
    (actions, next)
}

/// The provisional building follows the cursor: it moves to the cursor's
/// terrain projection and keeps its current height.
pub fn move_building_getting_placed(translation: WorldPos, cursor: PlanePos) -> (r: WorldPos)
    ensures
        r == (WorldPos { x: cursor.x, y: translation.y, z: cursor.z }),
{
    WorldPos { x: cursor.x, y: translation.y, z: cursor.z }
}

} // verus!
