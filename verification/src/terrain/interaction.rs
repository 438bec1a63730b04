//! Clicking the terrain: the primary button clears the selection, the
//! secondary button orders the selected units to the clicked spot.

use vstd::prelude::*;

use crate::geometry::{PlanePos, WorldPos};
use crate::input::PointerButton;
use crate::units::utils::remove_selection;
use crate::units::SelectionAction;

verus! {

/// An order for one unit to walk to a point of the terrain plane.
#[derive(Debug, Clone, Copy, PartialEq, Eq, Structural)]
pub struct MoveOrder {
    pub entity: u64,
    pub target: PlanePos,
}

/// The terrain was clicked at `hit`.  The primary button de-selects
/// everything; the secondary button orders every selected unit to the hit's
/// terrain-plane point; the middle button does nothing.  A click that the
/// engine reports without a hit position panics there, so none is handed in.
pub fn on_click(
    button: PointerButton,
    hit: Option<WorldPos>,
    selected_units: &Vec<u64>,
    unit_selectors_selected: &Vec<u64>,
) -> (r: (Vec<SelectionAction>, Vec<MoveOrder>))
    requires
        hit is Some,
    ensures
        button == PointerButton::Primary ==> {
            &&& r.0@.len() == selected_units@.len() + unit_selectors_selected@.len()
            &&& forall|i: int|
                0 <= i < selected_units@.len() ==> r.0@[i] == (SelectionAction::Deselect {
                    entity: selected_units@[i],
                })
            &&& forall|i: int|
                0 <= i < unit_selectors_selected@.len() ==> r.0@[selected_units@.len() as int + i]
                    == (SelectionAction::DeselectAndHide { entity: unit_selectors_selected@[i] })
            &&& r.1@.len() == 0
        },
        button == PointerButton::Secondary ==> {
            &&& r.0@.len() == 0
            &&& r.1@.len() == selected_units@.len()
            &&& forall|i: int|
                0 <= i < selected_units@.len() ==> r.1@[i] == (MoveOrder {
                    entity: selected_units@[i],
                    target: PlanePos { x: hit->Some_0.x, z: hit->Some_0.z },
                })
        },
        button == PointerButton::Middle ==> r.0@.len() == 0 && r.1@.len() == 0,
{
    let hit_position = match hit {
        Option::Some(p) => p,
        Option::None => vstd::pervasive::unreached(),
    };
    match button {
        PointerButton::Primary => {
            let actions = remove_selection(selected_units, unit_selectors_selected);
            (actions, Vec::new())
        },
        PointerButton::Secondary => {
            let target = PlanePos { x: hit_position.x, z: hit_position.z };
            let mut orders: Vec<MoveOrder> = Vec::new();
            let n = selected_units.len();
            let mut i: usize = 0;
            while i < n
                invariant
                    i <= n,
                    n == selected_units@.len(),
                    orders@.len() == i,
                    target == (PlanePos { x: hit->Some_0.x, z: hit->Some_0.z }),
                    forall|k: int|
                        0 <= k < i ==> orders@[k] == (MoveOrder {
                            entity: selected_units@[k],
                            target,
                        }),
                decreases n - i,
            {
                orders.push(MoveOrder { entity: selected_units[i], target });
                i = i + 1;
            }
            (Vec::new(), orders)
        },
        PointerButton::Middle => (Vec::new(), Vec::new()),
    }
}

} // verus!
