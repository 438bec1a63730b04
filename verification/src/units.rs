//! Units: their components, clicking one to select it, and the law that a
//! click selects exactly the clicked unit.

use vstd::prelude::*;

use crate::geometry::{spec_distance_squared, distance_squared, PlanePos};
use crate::input::PointerButton;

pub mod selection;
pub mod utils;

verus! {

/// Marker component for the ring that shows under a selected unit.
#[derive(Debug, Clone, Copy, PartialEq, Eq, Structural)]
pub struct UnitSelector;

/// Marker component for a selected entity.
#[derive(Debug, Clone, Copy, PartialEq, Eq, Structural)]
pub struct Selected;

/// How far a unit walks each second, in thousandths of a world unit.
#[derive(Debug, Clone, Copy, PartialEq, Eq, Structural)]
pub struct Movement {
    pub speed: i64,
}

/// Where a unit has been ordered to walk.
#[derive(Debug, Clone, Copy, PartialEq, Eq, Structural)]
pub struct MoveTo {
    pub target: PlanePos,
}

/// Marker component for a unit.
#[derive(Debug, Clone, Copy, PartialEq, Eq, Structural)]
pub struct Unit;

/// Squared distances under this count as arrived.  The engine compares
/// against machine epsilon; at this resolution only coincident points are
/// that close.
pub const CLOSE_ENOUGH_SQ: i64 = 1;

/// Whether two points of the terrain plane are close enough to count as the
/// same place, by squared distance — square roots are dear and this needs no
/// more precision.
pub fn close_enough(v1: PlanePos, v2: PlanePos) -> (r: bool)
    requires
        v1.in_bounds(),
        v2.in_bounds(),
    ensures
        r == (spec_distance_squared(v1, v2) < CLOSE_ENOUGH_SQ),
{
    distance_squared(v1, v2) < CLOSE_ENOUGH_SQ
}

/// One engine-side effect the selection logic asks for.
#[derive(Debug, Clone, Copy, PartialEq, Eq, Structural)]
pub enum SelectionAction {
    /// Take the selection marker off a unit.
    Deselect { entity: u64 },
    /// Take the selection marker off a selector ring and hide it.
    DeselectAndHide { entity: u64 },
    /// Put the selection marker on the clicked unit.
    Select { entity: u64 },
    /// Put the selection marker on a selector ring and show it.
    SelectAndShow { entity: u64 },
}

/// The set of selected entities after performing a list of selection
/// actions, in order.
pub open spec fn sel_apply(s: Set<u64>, actions: Seq<SelectionAction>) -> Set<u64>
    decreases actions.len(),
{
    if actions.len() == 0 {
        s
    } else {
        let prev = sel_apply(s, actions.drop_last());
        match actions.last() {
            SelectionAction::Deselect { entity } => prev.remove(entity),
            SelectionAction::DeselectAndHide { entity } => prev.remove(entity),
            SelectionAction::Select { entity } => prev.insert(entity),
            SelectionAction::SelectAndShow { entity } => prev.insert(entity),
        }
    }
}

/// A unit was clicked.  Only the primary button does anything yet; the
/// others are not handed in.  Whatever was selected is deselected — units
/// lose the marker, selector rings lose it and hide — then the clicked unit
/// is selected and each of its selector rings is selected and shown.
pub fn on_click(
    button: PointerButton,
    target: u64,
    selected_units: &Vec<u64>,
    unit_selectors_selected: &Vec<u64>,
    target_selectors: &Vec<u64>,
) -> (r: Vec<SelectionAction>)
    requires
        button == PointerButton::Primary,
    ensures
        r@.len() == selected_units@.len() + unit_selectors_selected@.len() + 1
            + target_selectors@.len(),
        forall|i: int|
            0 <= i < selected_units@.len() ==> r@[i] == (SelectionAction::Deselect {
                entity: selected_units@[i],
            }),
        forall|i: int|
            0 <= i < unit_selectors_selected@.len() ==> r@[selected_units@.len() as int + i]
                == (SelectionAction::DeselectAndHide { entity: unit_selectors_selected@[i] }),
        r@[selected_units@.len() as int + unit_selectors_selected@.len() as int] == (SelectionAction::Select {
            entity: target,
        }),
        forall|i: int|
            0 <= i < target_selectors@.len() ==> r@[selected_units@.len()
                + unit_selectors_selected@.len() + 1 + i] == (SelectionAction::SelectAndShow {
                entity: target_selectors@[i],
            }),
{
    match button {
        PointerButton::Primary => {
            let mut actions = utils::remove_selection(selected_units, unit_selectors_selected);
            actions.push(SelectionAction::Select { entity: target });
            let n = target_selectors.len();
            let mut i: usize = 0;
            while i < n
                invariant
                    i <= n,
                    n == target_selectors@.len(),
                    actions@.len() == selected_units@.len() + unit_selectors_selected@.len() + 1
                        + i,
                    forall|k: int|
                        0 <= k < selected_units@.len() ==> actions@[k]
                            == (SelectionAction::Deselect { entity: selected_units@[k] }),
                    forall|k: int|
                        0 <= k < unit_selectors_selected@.len() ==> actions@[selected_units@.len() as int
                            + k] == (SelectionAction::DeselectAndHide {
                            entity: unit_selectors_selected@[k],
                        }),
                    actions@[selected_units@.len() as int + unit_selectors_selected@.len() as int]
                        == (SelectionAction::Select { entity: target }),
                    forall|k: int|
                        0 <= k < i ==> actions@[selected_units@.len() as int
                            + unit_selectors_selected@.len() as int + 1 + k]
                            == (SelectionAction::SelectAndShow { entity: target_selectors@[k] }),
                decreases n - i,
            {
                actions.push(SelectionAction::SelectAndShow { entity: target_selectors[i] });
                i = i + 1;
            }
            actions
        },
        PointerButton::Secondary => vstd::pervasive::unreached(),
        PointerButton::Middle => vstd::pervasive::unreached(),
    }
}

/// An element is in a non-empty sequence exactly when it is in the sequence
/// without its last element or is that last element.
proof fn lemma_contains_drop_last(s: Seq<u64>, x: u64)
    requires
        s.len() > 0,
    ensures
        s.contains(x) <==> (s.drop_last().contains(x) || x == s.last()),
{
    if s.contains(x) {
        let i = choose|i: int| 0 <= i < s.len() && s[i] == x;
        if i < s.len() - 1 {
            assert(s.drop_last()[i] == x);
        }
    }
    if s.drop_last().contains(x) {
        let i = choose|i: int| 0 <= i < s.drop_last().len() && s.drop_last()[i] == x;
        assert(s[i] == x);
    }
    assert(s[s.len() - 1] == s.last());
}

/// After the deselect actions for every listed unit and ring, an entity is
/// selected exactly when it was selected and neither list names it.
proof fn lemma_removals(init: Set<u64>, su: Seq<u64>, ss: Seq<u64>, actions: Seq<SelectionAction>)
    requires
        actions.len() == su.len() + ss.len(),
        forall|i: int|
            0 <= i < su.len() ==> actions[i] == (SelectionAction::Deselect { entity: su[i] }),
        forall|i: int|
            0 <= i < ss.len() ==> actions[su.len() as int + i] == (SelectionAction::DeselectAndHide {
                entity: ss[i],
            }),
    ensures
        forall|x: u64|
            sel_apply(init, actions).contains(x) <==> (init.contains(x) && !su.contains(x)
                && !ss.contains(x)),
    decreases actions.len(),
{
    if ss.len() > 0 {
        let acts1 = actions.drop_last();
        assert(actions.last() == actions[su.len() as int + ss.len() as int - 1]);
        assert(ss[ss.len() - 1] == ss.last());
        assert(actions.last() == (SelectionAction::DeselectAndHide { entity: ss.last() }));
        assert forall|i: int| 0 <= i < su.len() implies acts1[i] == (SelectionAction::Deselect {
            entity: su[i],
        }) by {
            assert(acts1[i] == actions[i]);
        }
        assert forall|i: int| 0 <= i < ss.drop_last().len() implies acts1[su.len() as int + i]
            == (SelectionAction::DeselectAndHide { entity: ss.drop_last()[i] }) by {
            assert(acts1[su.len() as int + i] == actions[su.len() as int + i]);
            assert(ss.drop_last()[i] == ss[i]);
        }
        lemma_removals(init, su, ss.drop_last(), acts1);
        assert(sel_apply(init, actions) == sel_apply(init, acts1).remove(ss.last()));
        assert forall|x: u64|
            sel_apply(init, actions).contains(x) <==> (init.contains(x) && !su.contains(x)
                && !ss.contains(x)) by {
            lemma_contains_drop_last(ss, x);
        }
    } else if su.len() > 0 {
        let acts1 = actions.drop_last();
        assert(actions.last() == actions[su.len() as int - 1]);
        assert(su[su.len() - 1] == su.last());
        assert(actions.last() == (SelectionAction::Deselect { entity: su.last() }));
        assert forall|i: int| 0 <= i < su.drop_last().len() implies acts1[i]
            == (SelectionAction::Deselect { entity: su.drop_last()[i] }) by {
            assert(acts1[i] == actions[i]);
            assert(su.drop_last()[i] == su[i]);
        }
        lemma_removals(init, su.drop_last(), ss, acts1);
        assert(sel_apply(init, actions) == sel_apply(init, acts1).remove(su.last()));
        assert forall|x: u64|
            sel_apply(init, actions).contains(x) <==> (init.contains(x) && !su.contains(x)
                && !ss.contains(x)) by {
            lemma_contains_drop_last(su, x);
        }
    } else {
        assert(sel_apply(init, actions) == init);
    }
}

/// What a primary click leaves selected: exactly the clicked unit and its
/// selector rings, whatever was selected before.  `selected_units` and
/// `unit_selectors_selected` list everything the selection held beforehand,
/// and `actions` is what [`on_click`] returned for the click.
pub proof fn lemma_on_click_selects_exactly_clicked(
    init: Set<u64>,
    selected_units: Seq<u64>,
    unit_selectors_selected: Seq<u64>,
    target: u64,
    target_selectors: Seq<u64>,
    actions: Seq<SelectionAction>,
)
    requires
        forall|x: u64|
            init.contains(x) ==> selected_units.contains(x) || unit_selectors_selected.contains(
                x,
            ),
        actions.len() == selected_units.len() + unit_selectors_selected.len() + 1
            + target_selectors.len(),
        forall|i: int|
            0 <= i < selected_units.len() ==> actions[i] == (SelectionAction::Deselect {
                entity: selected_units[i],
            }),
        forall|i: int|
            0 <= i < unit_selectors_selected.len() ==> actions[selected_units.len() as int + i]
                == (SelectionAction::DeselectAndHide { entity: unit_selectors_selected[i] }),
        actions[selected_units.len() as int + unit_selectors_selected.len() as int]
            == (SelectionAction::Select { entity: target }),
        forall|i: int|
            0 <= i < target_selectors.len() ==> actions[selected_units.len() as int
                + unit_selectors_selected.len() as int + 1 + i] == (SelectionAction::SelectAndShow {
                entity: target_selectors[i],
            }),
    ensures
        forall|x: u64|
            sel_apply(init, actions).contains(x) <==> (x == target || target_selectors.contains(
                x,
            )),
    decreases target_selectors.len(),
{
    let base: int = selected_units.len() as int + unit_selectors_selected.len() as int;
    if target_selectors.len() > 0 {
        let acts1 = actions.drop_last();
        assert(actions.last() == actions[base + 1 + target_selectors.len() as int - 1]);
        assert(target_selectors[target_selectors.len() - 1] == target_selectors.last());
        assert(actions.last() == (SelectionAction::SelectAndShow {
            entity: target_selectors.last(),
        }));
        assert forall|i: int| 0 <= i < selected_units.len() implies acts1[i]
            == (SelectionAction::Deselect { entity: selected_units[i] }) by {
            assert(acts1[i] == actions[i]);
        }
        assert forall|i: int| 0 <= i < unit_selectors_selected.len() implies acts1[selected_units.len() as int
            + i] == (SelectionAction::DeselectAndHide { entity: unit_selectors_selected[i] }) by {
            assert(acts1[selected_units.len() as int + i] == actions[selected_units.len() as int
                + i]);
        }
        assert(acts1[base] == actions[base]);
        assert forall|i: int| 0 <= i < target_selectors.drop_last().len() implies acts1[base + 1
            + i] == (SelectionAction::SelectAndShow { entity: target_selectors.drop_last()[i] }) by {
            assert(acts1[base + 1 + i] == actions[base + 1 + i]);
            assert(target_selectors.drop_last()[i] == target_selectors[i]);
        }
        lemma_on_click_selects_exactly_clicked(
            init,
            selected_units,
            unit_selectors_selected,
            target,
            target_selectors.drop_last(),
            acts1,
        );
        assert(sel_apply(init, actions) == sel_apply(init, acts1).insert(target_selectors.last()));
        assert forall|x: u64|
            sel_apply(init, actions).contains(x) <==> (x == target || target_selectors.contains(
                x,
            )) by {
            lemma_contains_drop_last(target_selectors, x);
            assert(sel_apply(init, acts1).contains(x) <==> (x == target
                || target_selectors.drop_last().contains(x)));
        }
    } else {
        let acts1 = actions.drop_last();
        assert(actions.last() == actions[base]);
        assert(actions.last() == (SelectionAction::Select { entity: target }));
        assert forall|i: int| 0 <= i < selected_units.len() implies acts1[i]
            == (SelectionAction::Deselect { entity: selected_units[i] }) by {
            assert(acts1[i] == actions[i]);
        }
        assert forall|i: int| 0 <= i < unit_selectors_selected.len() implies acts1[selected_units.len() as int
            + i] == (SelectionAction::DeselectAndHide { entity: unit_selectors_selected[i] }) by {
            assert(acts1[selected_units.len() as int + i] == actions[selected_units.len() as int
                + i]);
        }
        lemma_removals(init, selected_units, unit_selectors_selected, acts1);
        assert(sel_apply(init, actions) == sel_apply(init, acts1).insert(target));
        assert forall|x: u64|
            sel_apply(init, actions).contains(x) <==> (x == target || target_selectors.contains(
                x,
            )) by {
            assert(!target_selectors.contains(x));
            assert(sel_apply(init, acts1).contains(x) <==> (init.contains(x)
                && !selected_units.contains(x) && !unit_selectors_selected.contains(x)));
        }
    }
}

} // verus!
