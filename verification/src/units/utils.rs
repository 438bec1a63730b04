//! De-selecting everything that is selected.

use vstd::prelude::*;

use crate::units::SelectionAction;

verus! {

/// De-select the previously selected units: each unit loses the selection
/// marker, and each selector ring loses it and is hidden.
pub fn remove_selection(selected_units: &Vec<u64>, selectors: &Vec<u64>) -> (r: Vec<
    SelectionAction,
>)
    ensures
        r@.len() == selected_units@.len() + selectors@.len(),
        forall|i: int|
            0 <= i < selected_units@.len() ==> r@[i] == (SelectionAction::Deselect {
                entity: selected_units@[i],
            }),
        forall|i: int|
            0 <= i < selectors@.len() ==> r@[selected_units@.len() as int + i]
                == (SelectionAction::DeselectAndHide { entity: selectors@[i] }),
{
    let mut actions: Vec<SelectionAction> = Vec::new();
    let n = selected_units.len();
    let mut i: usize = 0;
    while i < n
        invariant
            i <= n,
            n == selected_units@.len(),
            actions@.len() == i,
            forall|k: int|
                0 <= k < i ==> actions@[k] == (SelectionAction::Deselect {
                    entity: selected_units@[k],
                }),
        decreases n - i,
    {
        actions.push(SelectionAction::Deselect { entity: selected_units[i] });
        i = i + 1;
    }
    let m = selectors.len();
    let mut j: usize = 0;
    while j < m
        invariant
            j <= m,
            m == selectors@.len(),
            n == selected_units@.len(),
            actions@.len() == n + j,
            forall|k: int|
                0 <= k < n ==> actions@[k] == (SelectionAction::Deselect {
                    entity: selected_units@[k],
                }),
            forall|k: int|
                0 <= k < j ==> actions@[n as int + k] == (SelectionAction::DeselectAndHide {
                    entity: selectors@[k],
                }),
        decreases m - j,
    {
        actions.push(SelectionAction::DeselectAndHide { entity: selectors[j] });
        j = j + 1;
    }
    actions
}

} // verus!
