//! The single-button start menu of the three-phase scene flow: one play
//! button that starts the game.

use vstd::prelude::*;

use crate::game_state::GameState;
use crate::input::Interaction;
use crate::menus::ButtonColor;

verus! {

/// The play button's interaction changed.  A press repaints it pressed and
/// starts play; hovering and resting repaint it and start nothing.
pub fn menu(interaction: Interaction) -> (r: (ButtonColor, Option<GameState>))
    ensures
        interaction == Interaction::Pressed ==> r == (
            ButtonColor::Pressed,
            Option::Some(GameState::Playing),
        ),
        interaction == Interaction::Hovered ==> r == (
            ButtonColor::Hovered,
            Option::<GameState>::None,
        ),
        interaction == Interaction::Idle ==> r == (
            ButtonColor::Normal,
            Option::<GameState>::None,
        ),
{
    match interaction {
        Interaction::Pressed => (ButtonColor::Pressed, Option::Some(GameState::Playing)),
        Interaction::Hovered => (ButtonColor::Hovered, Option::None),
        Interaction::Idle => (ButtonColor::Normal, Option::None),
    }
}

} // verus!
