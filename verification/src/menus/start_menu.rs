//! The start menu: one button per destination, and what pressing each does.

use vstd::prelude::*;

use crate::game_states::GameState;
use crate::input::Interaction;
use crate::menus::ButtonColor;

verus! {

/// The buttons the start menu offers.
#[derive(Debug, Clone, Copy, PartialEq, Eq, Structural)]
pub enum MenuButton {
    NewGame,
    LoadGame,
    MapEditor,
    HeroEditor,
    Options,
    Credits,
    Exit,
}

/// What the engine spawns for one menu button: its label and marker, its
/// size and spacing in thousandths of a pixel, its resting colour, and the
/// label's font size and near-white colour in thousandths.
#[derive(Debug, Clone, PartialEq, Eq)]
pub struct ButtonBundle {
    pub kind: MenuButton,
    pub text: String,
    pub width: i64,
    pub height: i64,
    pub margin_bottom: i64,
    pub background: ButtonColor,
    pub font_size: i64,
    pub text_color: crate::color::Rgb,
}

/// The bundle for one start-menu button: 150 by 65 pixels with a 5 pixel
/// gap below, resting grey, its label at font size 33 in near-white.
pub fn get_button(text: &str, component: MenuButton) -> (r: ButtonBundle)
    ensures
        r.kind == component,
        r.text@ == text@,
        r.width == 150_000,
        r.height == 65_000,
        r.margin_bottom == 5_000,
        r.background == ButtonColor::Normal,
        r.font_size == 33_000,
        r.text_color == (crate::color::Rgb { red: 900, green: 900, blue: 900 }),
{
    ButtonBundle {
        kind: component,
        text: text.to_owned(),
        width: 150_000,
        height: 65_000,
        margin_bottom: 5_000,
        background: ButtonColor::Normal,
        font_size: 33_000,
        text_color: crate::color::Rgb { red: 900, green: 900, blue: 900 },
    }
}

/// What one button's interaction change asks of the engine this frame.
#[derive(Debug, Clone, Copy, PartialEq, Eq, Structural)]
pub struct MenuOutcome {
    /// The game phase to move to, if any.
    pub next: Option<GameState>,
    /// Whether the game should quit.
    pub exit: bool,
    /// The colour to repaint the button with, if any.
    pub color: Option<ButtonColor>,
}

/// The phase a pressed start-menu button leads to; the exit button leads to
/// none and quits instead.
pub open spec fn spec_pressed_destination(kind: MenuButton) -> Option<GameState> {
    match kind {
        MenuButton::NewGame => Option::Some(GameState::GameSelection),
        MenuButton::LoadGame => Option::Some(GameState::LoadGame),
        MenuButton::MapEditor => Option::Some(GameState::MapEditor),
        MenuButton::HeroEditor => Option::Some(GameState::HeroEditor),
        MenuButton::Options => Option::Some(GameState::Options),
        MenuButton::Credits => Option::Some(GameState::Credits),
        MenuButton::Exit => Option::None,
    }
}

/// One button's interaction changed.  A press moves to the button's
/// destination — only the new-game button repaints itself pressed, and the
/// exit button quits instead of moving; hovering and resting repaint the
/// button and move nowhere.
pub fn menu_actions(kind: MenuButton, interaction: Interaction) -> (r: MenuOutcome)
    ensures
        interaction == Interaction::Pressed ==> r == (MenuOutcome {
            next: spec_pressed_destination(kind),
            exit: kind == MenuButton::Exit,
            color: if kind == MenuButton::NewGame {
                Option::Some(ButtonColor::Pressed)
            } else {
                Option::<ButtonColor>::None
            },
        }),
        interaction == Interaction::Hovered ==> r == (MenuOutcome {
            next: Option::None,
            exit: false,
            color: Option::Some(ButtonColor::Hovered),
        }),
        interaction == Interaction::Idle ==> r == (MenuOutcome {
            next: Option::None,
            exit: false,
            color: Option::Some(ButtonColor::Normal),
        }),
{
    match interaction {
        Interaction::Pressed => match kind {
            MenuButton::NewGame => MenuOutcome {
                next: Option::Some(GameState::GameSelection),
                exit: false,
                color: Option::Some(ButtonColor::Pressed),
            },
            MenuButton::LoadGame => MenuOutcome {
                next: Option::Some(GameState::LoadGame),
                exit: false,
                color: Option::None,
            },
            MenuButton::MapEditor => MenuOutcome {
                next: Option::Some(GameState::MapEditor),
                exit: false,
                color: Option::None,
            },
            MenuButton::HeroEditor => MenuOutcome {
                next: Option::Some(GameState::HeroEditor),
                exit: false,
                color: Option::None,
            },
            MenuButton::Options => MenuOutcome {
                next: Option::Some(GameState::Options),
                exit: false,
                color: Option::None,
            },
            MenuButton::Credits => MenuOutcome {
                next: Option::Some(GameState::Credits),
                exit: false,
                color: Option::None,
            },
            MenuButton::Exit => MenuOutcome { next: Option::None, exit: true, color: Option::None },
        },
        Interaction::Hovered => MenuOutcome {
            next: Option::None,
            exit: false,
            color: Option::Some(ButtonColor::Hovered),
        },
        Interaction::Idle => MenuOutcome {
            next: Option::None,
            exit: false,
            color: Option::Some(ButtonColor::Normal),
        },
    }
}

} // verus!
