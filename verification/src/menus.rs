//! The menu screens and the colours their buttons wear.

use vstd::prelude::*;

use crate::color::Rgb;

pub mod game_selection;
pub mod start_menu;

verus! {

/// The colour a menu button wears for each interaction.
#[derive(Debug, Clone, Copy, PartialEq, Eq, Structural)]
pub enum ButtonColor {
    Normal,
    Hovered,
    Pressed,
}

/// The grey each button colour paints, in thousandths per channel.
pub open spec fn spec_button_rgb(c: ButtonColor) -> Rgb {
    match c {
        ButtonColor::Normal => Rgb { red: 150, green: 150, blue: 150 },
        ButtonColor::Hovered => Rgb { red: 250, green: 250, blue: 250 },
        ButtonColor::Pressed => Rgb { red: 250, green: 250, blue: 250 },
    }
}

impl ButtonColor {
    /// The grey this button colour paints.
    pub fn rgb(&self) -> (r: Rgb)
        ensures
            r == spec_button_rgb(*self),
    {
        match self {
            ButtonColor::Normal => Rgb { red: 150, green: 150, blue: 150 },
            ButtonColor::Hovered => Rgb { red: 250, green: 250, blue: 250 },
            ButtonColor::Pressed => Rgb { red: 250, green: 250, blue: 250 },
        }
    }
}

} // verus!
