//! The coarse phase of the game, in its full form, and the quit decision.

use vstd::prelude::*;

verus! {

/// The phase the game is in.  Assets load first; the start menu then leads to
/// game selection, the editors, the options, the credits or out of the game.
#[derive(Clone, Copy, Eq, PartialEq, Debug, Hash, Structural)]
pub enum GameState {
    Loading,
    StartMenu,
    GameSelection,
    LoadGame,
    Playing,
    MapEditor,
    HeroEditor,
    Options,
    Credits,
    ExitingGame,
}

impl Default for GameState {
    fn default() -> (r: Self)
        ensures
            r == GameState::Loading,
    {
        GameState::Loading
    }
}

/// The game quits exactly when the left command key and escape are held
/// together.
pub fn exit_requested(super_left_pressed: bool, escape_pressed: bool) -> (r: bool)
    ensures
        r == (super_left_pressed && escape_pressed),
{
    super_left_pressed && escape_pressed
}

} // verus!
