//! The coarse phase of the game, in its three-phase form.
//!
//! An earlier scene flow only knows loading, the start menu and play; the
//! richer flow lives in [`crate::game_states`].

use vstd::prelude::*;

verus! {

/// The phase the game is in: assets load first, then the start menu shows,
/// then play begins.
#[derive(Clone, Copy, Eq, PartialEq, Debug, Hash, Structural)]
pub enum GameState {
    Loading,
    StartMenu,
    Playing,
}

impl Default for GameState {
    fn default() -> (r: Self)
        ensures
            r == GameState::Loading,
    {
        GameState::Loading
    }
}

} // verus!
