//! Top-level game states.
use vstd::prelude::*;

verus! {

#[derive(Clone, Copy, PartialEq, Eq, Debug, Hash, Structural)]
pub enum GameState {
    MainMenu,
    Loading,
    LoadFailed,
    Playing,
    Paused,
    Finished,
}

impl Default for GameState {
    fn default() -> (r: Self)
        ensures
            r == GameState::MainMenu,
    {
        GameState::MainMenu
    }
}

/// Physics and animations stand still while paused and once the match is finished.
pub fn simulation_paused(state: GameState) -> (r: bool)
    ensures
        r == (state == GameState::Paused || state == GameState::Finished),
{
    matches!(state, GameState::Paused | GameState::Finished)
}

} // verus!
