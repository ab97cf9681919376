use vstd::prelude::*;

verus! {

/// Phase of a game session.
#[derive(Clone, Copy, Debug, PartialEq, Eq, Structural, Hash)]
pub enum GameState {
    Setup,
    Paused,
    Playing,
    Fast,
    GameOver,
}

impl Default for GameState {
    fn default() -> (r: Self)
        ensures
            r == GameState::Setup,
    {
        GameState::Setup
    }
}

} // verus!
