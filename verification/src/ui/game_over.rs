use vstd::prelude::*;
use crate::game::state::GameState;

verus! {

/// On the game-over screen, pressing the restart key starts a new round;
/// nothing else leaves the screen.
pub fn handle_game_over_input(restart_pressed: bool) -> (r: Option<GameState>)
    ensures
        r == (if restart_pressed {
            Some(GameState::Playing)
        } else {
            None
        }),
{
    if restart_pressed {
        Some(GameState::Playing)
    } else {
        None
    }
}

} // verus!
