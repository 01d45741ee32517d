//! The game mode state machine.

use vstd::prelude::*;

verus! {

/// Mode of the session. The only transitions are `Menu` to `Playing` on a
/// confirm signal, `Playing` to `GameOver` on a collision, and `GameOver`
/// back to `Playing` on a confirm signal, which runs the reset protocol.
#[derive(Clone, Copy, Debug, PartialEq, Eq, Structural)]
pub enum GameState {
    /// Initial mode, waiting for the confirm signal to start a round.
    Menu,
    /// A round is being simulated.
    Playing,
    /// The round ended on a collision; waiting for the confirm signal.
    GameOver,
}

impl GameState {
    /// The mode every session begins in.
    pub fn initial() -> (mode: GameState)
        ensures
            mode == GameState::Menu,
    {
        GameState::Menu
    }
}

} // verus!
