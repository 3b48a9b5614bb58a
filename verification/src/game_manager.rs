//! The game phase and the logical intents that drive it.

use vstd::prelude::*;

verus! {

/// What the player asks of the engine.
#[derive(Clone, Copy, Debug, PartialEq, Eq, Structural)]
pub enum Intent {
    StartGame,
    RestartGame,
    MoveLeft,
    MoveRight,
    SoftDrop,
    HardDrop,
    RotateCW,
    RotateCCW,
    ToggleHelp,
}

/// Where a game stands.
#[derive(Clone, Copy, Debug, PartialEq, Eq, Structural)]
pub enum GamePhase {
    NotStarted,
    Playing,
    Lost,
}

/// The phase of the game, as the engine keeps it.
#[derive(Clone, Copy, Debug, PartialEq, Eq, Structural)]
pub struct GameState {
    pub phase: GamePhase,
}

impl GameState {
    /// A game that has not started.
    pub fn new() -> (state: Self)
        ensures
            state.phase == GamePhase::NotStarted,
    {
        GameState { phase: GamePhase::NotStarted }
    }

    /// Whether a game is being played.
    pub fn started(&self) -> (playing: bool)
        ensures
            playing == (self.phase == GamePhase::Playing),
    {
        match self.phase {
            GamePhase::Playing => true,
            _ => false,
        }
    }
}

/// Starts a game on a start intent when none has started yet. Returns
/// whether the game started now.
pub fn detect_start_game(game_state: &mut GameState, start_pressed: bool) -> (started_now: bool)
    ensures
        started_now == (start_pressed && old(game_state).phase == GamePhase::NotStarted),
        final(game_state).phase == if started_now {
            GamePhase::Playing
        } else {
            old(game_state).phase
        },
{
    match game_state.phase {
        GamePhase::NotStarted => {
            if start_pressed {
                game_state.phase = GamePhase::Playing;
                true
            } else {
                false
            }
        },
        _ => false,
    }
}

/// Puts the phase to `Playing` on a restart intent, whatever it was. Returns
/// whether everything else has to be reset with it.
pub fn detect_restart_game(game_state: &mut GameState, restart_pressed: bool) -> (restart: bool)
    ensures
        restart == restart_pressed,
        final(game_state).phase == if restart_pressed {
            GamePhase::Playing
        } else {
            old(game_state).phase
        },
{
    if restart_pressed {
        game_state.phase = GamePhase::Playing;
    }
    restart_pressed
}

} // verus!
