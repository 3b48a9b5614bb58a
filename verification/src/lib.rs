//! A falling-block puzzle engine: the grid, the seven pieces and their
//! rotations, wall kicks, the bag randomizer, lock delay and gravity, line
//! clearing and scoring.

pub mod engine;
pub mod game_manager;
pub mod grid;
pub mod movement;
pub mod queue;
pub mod scoring;
pub mod tetromino;
pub mod timers;
