//! Lifecycle states and the discrete events the engine reports.

use vstd::prelude::*;

verus! {

/// The engine's lifecycle: exactly one of these at a time.
#[derive(Clone, Copy, PartialEq, Eq, Structural, Debug)]
pub enum GameState {
    Playing,
    Paused,
    GameOver,
}

/// One event per observable thing an engine operation did.  Events accumulate
/// in the engine until the consumer drains them.
#[derive(Clone, Copy, PartialEq, Eq, Structural, Debug)]
pub enum GameEvent {
    PieceMoved,
    PieceRotated,
    PieceLocked,
    LinesCleared(u32),
    LevelUp(u32),
    Paused,
    Unpaused,
    GameRestarted,
    GameOver,
}

} // verus!
