//! A falling-block puzzle engine: a fixed-size board, a falling piece,
//! a bounded preview queue, scoring and leveling, and a small lifecycle
//! state machine, with an append-and-drain event log.

use vstd::prelude::*;

pub mod board;
pub mod events;
pub mod game;
pub mod pieces;
pub mod provider;

verus! {

/// Number of columns of the board.
pub const GRID_WIDTH: usize = 10;

/// Number of rows of the board; row 0 is the top.
pub const GRID_HEIGHT: usize = 20;

/// The preview queue always holds this many upcoming kinds.
pub const PREVIEW_COUNT: usize = 4;

/// Every this many cleared lines the level goes up by one.
pub const LINES_PER_LEVEL: u32 = 10;

/// Base score for clearing one line.
pub const SCORE_SINGLE: u32 = 100;

/// Base score for clearing two lines at once.
pub const SCORE_DOUBLE: u32 = 300;

/// Base score for clearing three lines at once.
pub const SCORE_TRIPLE: u32 = 500;

/// Base score for clearing four lines at once.
pub const SCORE_TETRIS: u32 = 800;

/// Gravity interval at level 1, in milliseconds.
pub const BASE_TICK_MS: u64 = 800;

/// The gravity interval never drops below this many milliseconds.
pub const MIN_TICK_MS: u64 = 100;

/// How many milliseconds faster each level is than the one before.
pub const SPEED_INCREASE_PER_LEVEL: u64 = 50;

} // verus!
