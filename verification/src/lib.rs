//! Core logic of a small terminal game: a player with gravity/flap physics,
//! a score-sized obstacle with a vertical gap, and a Menu/Playing/End state
//! machine stepped once per host frame. The terminal backend (drawing, input
//! polling, frame timing) lives outside this crate; the functions here work
//! on plain values and tell the host what the next state is.

use vstd::prelude::*;

pub mod game;
pub mod obstacle;
pub mod player;

verus! {

/// Width of the character grid, in columns.
pub const SCREEN_WIDTH: i32 = 80;

/// Height of the character grid, in rows.
pub const SCREEN_HEIGHT: i32 = 50;

/// Length of one fixed physics step, in tenths of a millisecond (75 ms).
/// Elapsed real time is accumulated in this unit; when the accumulator
/// exceeds this bound, one physics step runs and the accumulator resets.
pub const FRAME_DURATION: u32 = 750;

} // verus!
