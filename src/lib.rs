//! A grid of square outlines ("stones") that drift about by a bounded random
//! walk, with the frame recorder, the input commands and the two-phase run
//! that drive them.
//!
//! All real-valued quantities are held as exact integers:
//! - an offset is `offset_x / (span * OFFSET_UNITS_PER_CELL)` cells;
//! - a rotation is `rotation / (span * ROTATION_UNITS_PER_EIGHTH_TURN)` times
//!   an eighth of a turn (pi / 4 radians);
//! - a probability is a count of millionths;
//! - an adjustment factor is a count of tenths.
//! Linear integration toward a target then arrives at it exactly.
use vstd::prelude::*;

pub mod color;
pub mod controls;
pub mod director;
pub mod field;
pub mod recorder;
pub mod sampling;
pub mod stone;

verus! {

/// Rows of the grid.
pub const ROWS: u32 = 22;

/// Columns of the grid.
pub const COLS: u32 = 12;

/// Side of one grid cell, in pixels.
pub const CELL_SIZE: u32 = 30;

/// Margin around the grid, in pixels.
pub const MARGIN: u32 = 35;

/// Width of the display surface, in pixels.
pub const WIDTH: u32 = COLS * CELL_SIZE + 2 * MARGIN;

/// Height of the display surface, in pixels.
pub const HEIGHT: u32 = ROWS * CELL_SIZE + 2 * MARGIN;

/// Nominal ticks per second.
pub const TICKS_PER_SECOND: u64 = 60;

/// Length of the run, in seconds.
pub const SECONDS: u64 = 30;

/// Ticks of the run proper; one grace tick follows them.
pub const TOTAL_TICKS: u64 = TICKS_PER_SECOND * SECONDS;

/// Shortest segment, in ticks.
pub const MIN_CYCLES: u32 = 50;

/// Bound (exclusive) on the length of a segment, in ticks.
pub const MAX_CYCLES: u32 = 300;

/// A target draw lies in `[-DRAW_MAX, DRAW_MAX]`, standing for `[-1, 1]` times
/// the half-range of the target.
pub const DRAW_MAX: i64 = 1000;

/// Scale of probabilities: `CHANCE_SCALE` stands for certainty.
pub const CHANCE_SCALE: u32 = 1000000;

/// Scale of the adjustment factors: `ADJUST_STEPS` stands for a factor of one.
pub const ADJUST_STEPS: u32 = 10;

/// The largest index of a saved frame; recording stops rather than pass it.
pub const MAX_FRAME_INDEX: u32 = 9999;

/// Offset units in one cell: `2 * DRAW_MAX * ROWS * ADJUST_STEPS`.
pub const OFFSET_UNITS_PER_CELL: i64 = 2 * DRAW_MAX * 22 * 10;

/// Rotation units in an eighth of a turn: `DRAW_MAX * ROWS * ADJUST_STEPS`.
pub const ROTATION_UNITS_PER_EIGHTH_TURN: i64 = DRAW_MAX * 22 * 10;

} // verus!
