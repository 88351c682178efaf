//! The colour of a stone, from how far it stands from a neutral rest.
use vstd::prelude::*;

use crate::stone::Stone;
use crate::ROTATION_UNITS_PER_EIGHTH_TURN;

verus! {

/// A hue in `[0, 1]`, as the exact fraction `numerator / denominator`.
///
/// The mean deviation it stands for can exceed one when a stone strays far
/// from rest; it is then clamped to one rather than wrapped around.
#[derive(Clone, Copy, Debug, PartialEq, Eq)]
pub struct Hue {
    pub numerator: u64,
    pub denominator: u64,
}

pub open spec fn abs(x: int) -> int {
    if x < 0 { -x } else { x }
}

/// The common denominator of the five deviations of `s` and their mean.
pub open spec fn hue_denominator(s: Stone) -> int {
    660 * s.span * ROTATION_UNITS_PER_EIGHTH_TURN
}

/// The mean of five normalized deviations, over `hue_denominator(s)`:
/// `|grid_x| / COLS`, `|grid_y| / ROWS`, `|rotation| / (pi / 4)`,
/// `|offset_x| / 0.5` and `|offset_y| / 0.5`, summed and divided by five.
/// With `k = span * ROTATION_UNITS_PER_EIGHTH_TURN`, the last three are
/// their numerators over `k`; over `660 k` the mean is
/// `11 k grid_x + 6 k grid_y + 132` times the sum of those numerators.
pub open spec fn deviation_numerator(s: Stone) -> int {
    let k = s.span * ROTATION_UNITS_PER_EIGHTH_TURN;
    k * (11 * s.grid_x + 6 * s.grid_y) + 132 * (abs(s.rotation as int) + abs(s.offset_x as int) + abs(s.offset_y as int))
}

fn abs_wide(x: i64) -> (r: u128)
    ensures
        r == abs(x as int),
{
    if x < 0 {
        (-(x as i128)) as u128
    } else {
        x as u128
    }
}

impl Stone {
    /// The hue of the stone's outline: the mean of its five normalized
    /// deviations from rest, clamped to at most one.
    pub fn hue(&self) -> (h: Hue)
        requires
            self.wf(),
        ensures
            h.denominator == hue_denominator(*self),
            h.numerator == if deviation_numerator(*self) <= hue_denominator(*self) {
                deviation_numerator(*self)
            } else {
                hue_denominator(*self)
            },
    {
        let span = self.span as u128;
        let q = ROTATION_UNITS_PER_EIGHTH_TURN as u128;
        let cells = 11 * (self.grid_x as u128) + 6 * (self.grid_y as u128);
        proof {
            assert(span * q <= 300 * 220000) by (nonlinear_arith)
                requires
                    span <= 300,
                    q == 220000;
            assert((span * q) * cells <= (300 * 220000) * 247) by (nonlinear_arith)
                requires
                    span * q <= 300 * 220000,
                    cells <= 247;
        }
        let k: u128 = span * q;
        let den: u128 = 660 * k;
        let grid: u128 = k * (11 * (self.grid_x as u128) + 6 * (self.grid_y as u128));
        let dev: u128 = abs_wide(self.rotation) + abs_wide(self.offset_x) + abs_wide(self.offset_y);
        let num: u128 = grid + 132 * dev;
        let clamped: u128 = if num <= den { num } else { den };
        Hue { numerator: clamped as u64, denominator: den as u64 }
    }
}

} // verus!
