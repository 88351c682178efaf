//! Random draws for the motion of the stones.
use vstd::prelude::*;

use crate::director::{adjustments_for, advanced_all, SimulationState, TickOutcome};
use crate::stone::Sample;
use crate::{CHANCE_SCALE, DRAW_MAX, MAX_CYCLES, MIN_CYCLES, TOTAL_TICKS};

verus! {

/// Relies on nannou::rand::random_range, which calls rand's
/// `gen_range(min..max)` on the thread-local generator: for `min < max` it
/// returns a value of `[min, max)`. An empty range would panic.
#[verifier::external_body]
fn random_range_i64(min: i64, max: i64) -> (r: i64)
    requires
        min < max,
    ensures
        min <= r < max,
{
    nannou::rand::random_range(min, max)
}

/// Draws a sample: each of its values uniformly from its range.
pub fn draw_sample() -> (d: Sample)
    ensures
        d.valid(),
{
    let chance = random_range_i64(0, CHANCE_SCALE as i64);
    let target_x = random_range_i64(-DRAW_MAX, DRAW_MAX + 1);
    let target_y = random_range_i64(-DRAW_MAX, DRAW_MAX + 1);
    let target_rot = random_range_i64(-DRAW_MAX, DRAW_MAX + 1);
    let cycles = random_range_i64(MIN_CYCLES as i64, MAX_CYCLES as i64);
    Sample { chance: chance as u32, target_x, target_y, target_rot, cycles: cycles as u32 }
}

/// Draws `n` samples.
pub fn draw_samples(n: usize) -> (v: Vec<Sample>)
    ensures
        v@.len() == n,
        forall|i: int| 0 <= i < n ==> (#[trigger] v@[i]).valid(),
{
    let mut v: Vec<Sample> = Vec::new();
    let mut i: usize = 0;
    while i < n
        invariant
            i <= n,
            v@.len() == i,
            forall|j: int| 0 <= j < i ==> (#[trigger] v@[j]).valid(),
        decreases n - i,
    {
        v.push(draw_sample());
        i = i + 1;
    }
    v
}

impl SimulationState {
    /// Performs one tick with freshly drawn samples: as `tick` does, for
    /// some valid sample per stone.
    pub fn tick_random(&mut self) -> (outcome: TickOutcome)
        requires
            old(self).wf(),
            old(self).tick_count <= TOTAL_TICKS,
        ensures
            final(self).wf(),
            final(self).tick_count == old(self).tick_count + 1,
            final(self).adjustments == adjustments_for(old(self).adjustments, final(self).tick_count as int),
            final(self).stones@.len() == old(self).stones@.len(),
            exists|samples: Seq<Sample>|
                #[trigger] advanced_all(old(self).stones@, final(self).adjustments, samples, final(self).stones@),
            final(self).recorder == old(self).recorder.after_tick(final(self).tick_count as int),
            outcome.capture == old(self).recorder.capture_on(final(self).tick_count as int),
            outcome.finished == (final(self).tick_count > TOTAL_TICKS),
    {
        let samples = draw_samples(self.stones.len());
        let outcome = self.tick(&samples);
        assert(advanced_all(old(self).stones@, self.adjustments, samples@, self.stones@));
        outcome
    }
}

} // verus!
