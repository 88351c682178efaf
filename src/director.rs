//! The run: the global state and the tick that sequences it.
use vstd::prelude::*;

use crate::field::{is_fresh_field, new_field};
use crate::recorder::FrameRecorder;
use crate::stone::{lemma_settled_aims_at_rest, Adjustments, Sample, Stone};
use crate::{ADJUST_STEPS, CHANCE_SCALE, TOTAL_TICKS};

verus! {

/// The tick from which both adjustments are held at zero.
pub const MIDPOINT_TICK: u64 = TOTAL_TICKS / 2;

/// The global state of a run.
#[derive(Clone, Debug)]
pub struct SimulationState {
    pub adjustments: Adjustments,
    pub recorder: FrameRecorder,
    /// Ticks performed so far.
    pub tick_count: u64,
    pub stones: Vec<Stone>,
}

/// What a tick asks of the caller.
#[derive(Clone, Copy, Debug, PartialEq, Eq)]
pub struct TickOutcome {
    /// The index of the frame to save, if any.
    pub capture: Option<u32>,
    /// The run, grace tick included, is over.
    pub finished: bool,
}

/// The adjustments in force during tick `tick`: from the midpoint on, both
/// factors are zero.
pub open spec fn adjustments_for(a: Adjustments, tick: int) -> Adjustments {
    if tick >= MIDPOINT_TICK {
        Adjustments { displacement_adjust: 0, rotation_adjust: 0, ..a }
    } else {
        a
    }
}

/// `after` is `before` with each stone advanced under `a` by its own valid
/// sample of `samples`.
pub open spec fn advanced_all(before: Seq<Stone>, a: Adjustments, samples: Seq<Sample>, after: Seq<Stone>) -> bool {
    &&& samples.len() == before.len()
    &&& after.len() == before.len()
    &&& forall|i: int| 0 <= i < samples.len() ==> (#[trigger] samples[i]).valid()
    &&& forall|i: int| 0 <= i < samples.len() ==> #[trigger] after[i] == before[i].advanced(a, samples[i])
}

impl SimulationState {
    pub open spec fn wf(&self) -> bool {
        &&& self.adjustments.valid()
        &&& self.recorder.wf()
        &&& forall|i: int| 0 <= i < self.stones@.len() ==> (#[trigger] self.stones@[i]).wf()
    }

    /// The state at start: certain motion, both factors at one, the recorder
    /// idle until its directory is ready (see `directory_ready`),
    /// no tick performed, and a fresh grid.
    pub fn new() -> (st: SimulationState)
        ensures
            st.wf(),
            st.adjustments == (Adjustments {
                motion_probability: CHANCE_SCALE,
                displacement_adjust: ADJUST_STEPS,
                rotation_adjust: ADJUST_STEPS,
            }),
            st.recorder == (FrameRecorder { recording: false, frame_index: 0 }),
            st.tick_count == 0,
            is_fresh_field(st.stones@),
    {
        SimulationState {
            adjustments: Adjustments {
                motion_probability: CHANCE_SCALE,
                displacement_adjust: ADJUST_STEPS,
                rotation_adjust: ADJUST_STEPS,
            },
            recorder: FrameRecorder::new(false),
            tick_count: 0,
            stones: new_field(),
        }
    }

    /// Whether the run, grace tick included, is over.
    pub fn is_finished(&self) -> (r: bool)
        ensures
            r == (self.tick_count > TOTAL_TICKS),
    {
        self.tick_count > TOTAL_TICKS
    }

    /// Performs one tick: counts it, holds the adjustments at zero from the
    /// midpoint on, advances every stone with its own sample, and lets the
    /// recorder decide on the frame. The run is over after the grace tick
    /// that follows `TOTAL_TICKS`.
    pub fn tick(&mut self, samples: &Vec<Sample>) -> (outcome: TickOutcome)
        requires
            old(self).wf(),
            old(self).tick_count <= TOTAL_TICKS,
            samples@.len() == old(self).stones@.len(),
            forall|i: int| 0 <= i < samples@.len() ==> (#[trigger] samples@[i]).valid(),
        ensures
            final(self).wf(),
            final(self).tick_count == old(self).tick_count + 1,
            final(self).adjustments == adjustments_for(old(self).adjustments, final(self).tick_count as int),
            final(self).stones@.len() == old(self).stones@.len(),
            forall|i: int| 0 <= i < final(self).stones@.len() ==>
                #[trigger] final(self).stones@[i] == old(self).stones@[i].advanced(final(self).adjustments, samples@[i]),
            final(self).recorder == old(self).recorder.after_tick(final(self).tick_count as int),
            outcome.capture == old(self).recorder.capture_on(final(self).tick_count as int),
            outcome.finished == (final(self).tick_count > TOTAL_TICKS),
    {
        self.tick_count = self.tick_count + 1;
        if self.tick_count >= MIDPOINT_TICK {
            self.adjustments.displacement_adjust = 0;
            self.adjustments.rotation_adjust = 0;
        }
        let adj = self.adjustments;
        let ghost before = self.stones@;
        let ghost recorder = self.recorder;
        let ghost t = self.tick_count;
        let n = self.stones.len();
        let mut i: usize = 0;
        while i < n
            invariant
                i <= n,
                n == self.stones@.len(),
                n == before.len(),
                n == samples@.len(),
                self.adjustments == adj,
                adj.valid(),
                self.recorder == recorder,
                recorder.wf(),
                self.tick_count == t,
                forall|j: int| 0 <= j < n ==> (#[trigger] samples@[j]).valid(),
                forall|j: int| 0 <= j < n ==> (#[trigger] before[j]).wf(),
                forall|j: int| 0 <= j < i ==> #[trigger] self.stones@[j] == before[j].advanced(adj, samples@[j]),
                forall|j: int| i <= j < n ==> #[trigger] self.stones@[j] == before[j],
                forall|j: int| 0 <= j < n ==> (#[trigger] self.stones@[j]).wf(),
            decreases n - i,
        {
            let s = self.stones[i].advance(&adj, &samples[i]);
            self.stones.set(i, s);
            i = i + 1;
        }
        let capture = self.recorder.on_tick(self.tick_count);
        TickOutcome { capture, finished: self.tick_count > TOTAL_TICKS }
    }
}

/// From the midpoint tick on, every active segment that a stone draws aims
/// at rest, whatever the adjustments were before.
pub proof fn lemma_settle_after_midpoint(a: Adjustments, tick: int, s: Stone, d: Sample)
    requires
        tick >= MIDPOINT_TICK,
        s.cycles_remaining == 0,
        d.is_active(adjustments_for(a, tick)),
    ensures
        s.advanced(adjustments_for(a, tick), d).target_x == 0,
        s.advanced(adjustments_for(a, tick), d).target_y == 0,
        s.advanced(adjustments_for(a, tick), d).target_rot == 0,
{
    lemma_settled_aims_at_rest(s, adjustments_for(a, tick), d);
}

} // verus!
