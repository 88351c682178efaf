//! Decides, tick by tick, which rendered frames are saved.
use vstd::prelude::*;
use vstd::string::StringExecFns;

use crate::MAX_FRAME_INDEX;

verus! {

/// Recording or idle, with the index of the last frame saved since
/// recording last started.
#[derive(Clone, Copy, Debug, PartialEq, Eq)]
pub struct FrameRecorder {
    pub recording: bool,
    pub frame_index: u32,
}

impl FrameRecorder {
    pub open spec fn wf(&self) -> bool {
        self.frame_index <= MAX_FRAME_INDEX
    }

    /// Whether tick `tick` saves a frame, or stops the recording.
    pub open spec fn is_capture_tick(&self, tick: int) -> bool {
        self.recording && tick % 2 == 0
    }

    /// The recorder after tick `tick`.
    pub open spec fn after_tick(self, tick: int) -> FrameRecorder {
        if !self.is_capture_tick(tick) {
            self
        } else if self.frame_index >= MAX_FRAME_INDEX {
            FrameRecorder { recording: false, ..self }
        } else {
            FrameRecorder { frame_index: (self.frame_index + 1) as u32, ..self }
        }
    }

    /// The index of the frame that tick `tick` saves, if any.
    pub open spec fn capture_on(self, tick: int) -> Option<u32> {
        if self.is_capture_tick(tick) && self.frame_index < MAX_FRAME_INDEX {
            Some((self.frame_index + 1) as u32)
        } else {
            None
        }
    }

    /// A recorder in the given state, with no frame saved yet.
    pub fn new(recording: bool) -> (r: FrameRecorder)
        ensures
            r.recording == recording,
            r.frame_index == 0,
    {
        FrameRecorder { recording, frame_index: 0 }
    }

    pub fn is_recording(&self) -> (r: bool)
        ensures
            r == self.recording,
    {
        self.recording
    }

    /// The per-tick decision. On even ticks while recording, the frame index
    /// goes up by one and the new index is returned, the frame to save; if the
    /// index would pass `MAX_FRAME_INDEX` recording stops instead and nothing
    /// is saved. On other ticks nothing changes.
    pub fn on_tick(&mut self, tick: u64) -> (capture: Option<u32>)
        requires
            old(self).wf(),
        ensures
            *final(self) == old(self).after_tick(tick as int),
            capture == old(self).capture_on(tick as int),
            final(self).wf(),
    {
        if self.recording && tick % 2 == 0 {
            if self.frame_index >= MAX_FRAME_INDEX {
                self.recording = false;
                None
            } else {
                self.frame_index = self.frame_index + 1;
                Some(self.frame_index)
            }
        } else {
            None
        }
    }

    /// Stops a recording recorder. An idle one stays idle: starting needs
    /// the output directory first, and `start` then begins the recording.
    /// Returns whether a start was asked for.
    pub fn toggle(&mut self) -> (start_requested: bool)
        ensures
            start_requested == !old(self).recording,
            final(self).recording == false,
            final(self).frame_index == old(self).frame_index,
    {
        if self.recording {
            self.recording = false;
            false
        } else {
            true
        }
    }

    /// Starts recording from frame index zero, once the output directory
    /// exists.
    pub fn start(&mut self)
        ensures
            *final(self) == (FrameRecorder { recording: true, frame_index: 0 }),
    {
        self.recording = true;
        self.frame_index = 0;
    }
}

/// The decimal digit `d`.
pub open spec fn digit_char(d: int) -> char {
    if d == 0 { '0' }
    else if d == 1 { '1' }
    else if d == 2 { '2' }
    else if d == 3 { '3' }
    else if d == 4 { '4' }
    else if d == 5 { '5' }
    else if d == 6 { '6' }
    else if d == 7 { '7' }
    else if d == 8 { '8' }
    else { '9' }
}

/// `i` in four decimal digits, zero-padded.
pub open spec fn four_digits(i: int) -> Seq<char> {
    seq![digit_char(i / 1000 % 10), digit_char(i / 100 % 10), digit_char(i / 10 % 10), digit_char(i % 10)]
}

fn digit_str(d: u32) -> (r: &'static str)
    requires
        d < 10,
    ensures
        r@ == seq![digit_char(d as int)],
{
    let r = match d {
        0 => "0",
        1 => "1",
        2 => "2",
        3 => "3",
        4 => "4",
        5 => "5",
        6 => "6",
        7 => "7",
        8 => "8",
        _ => "9",
    };
    proof {
        reveal_strlit("0");
        reveal_strlit("1");
        reveal_strlit("2");
        reveal_strlit("3");
        reveal_strlit("4");
        reveal_strlit("5");
        reveal_strlit("6");
        reveal_strlit("7");
        reveal_strlit("8");
        reveal_strlit("9");
        assert(r@ =~= seq![digit_char(d as int)]);
    }
    r
}

/// The file that frame `index` is saved to, in directory `dir`:
/// `dir/shotterNNNN.png` with `NNNN` the index in four digits.
pub fn frame_file_name(dir: &str, index: u32) -> (name: String)
    requires
        index <= MAX_FRAME_INDEX,
    ensures
        name@ == dir@ + "/shotter"@ + four_digits(index as int) + ".png"@,
{
    let mut name = String::from_str(dir);
    name.append("/shotter");
    name.append(digit_str(index / 1000 % 10));
    name.append(digit_str(index / 100 % 10));
    name.append(digit_str(index / 10 % 10));
    name.append(digit_str(index % 10));
    name.append(".png");
    proof {
        assert(name@ =~= dir@ + "/shotter"@ + four_digits(index as int) + ".png"@);
    }
    name
}

/// The recorder after the `n` ticks `first, first + 1, ...`.
pub open spec fn record_run(r: FrameRecorder, first: int, n: nat) -> FrameRecorder
    decreases n,
{
    if n == 0 {
        r
    } else {
        record_run(r.after_tick(first), first + 1, (n - 1) as nat)
    }
}

/// The number of even ticks among `first, first + 1, ..., first + n - 1`.
pub open spec fn even_ticks(first: int, n: nat) -> nat
    decreases n,
{
    if n == 0 {
        0
    } else {
        (if first % 2 == 0 { 1nat } else { 0nat }) + even_ticks(first + 1, (n - 1) as nat)
    }
}

proof fn lemma_even_ticks(first: int, n: nat)
    ensures
        even_ticks(first, n) == if first % 2 == 0 { (n + 1) / 2 } else { n / 2 },
    decreases n,
{
    if n > 0 {
        lemma_even_ticks(first + 1, (n - 1) as nat);
    }
}

/// An idle recorder stays as it is.
proof fn lemma_idle_run(r: FrameRecorder, first: int, n: nat)
    requires
        !r.recording,
    ensures
        record_run(r, first, n) == r,
    decreases n,
{
    if n > 0 {
        lemma_idle_run(r, first + 1, (n - 1) as nat);
    }
}

/// A recording recorder saves one frame per even tick until the index would
/// pass `MAX_FRAME_INDEX`, and stops then.
proof fn lemma_recording_run(r: FrameRecorder, first: int, n: nat)
    requires
        r.recording,
        r.wf(),
    ensures
        record_run(r, first, n).frame_index == if r.frame_index + even_ticks(first, n) <= MAX_FRAME_INDEX {
            r.frame_index + even_ticks(first, n)
        } else {
            MAX_FRAME_INDEX as int
        },
        record_run(r, first, n).recording == (r.frame_index + even_ticks(first, n) <= MAX_FRAME_INDEX),
    decreases n,
{
    if n > 0 {
        let next = r.after_tick(first);
        if next.recording {
            lemma_recording_run(next, first + 1, (n - 1) as nat);
        } else {
            lemma_idle_run(next, first + 1, (n - 1) as nat);
        }
    }
}

/// Recording throughout a run of `n` ticks numbered from one, the recorder
/// ends with frame index `min(MAX_FRAME_INDEX, n / 2)`, and it is still
/// recording exactly when `n / 2` has not passed `MAX_FRAME_INDEX`.
pub proof fn lemma_frame_count(n: nat)
    ensures
        record_run(FrameRecorder { recording: true, frame_index: 0 }, 1, n).frame_index
            == if n / 2 <= MAX_FRAME_INDEX { n as int / 2 } else { MAX_FRAME_INDEX as int },
        record_run(FrameRecorder { recording: true, frame_index: 0 }, 1, n).recording
            == (n / 2 <= MAX_FRAME_INDEX),
{
    lemma_even_ticks(1, n);
    lemma_recording_run(FrameRecorder { recording: true, frame_index: 0 }, 1, n);
}

} // verus!
