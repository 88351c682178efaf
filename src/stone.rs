//! One animated grid cell and the rule that advances it by one tick.
use vstd::prelude::*;

use crate::{CHANCE_SCALE, COLS, DRAW_MAX, MAX_CYCLES, MIN_CYCLES, ROWS};

verus! {

/// The largest magnitude of a target, in offset or rotation units.
pub open spec fn target_bound() -> int {
    DRAW_MAX * (ROWS - 1) * u32::MAX
}

/// The global parameters that shape new segments.
#[derive(Clone, Copy, Debug, PartialEq, Eq)]
pub struct Adjustments {
    /// Chance, in millionths, that a new segment is active.
    pub motion_probability: u32,
    /// Displacement factor, in tenths.
    pub displacement_adjust: u32,
    /// Rotation factor, in tenths.
    pub rotation_adjust: u32,
}

impl Adjustments {
    pub open spec fn valid(&self) -> bool {
        self.motion_probability <= CHANCE_SCALE
    }
}

/// The random draws that one tick may consume for one stone.
#[derive(Clone, Copy, Debug, PartialEq, Eq)]
pub struct Sample {
    /// Uniform in `[0, CHANCE_SCALE)`: the segment is active when it is below
    /// the motion probability.
    pub chance: u32,
    /// Uniform in `[-DRAW_MAX, DRAW_MAX]`, for the horizontal target.
    pub target_x: i64,
    /// Uniform in `[-DRAW_MAX, DRAW_MAX]`, for the vertical target.
    pub target_y: i64,
    /// Uniform in `[-DRAW_MAX, DRAW_MAX]`, for the rotation target.
    pub target_rot: i64,
    /// Uniform in `[MIN_CYCLES, MAX_CYCLES)`: the length of the new segment.
    pub cycles: u32,
}

impl Sample {
    pub open spec fn valid(&self) -> bool {
        &&& self.chance < CHANCE_SCALE
        &&& -DRAW_MAX <= self.target_x <= DRAW_MAX
        &&& -DRAW_MAX <= self.target_y <= DRAW_MAX
        &&& -DRAW_MAX <= self.target_rot <= DRAW_MAX
        &&& MIN_CYCLES <= self.cycles < MAX_CYCLES
    }

    /// Whether this draw starts an active segment under `a`.
    pub open spec fn is_active(&self, a: Adjustments) -> bool {
        self.chance < a.motion_probability
    }
}

/// A target on a row `grid_y`: the draw scaled by the depth factor
/// `grid_y / ROWS` and by an adjustment factor. In cells this is
/// `(draw / DRAW_MAX) * 0.5 * (grid_y / ROWS) * (adjust / ADJUST_STEPS)`,
/// and in eighths of a turn twice that: the units of offsets and rotations
/// are chosen so that the product of the three integers is exact.
pub open spec fn scaled_target(draw: int, grid_y: int, adjust: int) -> int {
    draw * grid_y * adjust
}

/// One grid cell with its motion state.
///
/// Offsets, rotation and velocities are numerators over `span`, the length
/// of the current segment; the targets are plain values in the same units.
#[derive(Clone, Copy, Debug, PartialEq, Eq)]
pub struct Stone {
    pub grid_x: u32,
    pub grid_y: u32,
    pub offset_x: i64,
    pub offset_y: i64,
    pub rotation: i64,
    pub velocity_x: i64,
    pub velocity_y: i64,
    pub velocity_rot: i64,
    pub target_x: i64,
    pub target_y: i64,
    pub target_rot: i64,
    pub span: u32,
    pub cycles_remaining: u32,
}

/// One coordinate of a stone is consistent: integrating `velocity` for
/// `remaining` more ticks reaches `target`, and it stays within bounds.
pub open spec fn coord_wf(offset: int, velocity: int, target: int, span: int, remaining: int) -> bool {
    &&& offset + velocity * remaining == target * span
    &&& -target_bound() <= target <= target_bound()
    &&& -target_bound() * span <= offset <= target_bound() * span
}

/// A drawn target stays within the bound of every target.
proof fn lemma_scaled_target_bound(draw: int, grid_y: int, adjust: int)
    requires
        -DRAW_MAX <= draw <= DRAW_MAX,
        0 <= grid_y < ROWS,
        0 <= adjust <= u32::MAX,
    ensures
        -DRAW_MAX * (ROWS - 1) <= draw * grid_y <= DRAW_MAX * (ROWS - 1),
        -target_bound() <= scaled_target(draw, grid_y, adjust) <= target_bound(),
{
    let b = DRAW_MAX * (ROWS - 1);
    assert(-b <= draw * grid_y <= b) by (nonlinear_arith)
        requires
            -1000 <= draw <= 1000,
            0 <= grid_y <= 21,
            b == 21000;
    assert(-b * u32::MAX <= (draw * grid_y) * adjust <= b * u32::MAX) by (nonlinear_arith)
        requires
            -b <= draw * grid_y <= b,
            0 <= adjust <= u32::MAX,
            b == 21000;
}

/// Starting a segment of `c` ticks from `from` toward `to` is consistent.
proof fn lemma_resample_coord(from: int, to: int, c: int)
    requires
        -target_bound() <= from <= target_bound(),
        -target_bound() <= to <= target_bound(),
        1 <= c < MAX_CYCLES,
    ensures
        coord_wf(from * c, to - from, to, c, c),
        i64::MIN <= from * c <= i64::MAX,
{
    let b = target_bound();
    assert(b == 90194313195000);
    assert(-(b * 300) <= from * c <= b * 300) by (nonlinear_arith)
        requires
            0 <= b,
            -b <= from <= b,
            1 <= c <= 300;
    assert(from * c + (to - from) * c == to * c) by (nonlinear_arith);
    assert(-b * c <= from * c <= b * c) by (nonlinear_arith)
        requires
            -b <= from <= b,
            1 <= c;
}

/// One integration step keeps a coordinate consistent.
proof fn lemma_step_coord(o: int, v: int, t: int, span: int, rem: int)
    requires
        coord_wf(o, v, t, span, rem),
        1 <= span,
        1 <= rem,
        span < MAX_CYCLES,
    ensures
        coord_wf(o + v, v, t, span, rem - 1),
        i64::MIN <= o + v <= i64::MAX,
{
    let b = target_bound();
    assert(b == 90194313195000);
    assert(-(b * 300) <= -b * span && b * span <= b * 300) by (nonlinear_arith)
        requires
            0 <= b,
            1 <= span <= 300;
    assert(b * 300 == 27058293958500000);
    assert((o + v) + v * (rem - 1) == o + v * rem) by (nonlinear_arith);
    assert(rem * (o + v) == (rem - 1) * o + t * span) by (nonlinear_arith)
        requires
            o + v * rem == t * span;
    assert(-b * span <= t * span <= b * span) by (nonlinear_arith)
        requires
            -b <= t <= b,
            1 <= span;
    assert(-(rem - 1) * (b * span) <= (rem - 1) * o <= (rem - 1) * (b * span)) by (nonlinear_arith)
        requires
            -b * span <= o <= b * span,
            1 <= rem;
    assert(-b * span <= o + v <= b * span) by (nonlinear_arith)
        requires
            rem * (o + v) == (rem - 1) * o + t * span,
            -(rem - 1) * (b * span) <= (rem - 1) * o <= (rem - 1) * (b * span),
            -b * span <= t * span <= b * span,
            1 <= rem;
}

impl Stone {
    pub open spec fn wf(&self) -> bool {
        &&& self.grid_x < COLS
        &&& self.grid_y < ROWS
        &&& 1 <= self.span < MAX_CYCLES
        &&& 0 <= self.cycles_remaining < MAX_CYCLES
        &&& coord_wf(self.offset_x as int, self.velocity_x as int, self.target_x as int, self.span as int, self.cycles_remaining as int)
        &&& coord_wf(self.offset_y as int, self.velocity_y as int, self.target_y as int, self.span as int, self.cycles_remaining as int)
        &&& coord_wf(self.rotation as int, self.velocity_rot as int, self.target_rot as int, self.span as int, self.cycles_remaining as int)
    }

    /// A stone at rest on cell `(grid_x, grid_y)`, due to draw a segment.
    pub open spec fn at_rest(grid_x: u32, grid_y: u32) -> Stone {
        Stone {
            grid_x,
            grid_y,
            offset_x: 0,
            offset_y: 0,
            rotation: 0,
            velocity_x: 0,
            velocity_y: 0,
            velocity_rot: 0,
            target_x: 0,
            target_y: 0,
            target_rot: 0,
            span: 1,
            cycles_remaining: 0,
        }
    }

    /// The stone after one tick under `a`, drawing from `d` when a new
    /// segment is due.
    pub open spec fn advanced(self, a: Adjustments, d: Sample) -> Stone {
        if self.cycles_remaining == 0 {
            if d.is_active(a) {
                let c = d.cycles as int;
                let tx = scaled_target(d.target_x as int, self.grid_y as int, a.displacement_adjust as int);
                let ty = scaled_target(d.target_y as int, self.grid_y as int, a.displacement_adjust as int);
                let tr = scaled_target(d.target_rot as int, self.grid_y as int, a.rotation_adjust as int);
                Stone {
                    offset_x: (self.target_x * c) as i64,
                    offset_y: (self.target_y * c) as i64,
                    rotation: (self.target_rot * c) as i64,
                    velocity_x: (tx - self.target_x) as i64,
                    velocity_y: (ty - self.target_y) as i64,
                    velocity_rot: (tr - self.target_rot) as i64,
                    target_x: tx as i64,
                    target_y: ty as i64,
                    target_rot: tr as i64,
                    span: d.cycles,
                    cycles_remaining: d.cycles,
                    ..self
                }
            } else {
                Stone {
                    velocity_x: 0,
                    velocity_y: 0,
                    velocity_rot: 0,
                    cycles_remaining: d.cycles,
                    ..self
                }
            }
        } else {
            Stone {
                offset_x: (self.offset_x + self.velocity_x) as i64,
                offset_y: (self.offset_y + self.velocity_y) as i64,
                rotation: (self.rotation + self.velocity_rot) as i64,
                cycles_remaining: (self.cycles_remaining - 1) as u32,
                ..self
            }
        }
    }

    /// Advances the stone by one tick.
    ///
    /// With no ticks left in its segment the stone draws a new one from `d`:
    /// an idle one (velocities zero) or an active one whose velocities carry
    /// it from where it stands to the drawn target in exactly `d.cycles`
    /// ticks. Otherwise it moves by its velocities and counts one tick off.
    pub fn advance(&self, a: &Adjustments, d: &Sample) -> (r: Stone)
        requires
            self.wf(),
            d.valid(),
        ensures
            r == self.advanced(*a, *d),
            r.wf(),
            r.grid_x == self.grid_x && r.grid_y == self.grid_y,
    {
        if self.cycles_remaining == 0 {
            if d.chance < a.motion_probability {
                let c = d.cycles as i64;
                let gy = self.grid_y as i64;
                proof {
                    lemma_scaled_target_bound(d.target_x as int, gy as int, a.displacement_adjust as int);
                    lemma_scaled_target_bound(d.target_y as int, gy as int, a.displacement_adjust as int);
                    lemma_scaled_target_bound(d.target_rot as int, gy as int, a.rotation_adjust as int);
                    lemma_resample_coord(self.target_x as int, scaled_target(d.target_x as int, gy as int, a.displacement_adjust as int), c as int);
                    lemma_resample_coord(self.target_y as int, scaled_target(d.target_y as int, gy as int, a.displacement_adjust as int), c as int);
                    lemma_resample_coord(self.target_rot as int, scaled_target(d.target_rot as int, gy as int, a.rotation_adjust as int), c as int);
                }
                let tx = d.target_x * gy * (a.displacement_adjust as i64);
                let ty = d.target_y * gy * (a.displacement_adjust as i64);
                let tr = d.target_rot * gy * (a.rotation_adjust as i64);
                Stone {
                    offset_x: self.target_x * c,
                    offset_y: self.target_y * c,
                    rotation: self.target_rot * c,
                    velocity_x: tx - self.target_x,
                    velocity_y: ty - self.target_y,
                    velocity_rot: tr - self.target_rot,
                    target_x: tx,
                    target_y: ty,
                    target_rot: tr,
                    span: d.cycles,
                    cycles_remaining: d.cycles,
                    ..*self
                }
            } else {
                Stone {
                    velocity_x: 0,
                    velocity_y: 0,
                    velocity_rot: 0,
                    cycles_remaining: d.cycles,
                    ..*self
                }
            }
        } else {
            proof {
                let (sp, rem) = (self.span as int, self.cycles_remaining as int);
                lemma_step_coord(self.offset_x as int, self.velocity_x as int, self.target_x as int, sp, rem);
                lemma_step_coord(self.offset_y as int, self.velocity_y as int, self.target_y as int, sp, rem);
                lemma_step_coord(self.rotation as int, self.velocity_rot as int, self.target_rot as int, sp, rem);
            }
            Stone {
                offset_x: self.offset_x + self.velocity_x,
                offset_y: self.offset_y + self.velocity_y,
                rotation: self.rotation + self.velocity_rot,
                cycles_remaining: self.cycles_remaining - 1,
                ..*self
            }
        }
    }

    /// A stone at rest on cell `(grid_x, grid_y)`.
    pub fn new(grid_x: u32, grid_y: u32) -> (s: Stone)
        requires
            grid_x < COLS,
            grid_y < ROWS,
        ensures
            s == Stone::at_rest(grid_x, grid_y),
            s.wf(),
    {
        Stone {
            grid_x,
            grid_y,
            offset_x: 0,
            offset_y: 0,
            rotation: 0,
            velocity_x: 0,
            velocity_y: 0,
            velocity_rot: 0,
            target_x: 0,
            target_y: 0,
            target_rot: 0,
            span: 1,
            cycles_remaining: 0,
        }
    }
}

/// A zero depth factor or a zero adjustment leaves nothing of the draw.
proof fn lemma_scaled_target_zero(draw: int, grid_y: int, adjust: int)
    requires
        grid_y == 0 || adjust == 0,
    ensures
        scaled_target(draw, grid_y, adjust) == 0,
{
    assert(draw * grid_y * adjust == 0) by (nonlinear_arith)
        requires
            grid_y == 0 || adjust == 0;
}

/// One tick keeps a stone well formed.
pub proof fn lemma_advanced_wf(s: Stone, a: Adjustments, d: Sample)
    requires
        s.wf(),
        d.valid(),
    ensures
        s.advanced(a, d).wf(),
{
    let gy = s.grid_y as int;
    if s.cycles_remaining == 0 {
        if d.is_active(a) {
            let c = d.cycles as int;
            lemma_scaled_target_bound(d.target_x as int, gy, a.displacement_adjust as int);
            lemma_scaled_target_bound(d.target_y as int, gy, a.displacement_adjust as int);
            lemma_scaled_target_bound(d.target_rot as int, gy, a.rotation_adjust as int);
            lemma_resample_coord(s.target_x as int, scaled_target(d.target_x as int, gy, a.displacement_adjust as int), c);
            lemma_resample_coord(s.target_y as int, scaled_target(d.target_y as int, gy, a.displacement_adjust as int), c);
            lemma_resample_coord(s.target_rot as int, scaled_target(d.target_rot as int, gy, a.rotation_adjust as int), c);
        }
    } else {
        let (sp, rem) = (s.span as int, s.cycles_remaining as int);
        lemma_step_coord(s.offset_x as int, s.velocity_x as int, s.target_x as int, sp, rem);
        lemma_step_coord(s.offset_y as int, s.velocity_y as int, s.target_y as int, sp, rem);
        lemma_step_coord(s.rotation as int, s.velocity_rot as int, s.target_rot as int, sp, rem);
    }
}

/// The stone after one tick for each sample of `samples`, in order.
pub open spec fn run(s: Stone, a: Adjustments, samples: Seq<Sample>) -> Stone
    decreases samples.len(),
{
    if samples.len() == 0 {
        s
    } else {
        run(s.advanced(a, samples[0]), a, samples.subrange(1, samples.len() as int))
    }
}

/// A run that starts with one sample is that sample's tick, then the rest.
proof fn lemma_run_first(s: Stone, a: Adjustments, d: Sample, rest: Seq<Sample>)
    ensures
        run(s, a, seq![d] + rest) == run(s.advanced(a, d), a, rest),
{
    let all = seq![d] + rest;
    assert(all.subrange(1, all.len() as int) =~= rest);
}

/// A stone reaches the target of its segment exactly when the segment ends:
/// after as many ticks as it has left, its offsets and rotation equal the
/// target, whatever was drawn meanwhile (nothing is drawn before the end).
pub proof fn lemma_exact_arrival(s: Stone, a: Adjustments, samples: Seq<Sample>)
    requires
        s.wf(),
        samples.len() == s.cycles_remaining,
    ensures
        run(s, a, samples).cycles_remaining == 0,
        run(s, a, samples).span == s.span,
        run(s, a, samples).offset_x == s.target_x * s.span,
        run(s, a, samples).offset_y == s.target_y * s.span,
        run(s, a, samples).rotation == s.target_rot * s.span,
    decreases samples.len(),
{
    if samples.len() == 0 {
        assert(s.velocity_x * 0 == 0 && s.velocity_y * 0 == 0 && s.velocity_rot * 0 == 0) by (nonlinear_arith);
    } else {
        let (sp, rem) = (s.span as int, s.cycles_remaining as int);
        lemma_step_coord(s.offset_x as int, s.velocity_x as int, s.target_x as int, sp, rem);
        lemma_step_coord(s.offset_y as int, s.velocity_y as int, s.target_y as int, sp, rem);
        lemma_step_coord(s.rotation as int, s.velocity_rot as int, s.target_rot as int, sp, rem);
        lemma_exact_arrival(s.advanced(a, samples[0]), a, samples.subrange(1, samples.len() as int));
    }
}

/// A segment drawn with `d.cycles` ticks ends exactly on the drawn target:
/// `d.cycles` ticks after the draw, each offset is the scaled draw.
pub proof fn lemma_arrives_at_drawn_target(s: Stone, a: Adjustments, d: Sample, rest: Seq<Sample>)
    requires
        s.wf(),
        s.cycles_remaining == 0,
        d.valid(),
        d.is_active(a),
        rest.len() == d.cycles,
    ensures
        run(s, a, seq![d] + rest).cycles_remaining == 0,
        run(s, a, seq![d] + rest).span == d.cycles,
        run(s, a, seq![d] + rest).offset_x
            == scaled_target(d.target_x as int, s.grid_y as int, a.displacement_adjust as int) * d.cycles,
        run(s, a, seq![d] + rest).offset_y
            == scaled_target(d.target_y as int, s.grid_y as int, a.displacement_adjust as int) * d.cycles,
        run(s, a, seq![d] + rest).rotation
            == scaled_target(d.target_rot as int, s.grid_y as int, a.rotation_adjust as int) * d.cycles,
{
    lemma_run_first(s, a, d, rest);
    lemma_advanced_wf(s, a, d);
    lemma_scaled_target_bound(d.target_x as int, s.grid_y as int, a.displacement_adjust as int);
    lemma_scaled_target_bound(d.target_y as int, s.grid_y as int, a.displacement_adjust as int);
    lemma_scaled_target_bound(d.target_rot as int, s.grid_y as int, a.rotation_adjust as int);
    lemma_exact_arrival(s.advanced(a, d), a, rest);
}

/// On the front row (`grid_y == 0`) every active segment aims at rest,
/// whatever the adjustments.
pub proof fn lemma_front_row_aims_at_rest(s: Stone, a: Adjustments, d: Sample)
    requires
        s.grid_y == 0,
        s.cycles_remaining == 0,
        d.is_active(a),
    ensures
        s.advanced(a, d).target_x == 0,
        s.advanced(a, d).target_y == 0,
        s.advanced(a, d).target_rot == 0,
{
    let gy = s.grid_y as int;
    lemma_scaled_target_zero(d.target_x as int, gy, a.displacement_adjust as int);
    lemma_scaled_target_zero(d.target_y as int, gy, a.displacement_adjust as int);
    lemma_scaled_target_zero(d.target_rot as int, gy, a.rotation_adjust as int);
}

/// With zero motion probability a stone due for a segment always draws an
/// idle one: zero velocities for `d.cycles` ticks.
pub proof fn lemma_no_motion_is_idle(s: Stone, a: Adjustments, d: Sample)
    requires
        a.motion_probability == 0,
        s.cycles_remaining == 0,
    ensures
        s.advanced(a, d).velocity_x == 0,
        s.advanced(a, d).velocity_y == 0,
        s.advanced(a, d).velocity_rot == 0,
        s.advanced(a, d).cycles_remaining == d.cycles,
        s.advanced(a, d).offset_x == s.offset_x,
        s.advanced(a, d).offset_y == s.offset_y,
        s.advanced(a, d).rotation == s.rotation,
{
}

/// With zero motion probability a stone that is not moving never moves:
/// over any run its offsets and rotation stay as they are.
pub proof fn lemma_still_without_motion(s: Stone, a: Adjustments, samples: Seq<Sample>)
    requires
        a.motion_probability == 0,
        s.velocity_x == 0,
        s.velocity_y == 0,
        s.velocity_rot == 0,
    ensures
        run(s, a, samples).offset_x == s.offset_x,
        run(s, a, samples).offset_y == s.offset_y,
        run(s, a, samples).rotation == s.rotation,
        run(s, a, samples).span == s.span,
    decreases samples.len(),
{
    if samples.len() > 0 {
        lemma_still_without_motion(s.advanced(a, samples[0]), a, samples.subrange(1, samples.len() as int));
    }
}

/// With both adjustments at zero every active segment aims at rest.
pub proof fn lemma_settled_aims_at_rest(s: Stone, a: Adjustments, d: Sample)
    requires
        a.displacement_adjust == 0,
        a.rotation_adjust == 0,
        s.cycles_remaining == 0,
        d.is_active(a),
    ensures
        s.advanced(a, d).target_x == 0,
        s.advanced(a, d).target_y == 0,
        s.advanced(a, d).target_rot == 0,
{
    let gy = s.grid_y as int;
    lemma_scaled_target_zero(d.target_x as int, gy, a.displacement_adjust as int);
    lemma_scaled_target_zero(d.target_y as int, gy, a.displacement_adjust as int);
    lemma_scaled_target_zero(d.target_rot as int, gy, a.rotation_adjust as int);
}

/// With both adjustments at zero, a stone that draws an active segment is
/// back at rest, offsets and rotation exactly zero, when the segment ends.
pub proof fn lemma_settles_at_rest(s: Stone, a: Adjustments, d: Sample, rest: Seq<Sample>)
    requires
        s.wf(),
        a.displacement_adjust == 0,
        a.rotation_adjust == 0,
        s.cycles_remaining == 0,
        d.valid(),
        d.is_active(a),
        rest.len() == d.cycles,
    ensures
        run(s, a, seq![d] + rest).offset_x == 0,
        run(s, a, seq![d] + rest).offset_y == 0,
        run(s, a, seq![d] + rest).rotation == 0,
{
    let gy = s.grid_y as int;
    lemma_scaled_target_zero(d.target_x as int, gy, a.displacement_adjust as int);
    lemma_scaled_target_zero(d.target_y as int, gy, a.displacement_adjust as int);
    lemma_scaled_target_zero(d.target_rot as int, gy, a.rotation_adjust as int);
    lemma_arrives_at_drawn_target(s, a, d, rest);
}

/// A run over `x + y` is the run over `x`, then the run over `y`.
proof fn lemma_run_append(s: Stone, a: Adjustments, x: Seq<Sample>, y: Seq<Sample>)
    ensures
        run(s, a, x + y) == run(run(s, a, x), a, y),
    decreases x.len(),
{
    if x.len() > 0 {
        let xy = x + y;
        assert(xy.subrange(1, xy.len() as int) =~= x.subrange(1, x.len() as int) + y);
        assert(xy[0] == x[0]);
        lemma_run_append(s.advanced(a, x[0]), a, x.subrange(1, x.len() as int), y);
    } else {
        assert(x + y =~= y);
    }
}

/// Runs on valid samples keep a stone well formed.
proof fn lemma_run_wf(s: Stone, a: Adjustments, samples: Seq<Sample>)
    requires
        s.wf(),
        forall|i: int| 0 <= i < samples.len() ==> (#[trigger] samples[i]).valid(),
    ensures
        run(s, a, samples).wf(),
    decreases samples.len(),
{
    if samples.len() > 0 {
        lemma_advanced_wf(s, a, samples[0]);
        let rest = samples.subrange(1, samples.len() as int);
        assert forall|i: int| 0 <= i < rest.len() implies (#[trigger] rest[i]).valid() by {
            assert(rest[i] == samples[i + 1]);
        }
        lemma_run_wf(s.advanced(a, samples[0]), a, rest);
    }
}

/// With both adjustments at zero and motion certain, any stone is back at
/// rest once its current segment has run out and the next one has ended:
/// after `cycles_remaining` ticks, one draw `d`, and `d.cycles` more ticks.
pub proof fn lemma_converges_to_rest(
    s: Stone,
    a: Adjustments,
    first: Seq<Sample>,
    d: Sample,
    rest: Seq<Sample>,
)
    requires
        s.wf(),
        a.displacement_adjust == 0,
        a.rotation_adjust == 0,
        a.motion_probability == CHANCE_SCALE,
        forall|i: int| 0 <= i < first.len() ==> (#[trigger] first[i]).valid(),
        first.len() == s.cycles_remaining,
        d.valid(),
        rest.len() == d.cycles,
    ensures
        run(s, a, first + (seq![d] + rest)).offset_x == 0,
        run(s, a, first + (seq![d] + rest)).offset_y == 0,
        run(s, a, first + (seq![d] + rest)).rotation == 0,
{
    lemma_run_append(s, a, first, seq![d] + rest);
    lemma_run_wf(s, a, first);
    lemma_exact_arrival(s, a, first);
    lemma_settles_at_rest(run(s, a, first), a, d, rest);
}

} // verus!
