//! The animated control rectangle and the canvas size it was computed for.
//!
//! Time is counted in whole milliseconds and lengths in whole pixels. Each
//! edge of the rectangle oscillates with a triangle wave of period
//! `PERIOD_MS`, each with its own phase, and is then clamped into the canvas
//! with a floor of one pixel on the width and the height.
use vstd::prelude::*;

verus! {

/// The period of every edge's oscillation, in milliseconds.
pub const PERIOD_MS: u64 = 4000;

/// Half of `PERIOD_MS`: the peak of the triangle wave.
pub const HALF_PERIOD_MS: u64 = 2000;

/// A quarter of `PERIOD_MS`: the phase shift from one edge to the next.
pub const QUARTER_PERIOD_MS: u64 = 1000;

/// Canvas size that a fresh state is computed for, before any update.
pub const DEFAULT_HEIGHT: u32 = 600;

pub const DEFAULT_WIDTH: u32 = 800;

/// Triangle wave of period `PERIOD_MS`: rises from 0 to `HALF_PERIOD_MS`
/// and falls back.
pub open spec fn triangle(t: int) -> int {
    let p = t % (PERIOD_MS as int);
    if p < HALF_PERIOD_MS as int {
        p
    } else {
        PERIOD_MS as int - p
    }
}

/// How far an edge is pulled inwards from its outermost position: between
/// zero and half of `half_extent`.
pub open spec fn displacement(half_extent: int, t: int) -> int {
    half_extent * triangle(t) / (PERIOD_MS as int)
}

/// Half the side of the square that the rectangle occupies at rest: 90% of
/// the smaller canvas dimension, halved.
pub open spec fn half_extent(height: int, width: int) -> int {
    (if height < width { height } else { width }) * 9 / 20
}

/// Clamps `x` into `[lo, hi]` (with `lo <= hi`).
pub open spec fn clamp(x: int, lo: int, hi: int) -> int {
    if x < lo {
        lo
    } else if x > hi {
        hi
    } else {
        x
    }
}

/// The low edge of a span inside `[0, size]`, from its unclamped value.
pub open spec fn span_low(lo: int, size: int) -> int {
    if size == 0 {
        0
    } else {
        clamp(lo, 0, size - 1)
    }
}

/// The high edge of a span inside `[0, size]`: at least one above the low
/// edge whenever the size allows it.
pub open spec fn span_high(lo: int, hi: int, size: int) -> int {
    if size == 0 {
        0
    } else {
        clamp(hi, span_low(lo, size) + 1, size)
    }
}

/// The animation state as a plain record.
#[derive(Clone, Copy, Debug, PartialEq, Eq, Structural)]
pub struct AnimationState {
    pub canvas_height: u32,
    pub canvas_width: u32,
    pub control_top: u32,
    pub control_bottom: u32,
    pub control_left: u32,
    pub control_right: u32,
}

/// The state that `update(time, height, width)` produces.
pub open spec fn state_at(time: int, height: int, width: int) -> AnimationState {
    let half = half_extent(height, width);
    let cx = width / 2;
    let cy = height / 2;
    let left = cx - half + displacement(half, time);
    let right = cx + half - displacement(half, time + QUARTER_PERIOD_MS as int);
    let bottom = cy - half + displacement(half, time + HALF_PERIOD_MS as int);
    let top = cy + half - displacement(half, time + 3 * QUARTER_PERIOD_MS as int);
    AnimationState {
        canvas_height: height as u32,
        canvas_width: width as u32,
        control_top: span_high(bottom, top, height) as u32,
        control_bottom: span_low(bottom, height) as u32,
        control_left: span_low(left, width) as u32,
        control_right: span_high(left, right, width) as u32,
    }
}

impl AnimationState {
    /// The rectangle lies inside the canvas, and has a positive width and
    /// height whenever the canvas does.
    pub open spec fn wf(self) -> bool {
        &&& self.control_bottom <= self.control_top <= self.canvas_height
        &&& self.control_left <= self.control_right <= self.canvas_width
        &&& self.canvas_height > 0 ==> self.control_bottom < self.control_top
        &&& self.canvas_width > 0 ==> self.control_left < self.control_right
    }

    /// The state before any update: the one computed at time zero for a
    /// canvas of `DEFAULT_HEIGHT` by `DEFAULT_WIDTH`.
    pub fn new() -> (r: AnimationState)
        ensures
            r == state_at(0, DEFAULT_HEIGHT as int, DEFAULT_WIDTH as int),
            r.wf(),
            r.control_bottom < r.control_top,
            r.control_left < r.control_right,
    {
        let mut s = AnimationState {
            canvas_height: 0,
            canvas_width: 0,
            control_top: 0,
            control_bottom: 0,
            control_left: 0,
            control_right: 0,
        };
        s.update(0, DEFAULT_HEIGHT, DEFAULT_WIDTH);
        s
    }

    /// Recomputes every field from the time (in milliseconds) and the canvas
    /// size (in pixels). The previous value plays no part.
    pub fn update(&mut self, time: u64, height: u32, width: u32)
        ensures
            *final(self) == state_at(time as int, height as int, width as int),
            final(self).wf(),
            final(self).canvas_height == height,
            final(self).canvas_width == width,
    {
        proof {
            lemma_state_at_wf(time as int, height as int, width as int);
        }
        let half = half_extent_exec(height, width);
        let cx = (width / 2) as i64;
        let cy = (height / 2) as i64;
        let phase = time % PERIOD_MS;
        proof {
            lemma_triangle_phase(time as int, 0);
            lemma_triangle_phase(time as int, QUARTER_PERIOD_MS as int);
            lemma_triangle_phase(time as int, HALF_PERIOD_MS as int);
            lemma_triangle_phase(time as int, 3 * QUARTER_PERIOD_MS as int);
        }
        let left = cx - half + displacement_exec(half, phase);
        let right = cx + half - displacement_exec(half, phase + QUARTER_PERIOD_MS);
        let bottom = cy - half + displacement_exec(half, phase + HALF_PERIOD_MS);
        let top = cy + half - displacement_exec(half, phase + 3 * QUARTER_PERIOD_MS);
        *self = AnimationState {
            canvas_height: height,
            canvas_width: width,
            control_top: span_high_exec(bottom, top, height),
            control_bottom: span_low_exec(bottom, height),
            control_left: span_low_exec(left, width),
            control_right: span_high_exec(left, right, width),
        };
    }

    /// A copy of the current state.
    pub fn get_curr_state(&self) -> (r: AnimationState)
        ensures
            r == *self,
    {
        *self
    }
}

fn half_extent_exec(height: u32, width: u32) -> (r: i64)
    ensures
        r == half_extent(height as int, width as int),
        0 <= r <= u32::MAX,
{
    let m: u64 = if height < width { height as u64 } else { width as u64 };
    (m * 9 / 20) as i64
}

fn displacement_exec(half: i64, t: u64) -> (r: i64)
    requires
        0 <= half <= u32::MAX,
    ensures
        r == displacement(half as int, t as int),
        0 <= r <= half,
{
    let p: u64 = t % PERIOD_MS;
    let tri: u64 = if p < HALF_PERIOD_MS { p } else { PERIOD_MS - p };
    assert(0 <= half * tri <= u32::MAX * HALF_PERIOD_MS) by (nonlinear_arith)
        requires 0 <= half <= u32::MAX, 0 <= tri <= HALF_PERIOD_MS;
    let r = (half as u64 * tri / PERIOD_MS) as i64;
    assert(half * tri / (PERIOD_MS as int) <= half) by (nonlinear_arith)
        requires 0 <= half, 0 <= tri <= HALF_PERIOD_MS;
    r
}

fn span_low_exec(lo: i64, size: u32) -> (r: u32)
    ensures
        r == span_low(lo as int, size as int),
{
    if size == 0 {
        0
    } else if lo < 0 {
        0
    } else if lo > size as i64 - 1 {
        size - 1
    } else {
        lo as u32
    }
}

fn span_high_exec(lo: i64, hi: i64, size: u32) -> (r: u32)
    ensures
        r == span_high(lo as int, hi as int, size as int),
{
    if size == 0 {
        return 0;
    }
    let low = span_low_exec(lo, size) as i64 + 1;
    if hi < low {
        low as u32
    } else if hi > size as i64 {
        size
    } else {
        hi as u32
    }
}

proof fn lemma_triangle_phase(time: int, offset: int)
    requires
        0 <= time,
        0 <= offset,
    ensures
        triangle(time % (PERIOD_MS as int) + offset) == triangle(time + offset),
{
    let p = PERIOD_MS as int;
    vstd::arithmetic::div_mod::lemma_add_mod_noop(time, offset, p);
    vstd::arithmetic::div_mod::lemma_mod_twice(time, p);
    vstd::arithmetic::div_mod::lemma_add_mod_noop(time % p, offset, p);
}

/// Whatever the time and the canvas size, the computed rectangle lies inside
/// the canvas, and it has a positive width and height when the canvas does.
pub proof fn lemma_state_at_wf(time: int, height: int, width: int)
    requires
        0 <= height <= u32::MAX,
        0 <= width <= u32::MAX,
    ensures
        state_at(time, height, width).wf(),
{
}

/// Two updates with the same time and canvas size give the same state,
/// whatever the states they started from.
pub proof fn lemma_update_deterministic(
    time: int,
    height: int,
    width: int,
    a: AnimationState,
    b: AnimationState,
)
    requires
        a == state_at(time, height, width),
        b == state_at(time, height, width),
    ensures
        a == b,
{
}

/// Advancing the time by one full period gives back the same state.
pub proof fn lemma_state_at_periodic(time: int, height: int, width: int)
    ensures
        state_at(time + PERIOD_MS as int, height, width) == state_at(time, height, width),
{
    let p = PERIOD_MS as int;
    assert forall|k: int| #[trigger] triangle(time + p + k) == triangle(time + k) by {
        vstd::arithmetic::div_mod::lemma_mod_add_multiples_vanish(time + k, p);
        assert(time + p + k == p + (time + k));
    }
    assert(triangle(time + p + 0) == triangle(time + 0));
    assert(triangle(time + p + QUARTER_PERIOD_MS as int) == triangle(time + QUARTER_PERIOD_MS as int));
    assert(triangle(time + p + HALF_PERIOD_MS as int) == triangle(time + HALF_PERIOD_MS as int));
    assert(triangle(time + p + 3 * QUARTER_PERIOD_MS as int) == triangle(time + 3 * QUARTER_PERIOD_MS as int));
}

} // verus!
