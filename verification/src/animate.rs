//! Time-boxed window geometry animation.
//!
//! A resize command moves a window from its starting geometry towards a
//! target geometry over a fixed wall-clock duration, re-sampling at a fixed
//! cadence.  The caller's loop reads the elapsed time, asks [`animation_step`]
//! for the next frame, applies it to the window, and sleeps for one sampling
//! interval; the loop ends as soon as the elapsed time reaches the duration.
//! All the geometry arithmetic lives here and is exact integer arithmetic:
//! each interpolated offset is the delta scaled by `elapsed / duration`,
//! truncated towards zero.

use vstd::prelude::*;
use vstd::arithmetic::div_mod::{lemma_div_is_ordered, lemma_div_multiples_vanish};
use vstd::arithmetic::mul::{lemma_mul_inequality, lemma_mul_is_commutative};

verus! {

/// Which edge of the window stays anchored while it grows or shrinks.
///
/// With `Normal` the position is unchanged and the window grows rightwards
/// and downwards.  `Left` anchors the right edge, `Top` anchors the bottom
/// edge, and `Shrink` moves both axes by half the delta so that the resize
/// stays centred.
#[derive(Clone, Copy, Debug, PartialEq, Eq, Structural)]
pub enum Direction {
    Normal,
    Left,
    Top,
    Shrink,
}

/// A window's geometry as the hosting framework reports it: an outer
/// position in signed pixels and an inner size in unsigned pixels.
#[derive(Clone, Copy, Debug, PartialEq, Eq, Structural)]
pub struct Geometry {
    pub x: i32,
    pub y: i32,
    pub width: u32,
    pub height: u32,
}

/// One sample of the animation: the geometry to apply to the window.
///
/// The fields are wide enough that every interpolated value fits exactly:
/// no frame computation can overflow or be clipped.
#[derive(Clone, Copy, Debug, PartialEq, Eq, Structural)]
pub struct Frame {
    pub x: i64,
    pub y: i64,
    pub width: i64,
    pub height: i64,
}

/// The elapsed time never counts beyond the duration: progress is clamped
/// at 1.
pub open spec fn clamped_elapsed(elapsed: int, duration: int) -> int {
    if elapsed <= duration {
        elapsed
    } else {
        duration
    }
}

/// `delta` scaled by `numer / denom`, truncated towards zero.
pub open spec fn scale_trunc(delta: int, numer: int, denom: int) -> int
    recommends
        0 <= numer,
        0 < denom,
{
    if delta >= 0 {
        (delta * numer) / denom
    } else {
        -(((-delta) * numer) / denom)
    }
}

/// The interpolated offset at a sample: the delta scaled by the clamped
/// progress `elapsed / duration`, truncated towards zero.
pub open spec fn scaled_step(delta: int, elapsed: int, duration: int) -> int
    recommends
        0 <= elapsed,
        0 < duration,
{
    scale_trunc(delta, clamped_elapsed(elapsed, duration), duration)
}

/// Half the interpolated offset, used by the centring direction: the delta
/// scaled by the clamped progress and divided by two, truncated towards
/// zero.
pub open spec fn half_step(delta: int, elapsed: int, duration: int) -> int
    recommends
        0 <= elapsed,
        0 < duration,
{
    scale_trunc(delta, clamped_elapsed(elapsed, duration), 2 * duration)
}

/// The x coordinate of a sample.  `Left` anchors the right edge by moving
/// the window leftwards as it widens; `Shrink` moves it by half the width
/// delta to keep the resize centred; the other directions leave x alone.
pub open spec fn frame_x(start_x: int, dw: int, dir: Direction, elapsed: int, duration: int) -> int {
    match dir {
        Direction::Left => start_x - scaled_step(dw, elapsed, duration),
        Direction::Shrink => start_x - half_step(dw, elapsed, duration),
        _ => start_x,
    }
}

/// The y coordinate of a sample, analogous to [`frame_x`] with `Top` in
/// place of `Left`.
pub open spec fn frame_y(start_y: int, dh: int, dir: Direction, elapsed: int, duration: int) -> int {
    match dir {
        Direction::Top => start_y - scaled_step(dh, elapsed, duration),
        Direction::Shrink => start_y - half_step(dh, elapsed, duration),
        _ => start_y,
    }
}

/// What it means for `f` to be the sample of the animation described by the
/// other arguments: the size is the start size plus the interpolated delta,
/// and the position follows the direction's anchoring rule.
pub open spec fn is_frame_for(
    f: Frame,
    start: Geometry,
    dw: int,
    dh: int,
    dir: Direction,
    elapsed: int,
    duration: int,
) -> bool {
    &&& f.width as int == start.width + scaled_step(dw, elapsed, duration)
    &&& f.height as int == start.height + scaled_step(dh, elapsed, duration)
    &&& f.x as int == frame_x(start.x as int, dw, dir, elapsed, duration)
    &&& f.y as int == frame_y(start.y as int, dh, dir, elapsed, duration)
}

/// `delta` scaled by `numer / denom` in exact integer arithmetic, truncated
/// towards zero.  Because `numer <= denom`, the result never exceeds the
/// delta in magnitude.
fn scale_trunc_exec(delta: i32, numer: u64, denom: u128) -> (r: i64)
    requires
        0 < denom,
        numer as int <= denom as int,
    ensures
        r as int == scale_trunc(delta as int, numer as int, denom as int),
        i32::MIN as int <= r as int <= i32::MAX as int,
{
    let mag: u128 = if delta >= 0 {
        delta as u128
    } else {
        (-(delta as i64)) as u128
    };
    proof {
        assert(mag as int * numer as int <= 0x1_0000_0000 * 0xFFFF_FFFF_FFFF_FFFFu128) by (nonlinear_arith)
            requires
                0 <= mag as int <= 0x1_0000_0000,
                0 <= numer as int <= 0xFFFF_FFFF_FFFF_FFFFu128,
        ;
        lemma_mul_inequality(numer as int, denom as int, mag as int);
        lemma_mul_is_commutative(numer as int, mag as int);
        lemma_mul_is_commutative(denom as int, mag as int);
        lemma_div_is_ordered(mag as int * numer as int, mag as int * denom as int, denom as int);
        lemma_div_multiples_vanish(mag as int, denom as int);
        lemma_mul_is_commutative(mag as int, denom as int);
    }
    let scaled: u128 = (mag * (numer as u128)) / denom;
    if delta >= 0 {
        scaled as i64
    } else {
        -(scaled as i64)
    }
}

/// The geometry to apply at one sample of the animation.
///
/// `increase_width` and `increase_height` are the full deltas the caller
/// asked for; the sample applies the fraction `elapsed_ms / duration_ms` of
/// them (clamped at the whole delta), truncated towards zero, and anchors
/// the position according to `direction`.
pub fn compute_frame(
    start: &Geometry,
    increase_width: i32,
    increase_height: i32,
    direction: Direction,
    elapsed_ms: u64,
    duration_ms: u64,
) -> (f: Frame)
    requires
        duration_ms > 0,
    ensures
        is_frame_for(f, *start, increase_width as int, increase_height as int, direction, elapsed_ms as int, duration_ms as int),
{
    let e: u64 = if elapsed_ms < duration_ms {
        elapsed_ms
    } else {
        duration_ms
    };
    let sw: i64 = scale_trunc_exec(increase_width, e, duration_ms as u128);
    let sh: i64 = scale_trunc_exec(increase_height, e, duration_ms as u128);
    let x: i64 = match direction {
        Direction::Left => start.x as i64 - sw,
        Direction::Shrink => start.x as i64 - scale_trunc_exec(increase_width, e, (duration_ms as u128) * 2),
        _ => start.x as i64,
    };
    let y: i64 = match direction {
        Direction::Top => start.y as i64 - sh,
        Direction::Shrink => start.y as i64 - scale_trunc_exec(increase_height, e, (duration_ms as u128) * 2),
        _ => start.y as i64,
    };
    Frame { x, y, width: start.width as i64 + sw, height: start.height as i64 + sh }
}

/// The decision the sampling loop takes at each pass: while the elapsed
/// time is still short of the duration there is another frame to apply,
/// computed by [`compute_frame`]; once it reaches the duration the
/// animation is over.  A zero duration therefore never yields a frame and
/// leaves the window untouched.  No final exact-target frame is forced: the
/// last frame the loop applied may fall short of the target when the
/// sampling cadence does not divide the duration evenly.
pub fn animation_step(
    start: &Geometry,
    increase_width: i32,
    increase_height: i32,
    direction: Direction,
    elapsed_ms: u64,
    duration_ms: u64,
) -> (r: Option<Frame>)
    ensures
        r is Some <==> elapsed_ms < duration_ms,
        r is Some ==> is_frame_for(r->Some_0, *start, increase_width as int, increase_height as int, direction, elapsed_ms as int, duration_ms as int),
{
    if elapsed_ms < duration_ms {
        Some(compute_frame(start, increase_width, increase_height, direction, elapsed_ms, duration_ms))
    } else {
        None
    }
}

/// What each direction name from the command surface means.  Only the three
/// recognised names select an anchoring rule; any other text falls back to
/// the default behaviour.
pub open spec fn spec_parse_direction(s: Seq<char>) -> Direction {
    if s == "left"@ {
        Direction::Left
    } else if s == "top"@ {
        Direction::Top
    } else if s == "shrink"@ {
        Direction::Shrink
    } else {
        Direction::Normal
    }
}

/// Turn the direction name supplied by the command surface into a
/// [`Direction`], falling back to the default behaviour on any
/// unrecognised name.
pub fn parse_direction(s: &str) -> (d: Direction)
    ensures
        d == spec_parse_direction(s@),
{
    let t = s.to_owned();
    if t == "left".to_owned() {
        Direction::Left
    } else if t == "top".to_owned() {
        Direction::Top
    } else if t == "shrink".to_owned() {
        Direction::Shrink
    } else {
        Direction::Normal
    }
}

/// Law: growing leftwards keeps the right edge fixed.  At every sample of a
/// `Left` animation, the new left edge plus the new width equals the
/// starting left edge plus the starting width: the window extends leftwards
/// while its right edge stays where it was.
pub proof fn lemma_left_keeps_right_edge(
    start: Geometry,
    dw: int,
    elapsed: int,
    duration: int,
)
    requires
        0 < duration,
        0 <= elapsed,
    ensures
        frame_x(start.x as int, dw, Direction::Left, elapsed, duration)
            + (start.width + scaled_step(dw, elapsed, duration))
            == start.x + start.width,
{
}

/// Law: progress never runs backwards.  Within one animation the clamped
/// elapsed time, which drives every interpolated offset, is monotonically
/// non-decreasing in the elapsed time.
pub proof fn lemma_progress_monotone(e1: int, e2: int, duration: int)
    requires
        e1 <= e2,
    ensures
        clamped_elapsed(e1, duration) <= clamped_elapsed(e2, duration),
{
}

} // verus!
