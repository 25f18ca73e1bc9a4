//! Per-frame values handed to the platform layer: the uniforms of one draw
//! call, the running clock, and the loop-continuation decision.

use vstd::prelude::*;
use crate::view::ViewState;
use crate::view::zoom_fix_spec;
use crate::view::zoom_fix;

verus! {

/// The four uniforms one frame uploads before its draw call, as the plain
/// values the platform layer converts for the driver.
#[derive(Clone, Copy, PartialEq, Eq, Structural, Debug)]
pub struct FrameUniforms {
    /// Elapsed wall-clock time since the first frame, in milliseconds.
    pub time_ms: u64,
    /// The zoom, lowered to fixed point.
    pub zoom: i64,
    /// The escape-time iteration limit.
    pub substeps: u32,
    /// Pan offset along x, in fixed point.
    pub offset_x: i64,
    /// Pan offset along y, in fixed point.
    pub offset_y: i64,
}

/// Package the uniforms of one frame from the view state and the clock.
pub fn frame_uniforms(v: &ViewState, elapsed_ms: u64) -> (u: FrameUniforms)
    ensures
        u.time_ms == elapsed_ms,
        u.zoom == zoom_fix_spec(v.zoom_exp as int),
        u.substeps == v.iteration_limit,
        u.offset_x == v.offset_x,
        u.offset_y == v.offset_y,
{
    FrameUniforms {
        time_ms: elapsed_ms,
        zoom: zoom_fix(v.zoom_exp),
        substeps: v.iteration_limit,
        offset_x: v.offset_x,
        offset_y: v.offset_y,
    }
}

/// Advance the running clock by one frame's delta. The clock only ever
/// moves forward; at the far end of the `u64` range it holds still rather
/// than wrap.
pub fn accumulate_time(elapsed_ms: u64, delta_ms: u64) -> (r: u64)
    ensures
        elapsed_ms + delta_ms <= u64::MAX ==> r == elapsed_ms + delta_ms,
        elapsed_ms + delta_ms > u64::MAX ==> r == u64::MAX,
        r >= elapsed_ms,
{
    if delta_ms <= u64::MAX - elapsed_ms {
        elapsed_ms + delta_ms
    } else {
        u64::MAX
    }
}

/// Whether the render loop runs another frame: it does exactly as long as
/// no window close has been requested — nothing else ends the loop.
pub fn loop_continues(close_requested: bool) -> (r: bool)
    ensures
        r == !close_requested,
{
    !close_requested
}

} // verus!
