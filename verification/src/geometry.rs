//! Display geometry: resolved native windows, the frame-rate ceiling, and
//! the full-extent placement used for every sub-window registration.

use vstd::prelude::*;

verus! {

/// Hard ceiling on the frame rate handed to the render loop; requests above
/// it are clamped for graphics-driver stability on constrained hardware.
pub const FPS_CEILING: i32 = 30;

/// A platform surface resolved to a native drawable: an opaque pointer-sized
/// handle together with its pixel extent. A null resolution never becomes a
/// `WindowInfo`; callers represent it as `None`.
#[derive(Clone, Copy, PartialEq, Eq, Debug)]
pub struct WindowInfo {
    pub handle: usize,
    pub width: i32,
    pub height: i32,
}

/// The requested frame rate after the stability clamp: anything above the
/// ceiling becomes the ceiling; anything at or below it (zero and negative
/// values included) passes through unchanged.
pub open spec fn clamped_fps(fps: i32) -> i32 {
    if fps > FPS_CEILING {
        FPS_CEILING
    } else {
        fps
    }
}

/// Apply the frame-rate ceiling to a host-requested rate.
pub fn clamp_fps(fps: i32) -> (r: i32)
    ensures
        r == clamped_fps(fps),
{
    if fps > FPS_CEILING {
        FPS_CEILING
    } else {
        fps
    }
}

/// A sub-window registration or resize against the renderer: position,
/// extent and the original extent it is scaled from. Every placement this
/// module issues is at unity scale and zero rotation, so those two renderer
/// parameters are fixed constants of the call site and carry no field here.
#[derive(Clone, Copy, PartialEq, Eq, Debug)]
pub struct SubWindowPlacement {
    pub window: usize,
    pub x: i32,
    pub y: i32,
    pub width: i32,
    pub height: i32,
    pub orig_width: i32,
    pub orig_height: i32,
}

/// The one placement shape this module ever issues: the whole surface at
/// offset (0,0), with the original extent equal to the surface extent.
pub open spec fn full_extent_spec(window: usize, width: i32, height: i32) -> SubWindowPlacement {
    SubWindowPlacement {
        window,
        x: 0,
        y: 0,
        width,
        height,
        orig_width: width,
        orig_height: height,
    }
}

/// Build the full-extent placement for a window.
pub fn full_extent(window: usize, width: i32, height: i32) -> (p: SubWindowPlacement)
    ensures
        p == full_extent_spec(window, width, height),
{
    SubWindowPlacement {
        window,
        x: 0,
        y: 0,
        width,
        height,
        orig_width: width,
        orig_height: height,
    }
}

} // verus!
