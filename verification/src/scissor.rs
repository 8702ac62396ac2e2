//! Clamping of primitive clip rectangles to the presentation surface.
//!
//! A primitive carries a clip rectangle in physical pixel coordinates (the
//! host has already applied the UI scale factor).  Before a scissor command
//! is recorded the rectangle is clamped componentwise to `[0, surface]`,
//! with the max corner additionally clamped to be at least the min corner,
//! so that the resulting offset and extent are always valid for the surface.
use vstd::prelude::*;

verus! {

/// A scissor rectangle: offset plus extent, in physical pixels.
#[derive(Clone, Copy, Debug, PartialEq, Eq, Structural)]
pub struct ScissorRect {
    /// Horizontal offset of the left edge.
    pub x: u32,
    /// Vertical offset of the top edge.
    pub y: u32,
    /// Width of the rectangle.
    pub width: u32,
    /// Height of the rectangle.
    pub height: u32,
}

/// `v` clamped to the interval `[lo, hi]` (meaningful when `lo <= hi`).
pub open spec fn spec_clamp(v: int, lo: int, hi: int) -> int {
    if v < lo {
        lo
    } else if v > hi {
        hi
    } else {
        v
    }
}

/// The scissor rectangle obtained from a clip rectangle: the min corner is
/// clamped to `[0, surface]`, the max corner to `[min, surface]`, and the
/// result is expressed as offset plus extent.
pub open spec fn spec_clamp_scissor(
    min_x: int,
    min_y: int,
    max_x: int,
    max_y: int,
    surface_width: int,
    surface_height: int,
) -> ScissorRect {
    let cx = spec_clamp(min_x, 0, surface_width);
    let cy = spec_clamp(min_y, 0, surface_height);
    let mx = spec_clamp(max_x, cx, surface_width);
    let my = spec_clamp(max_y, cy, surface_height);
    ScissorRect {
        x: cx as u32,
        y: cy as u32,
        width: (mx - cx) as u32,
        height: (my - cy) as u32,
    }
}

fn clamp_i64(v: i64, lo: i64, hi: i64) -> (r: i64)
    requires
        lo <= hi,
    ensures
        r == spec_clamp(v as int, lo as int, hi as int),
{
    if v < lo {
        lo
    } else if v > hi {
        hi
    } else {
        v
    }
}

/// Clamp a clip rectangle (physical pixel coordinates, possibly negative or
/// past the surface) to a scissor rectangle that lies within the surface.
pub fn clamp_scissor(
    min_x: i64,
    min_y: i64,
    max_x: i64,
    max_y: i64,
    surface_width: u32,
    surface_height: u32,
) -> (r: ScissorRect)
    ensures
        r == spec_clamp_scissor(
            min_x as int,
            min_y as int,
            max_x as int,
            max_y as int,
            surface_width as int,
            surface_height as int,
        ),
        r.x + r.width <= surface_width,
        r.y + r.height <= surface_height,
{
    let cx = clamp_i64(min_x, 0, surface_width as i64);
    let cy = clamp_i64(min_y, 0, surface_height as i64);
    let mx = clamp_i64(max_x, cx, surface_width as i64);
    let my = clamp_i64(max_y, cy, surface_height as i64);
    ScissorRect {
        x: cx as u32,
        y: cy as u32,
        width: (mx - cx) as u32,
        height: (my - cy) as u32,
    }
}

/// The scissor rectangle computed from any clip rectangle lies within the
/// surface: offset plus extent does not exceed the surface size on either
/// axis.
pub proof fn lemma_scissor_in_bounds(
    min_x: int,
    min_y: int,
    max_x: int,
    max_y: int,
    surface_width: int,
    surface_height: int,
)
    requires
        0 <= surface_width <= u32::MAX,
        0 <= surface_height <= u32::MAX,
    ensures
        ({
            let r = spec_clamp_scissor(min_x, min_y, max_x, max_y, surface_width, surface_height);
            r.x + r.width <= surface_width && r.y + r.height <= surface_height
        }),
{
}

} // verus!
