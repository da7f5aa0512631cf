//! Clip rectangles and their device-pixel scissor bounds.
//!
//! A command's clip rectangle arrives in logical units with a top-left
//! origin. The scissor computation scales it by the combined
//! `dpi * scale` factor of each axis and flips the y axis, because the
//! rasterizer's scissor origin is the bottom-left corner. One reserved
//! rectangle means "no clipping" and is special-cased to the full
//! viewport: scaling its extreme bounds would be meaningless.

use crate::numeric::{clamp_i32, scaled_ceil, scaled_floor};
use crate::options::{fx_den, fx_num, fy_den, fy_num, DrawOptions};
use vstd::prelude::*;

verus! {

/// x and y of the reserved "no clip" rectangle.
pub const NO_CLIP_ORIGIN: i32 = -8192;
/// Width and height of the reserved "no clip" rectangle.
pub const NO_CLIP_EXTENT: i32 = 16384;

/// A rectangle in logical units, y growing downward.
#[derive(Clone, Copy, Debug, PartialEq, Eq, Structural)]
pub struct RectL {
    /// Left edge.
    pub x: i32,
    /// Top edge.
    pub y: i32,
    /// Width.
    pub w: i32,
    /// Height.
    pub h: i32,
}

/// Scissor bounds in device pixels, y growing upward.
#[derive(Clone, Copy, Debug, PartialEq, Eq, Structural)]
pub struct Scissor {
    /// Left edge.
    pub x: i32,
    /// Bottom edge.
    pub y: i32,
    /// Width.
    pub w: i32,
    /// Height.
    pub h: i32,
}

/// The reserved rectangle that stands for "no clipping".
pub open spec fn no_clip_rect() -> RectL {
    RectL { x: NO_CLIP_ORIGIN, y: NO_CLIP_ORIGIN, w: NO_CLIP_EXTENT, h: NO_CLIP_EXTENT }
}

/// Whether a rectangle is the reserved "no clip" sentinel.
pub open spec fn is_no_clip(r: RectL) -> bool {
    r == no_clip_rect()
}

/// The scissor bounds of a clip rectangle under the given options:
/// the full viewport for the sentinel; otherwise each side scaled by the
/// combined factor of its axis — left edge and extents rounded outward
/// enough to keep every covered pixel (floor for the edge, ceiling for
/// the extents) — and the bottom edge computed by flipping y inside the
/// logical display before scaling.
pub open spec fn scissor_spec(r: RectL, o: DrawOptions) -> Scissor {
    if is_no_clip(r) {
        Scissor { x: 0, y: 0, w: o.display_width, h: o.display_height }
    } else {
        Scissor {
            x: clamp_i32(scaled_floor(r.x as int, fx_num(o), fx_den(o))) as i32,
            y: clamp_i32(
                scaled_floor(
                    o.display_height - r.y - r.h,
                    fy_num(o),
                    fy_den(o),
                ),
            ) as i32,
            w: clamp_i32(scaled_ceil(r.w as int, fx_num(o), fx_den(o))) as i32,
            h: clamp_i32(scaled_ceil(r.h as int, fy_num(o), fy_den(o))) as i32,
        }
    }
}

/// Compute the device-pixel scissor bounds of one clip rectangle.
pub fn compute_scissor(r: &RectL, o: &DrawOptions) -> (s: Scissor)
    requires
        o.wf(),
    ensures
        s == scissor_spec(*r, *o),
{
    if r.x == NO_CLIP_ORIGIN && r.y == NO_CLIP_ORIGIN && r.w == NO_CLIP_EXTENT && r.h
        == NO_CLIP_EXTENT {
        Scissor { x: 0, y: 0, w: o.display_width, h: o.display_height }
    } else {
        let (nx, dx) = o.factor_x();
        let (ny, dy) = o.factor_y();
        let x = crate::numeric::scale_floor_i32(r.x as i64, nx, dx);
        let w = crate::numeric::scale_ceil_i32(r.w as i64, nx, dx);
        let h = crate::numeric::scale_ceil_i32(r.h as i64, ny, dy);
        let flipped: i64 = o.display_height as i64 - r.y as i64 - r.h as i64;
        let y = crate::numeric::scale_floor_i32(flipped, ny, dy);
        Scissor { x, y, w, h }
    }
}

/// Law: the reserved "no clip" rectangle maps to the full viewport
/// `(0, 0, display width, display height)`, whatever the DPI and scale
/// factors are.
pub proof fn lemma_no_clip_full_viewport(o: DrawOptions)
    ensures
        scissor_spec(no_clip_rect(), o) == (Scissor {
            x: 0,
            y: 0,
            w: o.display_width,
            h: o.display_height,
        }),
{
}

} // verus!
