//! Orthographic projection from logical display coordinates to clip space.
//!
//! The projection maps x in `[0, w]` to `[-1, 1]` and y in `[0, h]` to
//! `[1, -1]` — y flipped, because logical coordinates grow downward and
//! clip space grows upward — where `w` and `h` are the logical display
//! size scaled to device pixels by `dpi * scale`, rounded up. Clip-space
//! coordinates are exact fractions: the x of a logical point is
//! `(2x - w) / w`, its y is `(h - 2y) / h`, so correctness is stated and
//! proved without machine reals. A rasterizer matrix built from this
//! record is the standard orthographic matrix for the bounds
//! `(0, w, h, 0)` with near `-1` and far `1`.

use crate::numeric::{clamp_i32, lemma_scaled_ceil_at_least_one, scale_ceil_i32, scaled_ceil};
use crate::options::{fx_den, fx_num, fy_den, fy_num, DrawOptions};
use vstd::prelude::*;

verus! {

/// The projection, determined by the effective device-pixel display size.
#[derive(Clone, Copy, Debug, PartialEq, Eq, Structural)]
pub struct Projection {
    /// Display width in device pixels; positive.
    pub eff_width: i32,
    /// Display height in device pixels; positive.
    pub eff_height: i32,
}

/// An exact fraction `num / den` with a positive denominator.
#[derive(Clone, Copy, Debug, PartialEq, Eq, Structural)]
pub struct Frac {
    /// Numerator.
    pub num: i64,
    /// Denominator; positive.
    pub den: i64,
}

/// The fraction `f` equals the integer `v`.
pub open spec fn frac_is(f: (int, int), v: int) -> bool {
    f.1 >= 1 && f.0 == v * f.1
}

/// Clip-space x of a logical x: the fraction `(2x - w) / w`.
pub open spec fn clip_x_spec(p: Projection, x: int) -> (int, int) {
    (2 * x - p.eff_width, p.eff_width as int)
}

/// Clip-space y of a logical y: the fraction `(h - 2y) / h`.
pub open spec fn clip_y_spec(p: Projection, y: int) -> (int, int) {
    (p.eff_height - 2 * y, p.eff_height as int)
}

impl Projection {
    /// Both effective sizes are positive.
    pub open spec fn wf(self) -> bool {
        1 <= self.eff_width && 1 <= self.eff_height
    }

    /// The projection of a frame: the logical display size scaled to
    /// device pixels by the combined factor of each axis, rounded up.
    pub fn from_options(o: &DrawOptions) -> (p: Projection)
        requires
            o.wf(),
        ensures
            p.eff_width as int == scaled_ceil(o.display_width as int, fx_num(*o), fx_den(*o)),
            p.eff_height as int == scaled_ceil(o.display_height as int, fy_num(*o), fy_den(*o)),
            p.wf(),
    {
        let (nx, dx) = o.factor_x();
        let (ny, dy) = o.factor_y();
        proof {
            lemma_scaled_ceil_at_least_one(o.display_width as int, fx_num(*o), fx_den(*o));
            lemma_scaled_ceil_at_least_one(o.display_height as int, fy_num(*o), fy_den(*o));
            assert(clamp_i32(scaled_ceil(o.display_width as int, fx_num(*o), fx_den(*o)))
                == scaled_ceil(o.display_width as int, fx_num(*o), fx_den(*o)));
            assert(clamp_i32(scaled_ceil(o.display_height as int, fy_num(*o), fy_den(*o)))
                == scaled_ceil(o.display_height as int, fy_num(*o), fy_den(*o)));
        }
        let eff_width = scale_ceil_i32(o.display_width as i64, nx, dx);
        let eff_height = scale_ceil_i32(o.display_height as i64, ny, dy);
        Projection { eff_width, eff_height }
    }

    /// The exact clip-space x of a logical x.
    pub fn clip_x(&self, x: i32) -> (f: Frac)
        requires
            self.wf(),
        ensures
            (f.num as int, f.den as int) == clip_x_spec(*self, x as int),
            f.den >= 1,
    {
        Frac { num: 2 * (x as i64) - (self.eff_width as i64), den: self.eff_width as i64 }
    }

    /// The exact clip-space y of a logical y.
    pub fn clip_y(&self, y: i32) -> (f: Frac)
        requires
            self.wf(),
        ensures
            (f.num as int, f.den as int) == clip_y_spec(*self, y as int),
            f.den >= 1,
    {
        Frac { num: (self.eff_height as i64) - 2 * (y as i64), den: self.eff_height as i64 }
    }
}

/// Law: the projection maps the display's corners exactly onto the
/// corners of clip space — logical `(0, 0)` to `(-1, 1)` and logical
/// `(w, h)` to `(1, -1)` — for every well-formed projection.
pub proof fn lemma_projection_corners(p: Projection)
    requires
        p.wf(),
    ensures
        frac_is(clip_x_spec(p, 0), -1),
        frac_is(clip_y_spec(p, 0), 1),
        frac_is(clip_x_spec(p, p.eff_width as int), 1),
        frac_is(clip_y_spec(p, p.eff_height as int), -1),
{
}

} // verus!
