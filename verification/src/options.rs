//! Per-frame draw options.
//!
//! One record per frame: the logical display size, the DPI factor and the
//! user scale factor of each axis. Logical coordinates are mapped to
//! device pixels by multiplying with `dpi * scale`, one convention used
//! uniformly by the projection and by the clip-rect computation.

use crate::numeric::scaled_ceil;
use crate::scale::{unit_scale, Scale};
use vstd::prelude::*;

verus! {

/// Options that control one frame's translation.
#[derive(Clone, Copy, Debug, PartialEq, Eq)]
pub struct DrawOptions {
    /// Logical display width; positive.
    pub display_width: i32,
    /// Logical display height; positive.
    pub display_height: i32,
    /// DPI factor of the x axis.
    pub dpi_x: Scale,
    /// DPI factor of the y axis.
    pub dpi_y: Scale,
    /// User scale factor of the x axis.
    pub scale_x: Scale,
    /// User scale factor of the y axis.
    pub scale_y: Scale,
    /// Viewport rectangle `(x, y, width, height)` in logical pixels.
    pub viewport: (i32, i32, i32, i32),
}

/// Numerator of the combined x-axis factor `dpi_x * scale_x`.
pub open spec fn fx_num(o: DrawOptions) -> int {
    o.dpi_x.num * o.scale_x.num
}

/// Denominator of the combined x-axis factor.
pub open spec fn fx_den(o: DrawOptions) -> int {
    o.dpi_x.den * o.scale_x.den
}

/// Numerator of the combined y-axis factor `dpi_y * scale_y`.
pub open spec fn fy_num(o: DrawOptions) -> int {
    o.dpi_y.num * o.scale_y.num
}

/// Denominator of the combined y-axis factor.
pub open spec fn fy_den(o: DrawOptions) -> int {
    o.dpi_y.den * o.scale_y.den
}

/// The product of two factor parts, each a positive 16-bit value, is a
/// positive value that fits 32 bits.
proof fn lemma_factor_part_product(a: int, b: int)
    requires
        1 <= a < 0x1_0000,
        1 <= b < 0x1_0000,
    ensures
        1 <= a * b < 0x1_0000_0000,
{
    assert(1 <= a * b < 0x1_0000_0000) by (nonlinear_arith)
        requires
            1 <= a < 0x1_0000,
            1 <= b < 0x1_0000,
    ;
}

/// Scaling by the neutral factor changes nothing.
proof fn lemma_scaled_ceil_unit(v: int)
    ensures
        scaled_ceil(v, 1, 1) == v,
{
    assert(v * 1 == v);
    vstd::arithmetic::div_mod::lemma_div_basics(v);
}

/// A display dimension times a combined factor numerator stays well
/// inside 64 bits.
proof fn lemma_dim_times_factor(w: int, n: int)
    requires
        1 <= w < 0x8000_0000,
        1 <= n < 0x1_0000_0000,
    ensures
        1 <= w * n < 0x8000_0000_0000_0000,
{
    assert(1 <= w * n < 0x8000_0000_0000_0000) by (nonlinear_arith)
        requires
            1 <= w < 0x8000_0000,
            1 <= n < 0x1_0000_0000,
    ;
}

/// Whether a display dimension, scaled up by the combined factor
/// `a * b` and rounded up, still fits a 32-bit device coordinate.
fn dimension_fits(dim: i32, a: Scale, b: Scale) -> (r: bool)
    requires
        1 <= dim,
        a.wf(),
        b.wf(),
    ensures
        r == (scaled_ceil(dim as int, a.num * b.num, a.den * b.den) <= i32::MAX as int),
{
    proof {
        lemma_factor_part_product(a.num as int, b.num as int);
        lemma_factor_part_product(a.den as int, b.den as int);
        lemma_dim_times_factor(dim as int, a.num as int * b.num as int);
    }
    let n: u64 = (a.num as u64) * (b.num as u64);
    let d: u64 = (a.den as u64) * (b.den as u64);
    let t: u64 = ((dim as u64) * n + d - 1) / d;
    t <= i32::MAX as u64
}

impl DrawOptions {
    /// The display has positive size, the factors are positive, and the
    /// display size scaled to device pixels still fits 32-bit device
    /// coordinates.
    pub open spec fn wf(self) -> bool {
        1 <= self.display_width && 1 <= self.display_height && self.dpi_x.wf() && self.dpi_y.wf()
            && self.scale_x.wf() && self.scale_y.wf()
            && scaled_ceil(self.display_width as int, fx_num(self), fx_den(self))
            <= i32::MAX as int
            && scaled_ceil(self.display_height as int, fy_num(self), fy_den(self))
            <= i32::MAX as int
    }

    /// Options for a display of the given logical size, with neutral DPI
    /// and scale factors and a full-display viewport.
    pub fn new(width: usize, height: usize) -> (r: DrawOptions)
        requires
            1 <= width <= i32::MAX as usize,
            1 <= height <= i32::MAX as usize,
        ensures
            r.display_width == width as i32,
            r.display_height == height as i32,
            r.dpi_x == unit_scale(),
            r.dpi_y == unit_scale(),
            r.scale_x == unit_scale(),
            r.scale_y == unit_scale(),
            r.viewport == (0i32, 0i32, width as i32, height as i32),
            r.wf(),
    {
        let w: i32 = width as i32;
        let h: i32 = height as i32;
        let r = DrawOptions {
            display_width: w,
            display_height: h,
            dpi_x: Scale::one(),
            dpi_y: Scale::one(),
            scale_x: Scale::one(),
            scale_y: Scale::one(),
            viewport: (0i32, 0i32, w, h),
        };
        proof {
            lemma_scaled_ceil_unit(w as int);
            lemma_scaled_ceil_unit(h as int);
        }
        r
    }

    /// Replace the DPI factor of each axis.
    pub fn with_dpi_factor(self, x: Scale, y: Scale) -> (r: DrawOptions)
        requires
            self.wf(),
            x.wf(),
            y.wf(),
            scaled_ceil(
                self.display_width as int,
                x.num * self.scale_x.num,
                x.den * self.scale_x.den,
            ) <= i32::MAX as int,
            scaled_ceil(
                self.display_height as int,
                y.num * self.scale_y.num,
                y.den * self.scale_y.den,
            ) <= i32::MAX as int,
        ensures
            r.display_width == self.display_width,
            r.display_height == self.display_height,
            r.dpi_x == x,
            r.dpi_y == y,
            r.scale_x == self.scale_x,
            r.scale_y == self.scale_y,
            r.viewport == self.viewport,
            r.wf(),
    {
        DrawOptions { dpi_x: x, dpi_y: y, ..self }
    }

    /// Replace the user scale factor of each axis.
    pub fn with_scale_factor(self, x: Scale, y: Scale) -> (r: DrawOptions)
        requires
            self.wf(),
            x.wf(),
            y.wf(),
            scaled_ceil(
                self.display_width as int,
                self.dpi_x.num * x.num,
                self.dpi_x.den * x.den,
            ) <= i32::MAX as int,
            scaled_ceil(
                self.display_height as int,
                self.dpi_y.num * y.num,
                self.dpi_y.den * y.den,
            ) <= i32::MAX as int,
        ensures
            r.display_width == self.display_width,
            r.display_height == self.display_height,
            r.dpi_x == self.dpi_x,
            r.dpi_y == self.dpi_y,
            r.scale_x == x,
            r.scale_y == y,
            r.viewport == self.viewport,
            r.wf(),
    {
        DrawOptions { scale_x: x, scale_y: y, ..self }
    }

    /// Replace the DPI factor of each axis if the display still fits
    /// 32-bit device coordinates under the new combined factors;
    /// otherwise keep nothing and say so.
    pub fn try_with_dpi_factor(self, x: Scale, y: Scale) -> (r: Option<DrawOptions>)
        requires
            self.wf(),
            x.wf(),
            y.wf(),
        ensures
            match r {
                Some(o) => {
                    &&& scaled_ceil(
                        self.display_width as int,
                        x.num * self.scale_x.num,
                        x.den * self.scale_x.den,
                    ) <= i32::MAX as int
                    &&& scaled_ceil(
                        self.display_height as int,
                        y.num * self.scale_y.num,
                        y.den * self.scale_y.den,
                    ) <= i32::MAX as int
                    &&& o.display_width == self.display_width
                    &&& o.display_height == self.display_height
                    &&& o.dpi_x == x
                    &&& o.dpi_y == y
                    &&& o.scale_x == self.scale_x
                    &&& o.scale_y == self.scale_y
                    &&& o.viewport == self.viewport
                    &&& o.wf()
                },
                None => scaled_ceil(
                    self.display_width as int,
                    x.num * self.scale_x.num,
                    x.den * self.scale_x.den,
                ) > i32::MAX as int || scaled_ceil(
                    self.display_height as int,
                    y.num * self.scale_y.num,
                    y.den * self.scale_y.den,
                ) > i32::MAX as int,
            },
    {
        let fits_w = dimension_fits(self.display_width, x, self.scale_x);
        let fits_h = dimension_fits(self.display_height, y, self.scale_y);
        if fits_w && fits_h {
            Some(self.with_dpi_factor(x, y))
        } else {
            None
        }
    }

    /// Replace the user scale factor of each axis if the display still
    /// fits 32-bit device coordinates under the new combined factors;
    /// otherwise keep nothing and say so.
    pub fn try_with_scale_factor(self, x: Scale, y: Scale) -> (r: Option<DrawOptions>)
        requires
            self.wf(),
            x.wf(),
            y.wf(),
        ensures
            match r {
                Some(o) => {
                    &&& scaled_ceil(
                        self.display_width as int,
                        self.dpi_x.num * x.num,
                        self.dpi_x.den * x.den,
                    ) <= i32::MAX as int
                    &&& scaled_ceil(
                        self.display_height as int,
                        self.dpi_y.num * y.num,
                        self.dpi_y.den * y.den,
                    ) <= i32::MAX as int
                    &&& o.display_width == self.display_width
                    &&& o.display_height == self.display_height
                    &&& o.dpi_x == self.dpi_x
                    &&& o.dpi_y == self.dpi_y
                    &&& o.scale_x == x
                    &&& o.scale_y == y
                    &&& o.viewport == self.viewport
                    &&& o.wf()
                },
                None => scaled_ceil(
                    self.display_width as int,
                    self.dpi_x.num * x.num,
                    self.dpi_x.den * x.den,
                ) > i32::MAX as int || scaled_ceil(
                    self.display_height as int,
                    self.dpi_y.num * y.num,
                    self.dpi_y.den * y.den,
                ) > i32::MAX as int,
            },
    {
        let fits_w = dimension_fits(self.display_width, self.dpi_x, x);
        let fits_h = dimension_fits(self.display_height, self.dpi_y, y);
        if fits_w && fits_h {
            Some(self.with_scale_factor(x, y))
        } else {
            None
        }
    }

    /// The combined x-axis factor as a 32-bit numerator and denominator.
    pub fn factor_x(&self) -> (f: (u32, u32))
        requires
            self.dpi_x.wf(),
            self.scale_x.wf(),
        ensures
            f.0 == fx_num(*self),
            f.1 == fx_den(*self),
            1 <= f.0,
            1 <= f.1,
    {
        proof {
            lemma_factor_part_product(self.dpi_x.num as int, self.scale_x.num as int);
            lemma_factor_part_product(self.dpi_x.den as int, self.scale_x.den as int);
        }
        ((self.dpi_x.num as u32) * (self.scale_x.num as u32), (self.dpi_x.den as u32)
            * (self.scale_x.den as u32))
    }

    /// The combined y-axis factor as a 32-bit numerator and denominator.
    pub fn factor_y(&self) -> (f: (u32, u32))
        requires
            self.dpi_y.wf(),
            self.scale_y.wf(),
        ensures
            f.0 == fy_num(*self),
            f.1 == fy_den(*self),
            1 <= f.0,
            1 <= f.1,
    {
        proof {
            lemma_factor_part_product(self.dpi_y.num as int, self.scale_y.num as int);
            lemma_factor_part_product(self.dpi_y.den as int, self.scale_y.den as int);
        }
        ((self.dpi_y.num as u32) * (self.scale_y.num as u32), (self.dpi_y.den as u32)
            * (self.scale_y.den as u32))
    }
}

} // verus!
