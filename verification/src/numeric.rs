//! Exact integer arithmetic for coordinate scaling.
//!
//! Logical coordinates are mapped to device pixels by multiplying with a
//! rational factor and rounding. Rounding is stated over mathematical
//! integer division (which floors for a positive divisor) so that every
//! pixel computation has one exact meaning; results are clamped to the
//! 32-bit range the rasterizer accepts.

use vstd::arithmetic::div_mod::{
    lemma_div_is_ordered, lemma_fundamental_div_mod, lemma_fundamental_div_mod_converse_div,
    lemma_mod_division_less_than_divisor,
};
use vstd::prelude::*;

verus! {

/// Largest magnitude (exclusive) this module accepts for a scaled
/// numerator; far above anything a coordinate computation produces,
/// far below the 128-bit limit.
pub const NUMERATOR_LIMIT: i128 = 0x1_0000_0000_0000_0000_0000_0000;

/// Largest divisor this module accepts.
pub const DIVISOR_LIMIT: i128 = 0x1_0000_0000_0000_0000;

/// Ceiling of `p / d` for a positive divisor, as a floor division.
pub open spec fn ceil_div(p: int, d: int) -> int {
    (p + d - 1) / d
}

/// `floor(v * num / den)`: a coordinate scaled by a rational factor,
/// rounded toward negative infinity.
pub open spec fn scaled_floor(v: int, num: int, den: int) -> int {
    (v * num) / den
}

/// `ceil(v * num / den)`: a coordinate scaled by a rational factor,
/// rounded toward positive infinity.
pub open spec fn scaled_ceil(v: int, num: int, den: int) -> int {
    ceil_div(v * num, den)
}

/// A value forced into the range of `i32`.
pub open spec fn clamp_i32(v: int) -> int {
    if v < i32::MIN as int {
        i32::MIN as int
    } else if v > i32::MAX as int {
        i32::MAX as int
    } else {
        v
    }
}

/// Flooring a negated value is the negated ceiling: for `m >= 0` and
/// `d >= 1`, `floor(-m / d) == -ceil(m / d)`.
proof fn lemma_floor_of_neg(m: int, d: int)
    requires
        m >= 0,
        d >= 1,
    ensures
        (-m) / d == -((m + d - 1) / d),
{
    let q = m / d;
    let r = m % d;
    lemma_fundamental_div_mod(m, d);
    lemma_mod_division_less_than_divisor(m, d);
    assert(m == q * d + r) by (nonlinear_arith)
        requires
            m == d * q + r,
    ;
    if r == 0 {
        assert(m + d - 1 == q * d + (d - 1));
        lemma_fundamental_div_mod_converse_div(m + d - 1, d, q, d - 1);
        assert(-m == (-q) * d + 0) by (nonlinear_arith)
            requires
                m == q * d,
        ;
        lemma_fundamental_div_mod_converse_div(-m, d, -q, 0);
    } else {
        assert(m + d - 1 == (q + 1) * d + (r - 1)) by (nonlinear_arith)
            requires
                m == q * d + r,
        ;
        lemma_fundamental_div_mod_converse_div(m + d - 1, d, q + 1, r - 1);
        assert(-m == (-(q + 1)) * d + (d - r)) by (nonlinear_arith)
            requires
                m == q * d + r,
        ;
        lemma_fundamental_div_mod_converse_div(-m, d, -(q + 1), d - r);
    }
}

/// A coordinate in the accepted range times a 32-bit factor stays far
/// inside the range this module's division accepts.
proof fn lemma_scaled_product_bounded(v: int, num: int)
    requires
        -0x100_0000_0000 <= v <= 0x100_0000_0000,
        0 <= num < 0x1_0000_0000,
    ensures
        -0x100_0000_0000_0000_0000_0000 <= v * num <= 0x100_0000_0000_0000_0000_0000,
{
    assert(-0x100_0000_0000_0000_0000_0000 <= v * num <= 0x100_0000_0000_0000_0000_0000)
        by (nonlinear_arith)
        requires
            -0x100_0000_0000 <= v <= 0x100_0000_0000,
            0 <= num < 0x1_0000_0000,
    ;
}

/// Quotient of `p` by a positive divisor `d`, rounded toward negative
/// infinity, matching mathematical integer division exactly.
pub fn floor_div_i128(p: i128, d: i128) -> (r: i128)
    requires
        1 <= d <= DIVISOR_LIMIT,
        -NUMERATOR_LIMIT <= p <= NUMERATOR_LIMIT,
    ensures
        r == p as int / d as int,
{
    if p >= 0 {
        let q: u128 = (p as u128) / (d as u128);
        q as i128
    } else {
        let m: u128 = (-p) as u128;
        let q: u128 = (m + (d as u128) - 1) / (d as u128);
        proof {
            lemma_floor_of_neg(m as int, d as int);
        }
        -(q as i128)
    }
}

/// `v` scaled by the factor `num / den`, floored, clamped to `i32`.
pub fn scale_floor_i32(v: i64, num: u32, den: u32) -> (r: i32)
    requires
        1 <= den,
        -0x100_0000_0000 <= v <= 0x100_0000_0000,
    ensures
        r as int == clamp_i32(scaled_floor(v as int, num as int, den as int)),
{
    proof {
        lemma_scaled_product_bounded(v as int, num as int);
    }
    let t: i128 = floor_div_i128((v as i128) * (num as i128), den as i128);
    if t < i32::MIN as i128 {
        i32::MIN
    } else if t > i32::MAX as i128 {
        i32::MAX
    } else {
        t as i32
    }
}

/// `v` scaled by the factor `num / den`, rounded up, clamped to `i32`.
pub fn scale_ceil_i32(v: i64, num: u32, den: u32) -> (r: i32)
    requires
        1 <= den,
        -0x100_0000_0000 <= v <= 0x100_0000_0000,
    ensures
        r as int == clamp_i32(scaled_ceil(v as int, num as int, den as int)),
{
    proof {
        lemma_scaled_product_bounded(v as int, num as int);
    }
    let t: i128 = floor_div_i128(
        (v as i128) * (num as i128) + (den as i128) - 1,
        den as i128,
    );
    if t < i32::MIN as i128 {
        i32::MIN
    } else if t > i32::MAX as i128 {
        i32::MAX
    } else {
        t as i32
    }
}

/// A positive value scaled by a positive factor and rounded up stays
/// at least one.
pub proof fn lemma_scaled_ceil_at_least_one(v: int, num: int, den: int)
    requires
        v >= 1,
        num >= 1,
        den >= 1,
    ensures
        scaled_ceil(v, num, den) >= 1,
{
    assert(v * num >= 1) by (nonlinear_arith)
        requires
            v >= 1,
            num >= 1,
    ;
    lemma_div_is_ordered(den, v * num + den - 1, den);
    vstd::arithmetic::div_mod::lemma_div_by_self(den);
}

} // verus!
