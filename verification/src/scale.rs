//! Exact rational scale factors.
//!
//! DPI and user scale factors are carried as exact positive rationals
//! (`num / den`) instead of approximate machine reals, so the projection
//! and clip-rect computations that use them have one provable meaning.

use vstd::prelude::*;

verus! {

/// A positive rational factor `num / den`.
#[derive(Clone, Copy, Debug, PartialEq, Eq, Structural)]
pub struct Scale {
    /// Numerator; at least one.
    pub num: u16,
    /// Denominator; at least one.
    pub den: u16,
}

/// The neutral factor `1 / 1`.
pub open spec fn unit_scale() -> Scale {
    Scale { num: 1, den: 1 }
}

impl Scale {
    /// Both parts positive, so the factor itself is positive.
    pub open spec fn wf(self) -> bool {
        self.num >= 1 && self.den >= 1
    }

    /// Build a factor from its parts.
    pub fn new(num: u16, den: u16) -> (s: Scale)
        requires
            num >= 1,
            den >= 1,
        ensures
            s == (Scale { num, den }),
            s.wf(),
    {
        Scale { num, den }
    }

    /// The neutral factor.
    pub fn one() -> (s: Scale)
        ensures
            s == unit_scale(),
            s.wf(),
    {
        Scale { num: 1, den: 1 }
    }
}

} // verus!
