//! The ellipse-shape value: a pair of semi-axes with algebra that keeps
//! the major:minor aspect ratio under growth, shrink and scaling.
//!
//! Both radii are fixed-point micro-units (see [`crate::UNIT`]).

use vstd::prelude::*;

use crate::UNIT;

verus! {

/// Half-axes of an ellipse: `major` along the long direction, `minor`
/// along the short one, both in micro-units.
#[derive(Clone, Copy, Debug, PartialEq, Eq, Structural)]
pub struct SemiAxis {
    pub major: i64,
    pub minor: i64,
}

/// A well-formed shape: a strictly positive major radius and a
/// non-negative minor radius.
pub open spec fn axis_valid(a: SemiAxis) -> bool {
    0 < a.major && 0 <= a.minor
}

/// Both radii scaled by the fixed-point factor `k` (flooring).
pub open spec fn axis_scaled(a: SemiAxis, k: int) -> SemiAxis {
    SemiAxis {
        major: ((a.major * k) / (UNIT as int)) as i64,
        minor: ((a.minor * k) / (UNIT as int)) as i64,
    }
}

/// The major radius moved by `d`; the minor radius scaled by the same
/// factor the major one grew by, which keeps the aspect ratio.
pub open spec fn axis_grown(a: SemiAxis, d: int) -> SemiAxis {
    SemiAxis {
        major: (a.major + d) as i64,
        minor: ((a.minor * (a.major + d)) / (a.major as int)) as i64,
    }
}

/// The major radius moved back by `d`; the minor radius scaled by the
/// same factor the major one shrank by.
pub open spec fn axis_shrunk(a: SemiAxis, d: int) -> SemiAxis {
    SemiAxis {
        major: (a.major - d) as i64,
        minor: ((a.minor * (a.major - d)) / (a.major as int)) as i64,
    }
}

/// Component-wise sum of two shapes. The aspect ratio is not preserved:
/// this is only for offsetting a base shape by a density-derived one.
pub open spec fn axis_combined(a: SemiAxis, b: SemiAxis) -> SemiAxis {
    SemiAxis {
        major: (a.major + b.major) as i64,
        minor: (a.minor + b.minor) as i64,
    }
}

impl SemiAxis {
    /// Scale both radii by the fixed-point factor `k`, preserving the
    /// aspect ratio exactly up to flooring.
    pub fn scale(&self, k: i64) -> (r: SemiAxis)
        requires
            0 <= k,
            0 <= self.major,
            0 <= self.minor,
            self.major * k <= i64::MAX,
            self.minor * k <= i64::MAX,
        ensures
            r == axis_scaled(*self, k as int),
    {
        SemiAxis {
            major: self.major * k / UNIT,
            minor: self.minor * k / UNIT,
        }
    }

    /// Grow the major radius by `d` and rescale the minor radius by the
    /// growth factor `(major + d) / major`.
    pub fn grow(&self, d: i64) -> (r: SemiAxis)
        requires
            axis_valid(*self),
            0 < self.major + d,
            self.major + d <= i64::MAX,
            self.minor * (self.major + d) <= i64::MAX,
        ensures
            r == axis_grown(*self, d as int),
            axis_valid(r),
    {
        let new_major: i64 = self.major + d;
        SemiAxis {
            major: new_major,
            minor: self.minor * new_major / self.major,
        }
    }

    /// Shrink the major radius by `d` and rescale the minor radius by
    /// the shrink factor `(major - d) / major`.
    pub fn shrink(&self, d: i64) -> (r: SemiAxis)
        requires
            axis_valid(*self),
            0 < self.major - d,
            self.major - d <= i64::MAX,
            self.minor * (self.major - d) <= i64::MAX,
        ensures
            r == axis_shrunk(*self, d as int),
            axis_valid(r),
    {
        let new_major: i64 = self.major - d;
        SemiAxis {
            major: new_major,
            minor: self.minor * new_major / self.major,
        }
    }

    /// Component-wise sum with another shape (aspect ratio not kept).
    pub fn combine(&self, other: &SemiAxis) -> (r: SemiAxis)
        requires
            self.major + other.major <= i64::MAX,
            self.minor + other.minor <= i64::MAX,
            i64::MIN <= self.major + other.major,
            i64::MIN <= self.minor + other.minor,
        ensures
            r == axis_combined(*self, *other),
    {
        SemiAxis {
            major: self.major + other.major,
            minor: self.minor + other.minor,
        }
    }
}

/// Law: growing a shape by `d` and then shrinking the result by the same
/// `d` restores the major radius exactly, and restores the minor radius
/// up to one micro-unit of flooring loss.
pub proof fn lemma_grow_shrink_round_trip(a: SemiAxis, d: int)
    requires
        axis_valid(a),
        0 < d,
        a.major + d <= i64::MAX,
        a.minor * (a.major + d) <= i64::MAX,
    ensures
        axis_shrunk(axis_grown(a, d), d).major == a.major,
        a.minor - 1 <= axis_shrunk(axis_grown(a, d), d).minor <= a.minor,
{
    let m = a.minor as int;
    let big = a.major + d;
    let sm = a.major as int;
    let m1 = (m * big) / sm;
    let r1 = (m * big) % sm;
    assert(0 <= m * big) by (nonlinear_arith)
        requires 0 <= m, 0 < big;
    vstd::arithmetic::div_mod::lemma_fundamental_div_mod(m * big, sm);
    vstd::arithmetic::div_mod::lemma_mod_division_less_than_divisor(m * big, sm);
    vstd::arithmetic::div_mod::lemma_div_pos_is_pos(m * big, sm);
    vstd::arithmetic::div_mod::lemma_div_nonincreasing(m * big, sm);
    let g = axis_grown(a, d);
    assert(g.major == big);
    assert(g.minor == m1);
    let m2 = (m1 * sm) / big;
    let r2 = (m1 * sm) % big;
    assert(0 <= m1 * sm) by (nonlinear_arith)
        requires 0 <= m1, 0 < sm;
    vstd::arithmetic::div_mod::lemma_fundamental_div_mod(m1 * sm, big);
    vstd::arithmetic::div_mod::lemma_mod_division_less_than_divisor(m1 * sm, big);
    vstd::arithmetic::div_mod::lemma_div_pos_is_pos(m1 * sm, big);
    vstd::arithmetic::div_mod::lemma_div_nonincreasing(m1 * sm, big);
    // The two fundamental equations, rearranged.
    assert(sm * m1 == m * big - r1);
    assert(big * m2 == m1 * sm - r2);
    // Upper bound: m2 <= m, since m2 * big <= m1 * sm <= m * big.
    assert(m2 * big <= m * big) by (nonlinear_arith)
        requires big * m2 == m1 * sm - r2, sm * m1 == m * big - r1, 0 <= r1, 0 <= r2;
    assert(m2 <= m) by (nonlinear_arith)
        requires m2 * big <= m * big, 0 < big;
    // Lower bound: (m - 1) * big < m1 * sm, since r1 < sm <= big - 1.
    assert((m - 1) * big < m1 * sm) by (nonlinear_arith)
        requires sm * m1 == m * big - r1, r1 < sm, sm < big;
    assert((m - 1) * big < (m2 + 1) * big) by (nonlinear_arith)
        requires (m - 1) * big < m1 * sm, big * m2 == m1 * sm - r2, r2 < big;
    assert(m - 1 < m2 + 1) by (nonlinear_arith)
        requires (m - 1) * big < (m2 + 1) * big, 0 < big;
    assert(axis_shrunk(g, d).major == a.major);
    assert(axis_shrunk(g, d).minor == m2);
}

impl Default for SemiAxis {
    /// The startup shape: major 0.5, minor 0.3.
    fn default() -> (r: Self)
        ensures
            r.major == 500_000,
            r.minor == 300_000,
    {
        SemiAxis { major: 500_000, minor: 300_000 }
    }
}

} // verus!
