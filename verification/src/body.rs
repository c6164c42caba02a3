//! One simulated orbiting body: its orbital phase, speed, ellipse shape
//! and fixed rotation about the vertical axis.

use vstd::prelude::*;

use crate::axis::SemiAxis;

verus! {

/// The visual category of a generated body.
#[derive(Clone, Copy, Debug, PartialEq, Eq, Structural)]
pub enum BodyCategory {
    Star,
    Filament,
    Dust,
    H2,
}

/// The fixed factor a category's rendered size carries over the
/// configured star size.
pub open spec fn spec_size_multiplier(c: BodyCategory) -> int {
    match c {
        BodyCategory::Star => 1,
        BodyCategory::H2 => 2,
        BodyCategory::Dust => 3,
        BodyCategory::Filament => 9,
    }
}

impl BodyCategory {
    /// The rendered radius of a body of this category: the configured
    /// star size times the category's fixed multiplier.
    pub fn display_size(&self, star_size: i64) -> (r: i64)
        requires
            0 <= star_size,
            star_size * spec_size_multiplier(*self) <= i64::MAX,
        ensures
            r == star_size * spec_size_multiplier(*self),
    {
        match self {
            BodyCategory::Star => star_size,
            BodyCategory::H2 => star_size * 2,
            BodyCategory::Dust => star_size * 3,
            BodyCategory::Filament => star_size * 9,
        }
    }
}

/// One orbiting body. `angle` is the orbital phase and `y_rotation` the
/// fixed angle of the body's orbit plane about the vertical axis, both
/// in micro-radians; `orbit_speed` is in micro-radians per second.
#[derive(Clone, Copy, Debug, PartialEq, Eq, Structural)]
pub struct OrbitingBody {
    pub angle: i64,
    pub orbit_speed: i64,
    pub semi_axis: SemiAxis,
    pub y_rotation: i64,
    pub category: BodyCategory,
}

} // verus!
