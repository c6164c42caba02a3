//! The tunable parameter set driving generation, mutated only through
//! bounded step operations: each field has a fixed step and a closed
//! clamp interval, and a step that would leave the interval is a silent
//! no-op.

use vstd::prelude::*;

use crate::axis::{axis_grown, axis_shrunk, SemiAxis};

verus! {

/// Which tunable field a tweak operation addresses.
#[derive(Clone, Copy, Debug, PartialEq, Eq, Structural)]
pub enum ButtonKind {
    StarCount,
    StarSize,
    Velocity,
    SemiAxis,
    OrbitDensity,
    OrbitRotation,
}

/// The direction of a step.
#[derive(Clone, Copy, Debug, PartialEq, Eq, Structural)]
pub enum ButtonAction {
    Increment,
    Decrement,
}

/// Which body-category flag a checkbox toggles.
#[derive(Clone, Copy, Debug, PartialEq, Eq, Structural)]
pub enum CheckboxKind {
    Dust,
    HII,
    Filament,
}

pub const STAR_COUNT_STEP: u32 = 1_000;

pub const STAR_COUNT_MIN: u32 = 5_000;

pub const STAR_COUNT_MAX: u32 = 15_000;

pub const STAR_SIZE_STEP: i64 = 10_000;

pub const STAR_SIZE_MIN: i64 = 10_000;

pub const STAR_SIZE_MAX: i64 = 70_000;

pub const VELOCITY_STEP: i64 = 100_000;

pub const VELOCITY_MIN: i64 = 100_000;

pub const VELOCITY_MAX: i64 = 5_000_000;

pub const SEMI_AXIS_STEP: i64 = 50_000;

pub const SEMI_AXIS_MIN: i64 = 200_000;

pub const SEMI_AXIS_MAX: i64 = 1_100_000;

pub const ORBIT_DENSITY_STEP: i64 = 100_000;

pub const ORBIT_DENSITY_MIN: i64 = 500_000;

pub const ORBIT_DENSITY_MAX: i64 = 4_000_000;

pub const ORBIT_ROTATION_STEP: i64 = 100_000;

pub const ORBIT_ROTATION_MIN: i64 = 0;

pub const ORBIT_ROTATION_MAX: i64 = 1_000_000;

/// An upper cap on the brightness falloff rate; it is not tunable, so
/// the cap only fixes a machine bound for the generator's arithmetic.
pub const DIMMING_SPEED_CAP: i64 = 1_000_000_000;

/// The tunable parameter set. Scalars other than `star_count` and
/// `stars_per_orbit` are fixed-point micro-units.
#[derive(Clone, Copy, Debug, PartialEq, Eq, Structural)]
pub struct Configuration {
    pub dust: bool,
    pub h2: bool,
    pub filament: bool,
    pub star_count: u32,
    pub velocity: i64,
    pub semi_axis: SemiAxis,
    pub stars_per_orbit: u8,
    pub dimming_speed: i64,
    pub orbit_density: i64,
    pub orbit_rotation: i64,
    pub star_size: i64,
}

/// The startup parameter values.
pub open spec fn default_configuration() -> Configuration {
    Configuration {
        dust: true,
        h2: true,
        filament: true,
        star_count: 10_000,
        velocity: 1_000_000,
        semi_axis: SemiAxis { major: 500_000, minor: 300_000 },
        stars_per_orbit: 100,
        dimming_speed: 150_000_000,
        orbit_density: 2_000_000,
        orbit_rotation: 200_000,
        star_size: 20_000,
    }
}

/// One clamped step of a fixed-point field: the step applies only when
/// the stepped value stays inside the closed interval `[lo, hi]`.
pub open spec fn spec_step(value: i64, step: i64, lo: i64, hi: i64, action: ButtonAction) -> i64 {
    match action {
        ButtonAction::Increment => if value + step <= hi {
            (value + step) as i64
        } else {
            value
        },
        ButtonAction::Decrement => if value - step >= lo {
            (value - step) as i64
        } else {
            value
        },
    }
}

/// One clamped step of the star count.
pub open spec fn spec_step_star_count(value: u32, action: ButtonAction) -> u32 {
    match action {
        ButtonAction::Increment => if value + STAR_COUNT_STEP <= STAR_COUNT_MAX {
            (value + STAR_COUNT_STEP) as u32
        } else {
            value
        },
        ButtonAction::Decrement => if value - STAR_COUNT_STEP >= STAR_COUNT_MIN {
            (value - STAR_COUNT_STEP) as u32
        } else {
            value
        },
    }
}

/// One clamped step of the ellipse shape: the major radius is clamped,
/// and the minor radius follows through the ratio-preserving algebra.
pub open spec fn spec_step_semi_axis(a: SemiAxis, action: ButtonAction) -> SemiAxis {
    match action {
        ButtonAction::Increment => if a.major + SEMI_AXIS_STEP <= SEMI_AXIS_MAX {
            axis_grown(a, SEMI_AXIS_STEP as int)
        } else {
            a
        },
        ButtonAction::Decrement => if a.major - SEMI_AXIS_STEP >= SEMI_AXIS_MIN {
            axis_shrunk(a, SEMI_AXIS_STEP as int)
        } else {
            a
        },
    }
}

/// The configuration after one tweak operation.
pub open spec fn spec_update(c: Configuration, kind: ButtonKind, action: ButtonAction) -> Configuration {
    match kind {
        ButtonKind::StarCount => Configuration {
            star_count: spec_step_star_count(c.star_count, action),
            ..c
        },
        ButtonKind::StarSize => Configuration {
            star_size: spec_step(c.star_size, STAR_SIZE_STEP, STAR_SIZE_MIN, STAR_SIZE_MAX, action),
            ..c
        },
        ButtonKind::Velocity => Configuration {
            velocity: spec_step(c.velocity, VELOCITY_STEP, VELOCITY_MIN, VELOCITY_MAX, action),
            ..c
        },
        ButtonKind::SemiAxis => Configuration {
            semi_axis: spec_step_semi_axis(c.semi_axis, action),
            ..c
        },
        ButtonKind::OrbitDensity => Configuration {
            orbit_density: spec_step(
                c.orbit_density,
                ORBIT_DENSITY_STEP,
                ORBIT_DENSITY_MIN,
                ORBIT_DENSITY_MAX,
                action,
            ),
            ..c
        },
        ButtonKind::OrbitRotation => Configuration {
            orbit_rotation: spec_step(
                c.orbit_rotation,
                ORBIT_ROTATION_STEP,
                ORBIT_ROTATION_MIN,
                ORBIT_ROTATION_MAX,
                action,
            ),
            ..c
        },
    }
}

/// The configuration after toggling one category flag.
pub open spec fn spec_toggle(c: Configuration, kind: CheckboxKind) -> Configuration {
    match kind {
        CheckboxKind::Dust => Configuration { dust: !c.dust, ..c },
        CheckboxKind::HII => Configuration { h2: !c.h2, ..c },
        CheckboxKind::Filament => Configuration { filament: !c.filament, ..c },
    }
}

impl Configuration {
    /// Every bounded field sits inside its clamp interval, and the
    /// ellipse shape is well-formed with its minor radius no longer
    /// than its major one.
    pub open spec fn wf(self) -> bool {
        &&& STAR_COUNT_MIN <= self.star_count <= STAR_COUNT_MAX
        &&& STAR_SIZE_MIN <= self.star_size <= STAR_SIZE_MAX
        &&& VELOCITY_MIN <= self.velocity <= VELOCITY_MAX
        &&& SEMI_AXIS_MIN <= self.semi_axis.major <= SEMI_AXIS_MAX
        &&& 0 <= self.semi_axis.minor <= self.semi_axis.major
        &&& ORBIT_DENSITY_MIN <= self.orbit_density <= ORBIT_DENSITY_MAX
        &&& ORBIT_ROTATION_MIN <= self.orbit_rotation <= ORBIT_ROTATION_MAX
        &&& 0 <= self.dimming_speed <= DIMMING_SPEED_CAP
    }

    /// Apply one tweak operation: step the addressed field, clamped to
    /// its interval. Reports whether the configuration changed, which
    /// is the signal the regeneration coordinator consumes.
    pub fn update(&mut self, button_kind: ButtonKind, action: ButtonAction) -> (changed: bool)
        requires
            old(self).wf(),
        ensures
            *final(self) == spec_update(*old(self), button_kind, action),
            final(self).wf(),
            changed == (*final(self) != *old(self)),
    {
        proof {
            lemma_update_wf(*old(self), button_kind, action);
        }
        match button_kind {
            ButtonKind::StarCount => self.update_star_count(action),
            ButtonKind::StarSize => self.update_star_size(action),
            ButtonKind::Velocity => self.update_velocity(action),
            ButtonKind::SemiAxis => self.update_semi_axis(action),
            ButtonKind::OrbitDensity => self.update_orbit_density(action),
            ButtonKind::OrbitRotation => self.update_orbit_rotation(action),
        }
    }

    fn update_star_count(&mut self, action: ButtonAction) -> (changed: bool)
        requires
            old(self).wf(),
        ensures
            *final(self) == spec_update(*old(self), ButtonKind::StarCount, action),
            changed == (*final(self) != *old(self)),
    {
        match action {
            ButtonAction::Increment => {
                if self.star_count + STAR_COUNT_STEP <= STAR_COUNT_MAX {
                    self.star_count = self.star_count + STAR_COUNT_STEP;
                    true
                } else {
                    false
                }
            }
            ButtonAction::Decrement => {
                if self.star_count >= STAR_COUNT_MIN + STAR_COUNT_STEP {
                    self.star_count = self.star_count - STAR_COUNT_STEP;
                    true
                } else {
                    false
                }
            }
        }
    }

    fn update_star_size(&mut self, action: ButtonAction) -> (changed: bool)
        requires
            old(self).wf(),
        ensures
            *final(self) == spec_update(*old(self), ButtonKind::StarSize, action),
            changed == (*final(self) != *old(self)),
    {
        match action {
            ButtonAction::Increment => {
                if self.star_size + STAR_SIZE_STEP <= STAR_SIZE_MAX {
                    self.star_size = self.star_size + STAR_SIZE_STEP;
                    true
                } else {
                    false
                }
            }
            ButtonAction::Decrement => {
                if self.star_size - STAR_SIZE_STEP >= STAR_SIZE_MIN {
                    self.star_size = self.star_size - STAR_SIZE_STEP;
                    true
                } else {
                    false
                }
            }
        }
    }

    fn update_velocity(&mut self, action: ButtonAction) -> (changed: bool)
        requires
            old(self).wf(),
        ensures
            *final(self) == spec_update(*old(self), ButtonKind::Velocity, action),
            changed == (*final(self) != *old(self)),
    {
        match action {
            ButtonAction::Increment => {
                if self.velocity + VELOCITY_STEP <= VELOCITY_MAX {
                    self.velocity = self.velocity + VELOCITY_STEP;
                    true
                } else {
                    false
                }
            }
            ButtonAction::Decrement => {
                if self.velocity - VELOCITY_STEP >= VELOCITY_MIN {
                    self.velocity = self.velocity - VELOCITY_STEP;
                    true
                } else {
                    false
                }
            }
        }
    }

    fn update_semi_axis(&mut self, action: ButtonAction) -> (changed: bool)
        requires
            old(self).wf(),
        ensures
            *final(self) == spec_update(*old(self), ButtonKind::SemiAxis, action),
            changed == (*final(self) != *old(self)),
    {
        match action {
            ButtonAction::Increment => {
                if self.semi_axis.major + SEMI_AXIS_STEP <= SEMI_AXIS_MAX {
                    proof {
                        assert(self.semi_axis.minor * (self.semi_axis.major + SEMI_AXIS_STEP)
                            <= i64::MAX) by (nonlinear_arith)
                            requires
                                0 <= self.semi_axis.minor <= SEMI_AXIS_MAX,
                                0 < self.semi_axis.major + SEMI_AXIS_STEP <= SEMI_AXIS_MAX,
                        ;
                    }
                    self.semi_axis = self.semi_axis.grow(SEMI_AXIS_STEP);
                    true
                } else {
                    false
                }
            }
            ButtonAction::Decrement => {
                if self.semi_axis.major - SEMI_AXIS_STEP >= SEMI_AXIS_MIN {
                    proof {
                        assert(self.semi_axis.minor * (self.semi_axis.major - SEMI_AXIS_STEP)
                            <= i64::MAX) by (nonlinear_arith)
                            requires
                                0 <= self.semi_axis.minor <= SEMI_AXIS_MAX,
                                0 < self.semi_axis.major - SEMI_AXIS_STEP <= SEMI_AXIS_MAX,
                        ;
                    }
                    self.semi_axis = self.semi_axis.shrink(SEMI_AXIS_STEP);
                    true
                } else {
                    false
                }
            }
        }
    }

    fn update_orbit_density(&mut self, action: ButtonAction) -> (changed: bool)
        requires
            old(self).wf(),
        ensures
            *final(self) == spec_update(*old(self), ButtonKind::OrbitDensity, action),
            changed == (*final(self) != *old(self)),
    {
        match action {
            ButtonAction::Increment => {
                if self.orbit_density + ORBIT_DENSITY_STEP <= ORBIT_DENSITY_MAX {
                    self.orbit_density = self.orbit_density + ORBIT_DENSITY_STEP;
                    true
                } else {
                    false
                }
            }
            ButtonAction::Decrement => {
                if self.orbit_density - ORBIT_DENSITY_STEP >= ORBIT_DENSITY_MIN {
                    self.orbit_density = self.orbit_density - ORBIT_DENSITY_STEP;
                    true
                } else {
                    false
                }
            }
        }
    }

    fn update_orbit_rotation(&mut self, action: ButtonAction) -> (changed: bool)
        requires
            old(self).wf(),
        ensures
            *final(self) == spec_update(*old(self), ButtonKind::OrbitRotation, action),
            changed == (*final(self) != *old(self)),
    {
        match action {
            ButtonAction::Increment => {
                if self.orbit_rotation + ORBIT_ROTATION_STEP <= ORBIT_ROTATION_MAX {
                    self.orbit_rotation = self.orbit_rotation + ORBIT_ROTATION_STEP;
                    true
                } else {
                    false
                }
            }
            ButtonAction::Decrement => {
                if self.orbit_rotation - ORBIT_ROTATION_STEP >= ORBIT_ROTATION_MIN {
                    self.orbit_rotation = self.orbit_rotation - ORBIT_ROTATION_STEP;
                    true
                } else {
                    false
                }
            }
        }
    }

    /// Toggle one category flag. Always a change.
    pub fn toggle(&mut self, kind: CheckboxKind)
        ensures
            *final(self) == spec_toggle(*old(self), kind),
            old(self).wf() ==> final(self).wf(),
            *final(self) != *old(self),
    {
        match kind {
            CheckboxKind::Dust => {
                self.dust = !self.dust;
            }
            CheckboxKind::HII => {
                self.h2 = !self.h2;
            }
            CheckboxKind::Filament => {
                self.filament = !self.filament;
            }
        }
    }
}

impl Default for Configuration {
    /// The documented startup defaults.
    fn default() -> (r: Self)
        ensures
            r == default_configuration(),
            r.wf(),
    {
        Configuration {
            dust: true,
            h2: true,
            filament: true,
            star_count: 10_000,
            velocity: 1_000_000,
            semi_axis: SemiAxis { major: 500_000, minor: 300_000 },
            stars_per_orbit: 100,
            dimming_speed: 150_000_000,
            orbit_density: 2_000_000,
            orbit_rotation: 200_000,
            star_size: 20_000,
        }
    }
}

/// One tweak operation keeps a well-formed configuration well-formed:
/// no field leaves its clamp interval.
pub proof fn lemma_update_wf(c: Configuration, kind: ButtonKind, action: ButtonAction)
    requires
        c.wf(),
    ensures
        spec_update(c, kind, action).wf(),
{
    match kind {
        ButtonKind::SemiAxis => {
            lemma_step_semi_axis_wf(c.semi_axis, action);
        }
        _ => {}
    }
}

/// The clamped shape step keeps the major radius inside its interval
/// and the minor radius within `[0, major]`.
proof fn lemma_step_semi_axis_wf(a: SemiAxis, action: ButtonAction)
    requires
        SEMI_AXIS_MIN <= a.major <= SEMI_AXIS_MAX,
        0 <= a.minor <= a.major,
    ensures
        SEMI_AXIS_MIN <= spec_step_semi_axis(a, action).major <= SEMI_AXIS_MAX,
        0 <= spec_step_semi_axis(a, action).minor <= spec_step_semi_axis(a, action).major,
{
    let r = spec_step_semi_axis(a, action);
    let m = a.minor as int;
    let sm = a.major as int;
    match action {
        ButtonAction::Increment => {
            if a.major + SEMI_AXIS_STEP <= SEMI_AXIS_MAX {
                let b = sm + SEMI_AXIS_STEP;
                assert(0 <= m * b <= sm * b) by (nonlinear_arith)
                    requires 0 <= m <= sm, 0 < b;
                vstd::arithmetic::div_mod::lemma_div_pos_is_pos(m * b, sm);
                vstd::arithmetic::div_mod::lemma_div_is_ordered(m * b, sm * b, sm);
                vstd::arithmetic::div_mod::lemma_div_multiples_vanish(b, sm);
                assert((sm * b) / sm == b);
                assert(r.minor == (m * b) / sm);
            }
        }
        ButtonAction::Decrement => {
            if a.major - SEMI_AXIS_STEP >= SEMI_AXIS_MIN {
                let b = sm - SEMI_AXIS_STEP;
                assert(0 <= m * b <= sm * b) by (nonlinear_arith)
                    requires 0 <= m <= sm, 0 < b;
                vstd::arithmetic::div_mod::lemma_div_pos_is_pos(m * b, sm);
                vstd::arithmetic::div_mod::lemma_div_is_ordered(m * b, sm * b, sm);
                vstd::arithmetic::div_mod::lemma_div_multiples_vanish(b, sm);
                assert((sm * b) / sm == b);
                assert(r.minor == (m * b) / sm);
            }
        }
    }
}

/// The configuration after a whole run of tweak operations, applied in
/// order.
pub open spec fn spec_apply_updates(c: Configuration, ops: Seq<(ButtonKind, ButtonAction)>) -> Configuration
    decreases ops.len(),
{
    if ops.len() == 0 {
        c
    } else {
        spec_apply_updates(spec_update(c, ops[0].0, ops[0].1), ops.subrange(1, ops.len() as int))
    }
}

/// Law: however many step operations are applied — in particular any
/// run of increments past a field's upper bound, or of decrements past
/// its lower bound — every bounded field stays inside its closed clamp
/// interval.
pub proof fn lemma_updates_stay_in_bounds(c: Configuration, ops: Seq<(ButtonKind, ButtonAction)>)
    requires
        c.wf(),
    ensures
        spec_apply_updates(c, ops).wf(),
    decreases ops.len(),
{
    if ops.len() > 0 {
        lemma_update_wf(c, ops[0].0, ops[0].1);
        lemma_updates_stay_in_bounds(
            spec_update(c, ops[0].0, ops[0].1),
            ops.subrange(1, ops.len() as int),
        );
    }
}

} // verus!
