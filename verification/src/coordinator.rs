//! The regeneration coordinator: owns the live configuration and the
//! body population, and drives one tick of the frame loop — apply
//! control-panel events, regenerate the population atomically when the
//! configuration changed, then advance the kinematics, so a tick always
//! integrates the post-regeneration population.

use vstd::prelude::*;

use crate::body::OrbitingBody;
use crate::configuration::{
    default_configuration, spec_toggle, spec_update, ButtonAction, ButtonKind, CheckboxKind,
    Configuration,
};
use crate::generator::{
    generate, lemma_generated_body_bounds, spec_body_matches, spec_num_orbits, GenError,
};
use crate::kinematics::{advance_all, can_advance, spec_advanced};
use crate::UNIT;

verus! {

/// An upper cap on one frame's duration: one hour, in micro-seconds.
pub const MAX_FRAME_TIME: i64 = 3_600_000_000;

/// Phases may grow without bound over the field's lifetime; a tick asks
/// for this much headroom below the machine limit, which one frame's
/// advance can never cross.
pub const ANGLE_LIMIT: i64 = 9_000_000_000_000_000_000;

/// A cap every live body's speed respects; fresh populations stay well
/// under it.
pub const SPEED_CAP: i64 = 15_100_000;

/// A discrete event from the control panel.
#[derive(Clone, Copy, Debug, PartialEq, Eq, Structural)]
pub enum FieldEvent {
    /// Flip one category flag.
    ToggleCategory(CheckboxKind),
    /// Step one bounded parameter.
    AdjustParameter(ButtonKind, ButtonAction),
}

/// A body the coordinator is willing to keep live.
pub open spec fn body_bounded(b: OrbitingBody) -> bool {
    &&& 0 <= b.orbit_speed <= SPEED_CAP
    &&& 0 <= b.angle
}

/// A freshly regenerated body after one frame of `dt`: some body the
/// generator may emit for slot `k`, advanced by `dt`.
pub open spec fn spec_regenerated_body(c: Configuration, dt: int, k: int, b: OrbitingBody) -> bool {
    exists|g: OrbitingBody|
        #![trigger spec_advanced(g, dt)]
        spec_body_matches(c, k / (c.stars_per_orbit as int), k % (c.stars_per_orbit as int), g)
            && b == spec_advanced(g, dt)
}

/// The live field: the configuration, the population derived from it,
/// and the pending-change flag. Between ticks the state is Stable; a
/// tick that finds `changed` set passes through Rebuilding — tear down
/// everything, generate afresh — and returns to Stable before it ends.
pub struct FieldState {
    pub config: Configuration,
    pub bodies: Vec<OrbitingBody>,
    pub changed: bool,
}

impl FieldState {
    /// A well-formed field: a well-formed configuration and every live
    /// body inside the machine bounds.
    pub open spec fn wf(self) -> bool {
        &&& self.config.wf()
        &&& forall|k: int| 0 <= k < self.bodies@.len() ==> body_bounded(#[trigger] self.bodies@[k])
    }

    /// A fresh field: default configuration, no bodies yet, and a
    /// pending change so the first tick populates it.
    pub fn new() -> (s: Self)
        ensures
            s.config == default_configuration(),
            s.bodies@.len() == 0,
            s.changed,
            s.wf(),
    {
        FieldState { config: Configuration::default(), bodies: Vec::new(), changed: true }
    }

    /// Apply one control-panel event to the configuration. A toggle
    /// always marks the field changed; a parameter step marks it only
    /// when the step applied, and the flag is idempotent within a tick:
    /// however many events arrive, the next tick regenerates once.
    pub fn apply_event(&mut self, event: FieldEvent)
        requires
            old(self).wf(),
        ensures
            final(self).wf(),
            final(self).bodies == old(self).bodies,
            match event {
                FieldEvent::ToggleCategory(kind) => final(self).config == spec_toggle(
                    old(self).config,
                    kind,
                ) && final(self).changed,
                FieldEvent::AdjustParameter(kind, action) => final(self).config == spec_update(
                    old(self).config,
                    kind,
                    action,
                ) && final(self).changed == (old(self).changed || final(self).config
                    != old(self).config),
            },
    {
        match event {
            FieldEvent::ToggleCategory(kind) => {
                self.config.toggle(kind);
                self.changed = true;
            }
            FieldEvent::AdjustParameter(kind, action) => {
                let stepped = self.config.update(kind, action);
                self.changed = self.changed || stepped;
            }
        }
    }

    /// One tick of the frame loop, after events were applied: if the
    /// configuration changed, atomically replace the whole population
    /// with a fresh generation from the current snapshot; then advance
    /// every live body by the frame time `dt`. Returns whether this
    /// tick regenerated.
    ///
    /// A pending change with `stars_per_orbit == 0` aborts the
    /// regeneration: the population is left empty and the error is
    /// surfaced instead of a panic. Either way the pending flag is
    /// consumed: one configuration change triggers exactly one
    /// regeneration attempt.
    pub fn tick(&mut self, dt: i64) -> (r: Result<bool, GenError>)
        requires
            old(self).wf(),
            0 <= dt <= MAX_FRAME_TIME,
            forall|k: int|
                0 <= k < old(self).bodies@.len() ==> #[trigger] old(self).bodies@[k].angle
                    <= ANGLE_LIMIT,
        ensures
            final(self).wf(),
            final(self).config == old(self).config,
            !final(self).changed,
            (r is Err) <==> (old(self).changed && old(self).config.stars_per_orbit == 0),
            r is Err ==> r->Err_0 == GenError::InvalidDivisor && final(self).bodies@.len() == 0,
            old(self).changed && old(self).config.stars_per_orbit != 0 ==> r == Result::<
                bool,
                GenError,
            >::Ok(true) && final(self).bodies@.len() == spec_num_orbits(old(self).config) * (
            old(self).config.stars_per_orbit as int) && forall|k: int|
                0 <= k < final(self).bodies@.len() ==> spec_regenerated_body(
                    old(self).config,
                    dt as int,
                    k,
                    #[trigger] final(self).bodies@[k],
                ),
            !old(self).changed ==> r == Result::<bool, GenError>::Ok(false)
                && final(self).bodies@.len() == old(self).bodies@.len() && forall|k: int|
                0 <= k < old(self).bodies@.len() ==> final(self).bodies@[k] == spec_advanced(
                    #[trigger] old(self).bodies@[k],
                    dt as int,
                ),
    {
        let regenerated: bool;
        if self.changed {
            self.bodies.clear();
            self.changed = false;
            match generate(&self.config) {
                Ok(fresh) => {
                    self.bodies = fresh;
                    regenerated = true;
                }
                Err(e) => {
                    return Err(e);
                }
            }
            proof {
                let c = self.config;
                let spo = c.stars_per_orbit as int;
                assert forall|k: int| 0 <= k < self.bodies@.len() implies can_advance(
                    #[trigger] self.bodies@[k],
                    dt as int,
                ) && body_bounded(self.bodies@[k]) by {
                    vstd::arithmetic::div_mod::lemma_fundamental_div_mod(k, spo);
                    vstd::arithmetic::div_mod::lemma_mod_division_less_than_divisor(k, spo);
                    vstd::arithmetic::div_mod::lemma_div_pos_is_pos(k, spo);
                    assert(k / spo < spec_num_orbits(c)) by (nonlinear_arith)
                        requires
                            spo * (k / spo) + k % spo == k,
                            0 <= k % spo,
                            0 < spo,
                            0 <= k / spo,
                            k < spec_num_orbits(c) * spo,
                    ;
                    lemma_generated_body_bounds(c, k / spo, k % spo, self.bodies@[k]);
                    let b = self.bodies@[k];
                    assert(b.orbit_speed * dt <= SPEED_CAP as int * MAX_FRAME_TIME as int)
                        by (nonlinear_arith)
                        requires
                            0 <= b.orbit_speed <= SPEED_CAP,
                            0 <= dt <= MAX_FRAME_TIME,
                    ;
                    assert(0 <= b.orbit_speed * dt) by (nonlinear_arith)
                        requires 0 <= b.orbit_speed, 0 <= dt;
                    vstd::arithmetic::div_mod::lemma_div_pos_is_pos(
                        b.orbit_speed * dt,
                        UNIT as int,
                    );
                    vstd::arithmetic::div_mod::lemma_div_is_ordered(
                        b.orbit_speed * dt,
                        SPEED_CAP as int * MAX_FRAME_TIME as int,
                        UNIT as int,
                    );
                }
            }
        } else {
            regenerated = false;
            proof {
                assert forall|k: int| 0 <= k < self.bodies@.len() implies can_advance(
                    #[trigger] self.bodies@[k],
                    dt as int,
                ) by {
                    let b = self.bodies@[k];
                    assert(b.orbit_speed * dt <= SPEED_CAP as int * MAX_FRAME_TIME as int)
                        by (nonlinear_arith)
                        requires
                            0 <= b.orbit_speed <= SPEED_CAP,
                            0 <= dt <= MAX_FRAME_TIME,
                    ;
                    assert(0 <= b.orbit_speed * dt) by (nonlinear_arith)
                        requires 0 <= b.orbit_speed, 0 <= dt;
                    vstd::arithmetic::div_mod::lemma_div_pos_is_pos(
                        b.orbit_speed * dt,
                        UNIT as int,
                    );
                    vstd::arithmetic::div_mod::lemma_div_is_ordered(
                        b.orbit_speed * dt,
                        SPEED_CAP as int * MAX_FRAME_TIME as int,
                        UNIT as int,
                    );
                }
            }
        }
        let ghost pre_advance = self.bodies@;
        advance_all(&mut self.bodies, dt);
        proof {
            assert forall|k: int| 0 <= k < self.bodies@.len() implies body_bounded(
                #[trigger] self.bodies@[k],
            ) by {
                let g = pre_advance[k];
                assert(self.bodies@[k] == spec_advanced(g, dt as int));
                assert(0 <= g.orbit_speed * dt) by (nonlinear_arith)
                    requires 0 <= g.orbit_speed, 0 <= dt;
                vstd::arithmetic::div_mod::lemma_div_pos_is_pos(g.orbit_speed * dt, UNIT as int);
            }
            if old(self).changed && old(self).config.stars_per_orbit != 0 {
                let c = old(self).config;
                let spo = c.stars_per_orbit as int;
                assert forall|k: int| 0 <= k < self.bodies@.len() implies spec_regenerated_body(
                    c,
                    dt as int,
                    k,
                    #[trigger] self.bodies@[k],
                ) by {
                    let g = pre_advance[k];
                    assert(spec_body_matches(c, k / spo, k % spo, g));
                    assert(self.bodies@[k] == spec_advanced(g, dt as int));
                }
            }
        }
        Ok(regenerated)
    }
}

} // verus!
