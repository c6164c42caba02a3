//! A procedurally generated star field arranged on concentric elliptical
//! orbits around a central body.
//!
//! The library holds the field's logic: the ellipse-shape algebra, the
//! bounded parameter set, the deterministic-up-to-jitter generator, the
//! per-frame kinematics, and the coordinator that atomically replaces the
//! population whenever a parameter changes.
//!
//! All scalar quantities are fixed-point values: an `i64` counts
//! micro-units, so `UNIT` stands for 1.0. Rendering code converts to
//! floating point at the boundary.

use vstd::prelude::*;

pub mod axis;
pub mod body;
pub mod coordinator;
pub mod configuration;
pub mod generator;
pub mod kinematics;
pub mod readout;

verus! {

/// The fixed-point scale: one whole unit in micro-units.
pub const UNIT: i64 = 1_000_000;

} // verus!
