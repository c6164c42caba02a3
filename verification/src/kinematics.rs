//! The per-frame integrator: advances each body's orbital phase and
//! computes its spatial position on the ellipse.
//!
//! Trigonometric values enter as fixed-point arguments (`UNIT` stands
//! for 1.0), so the position algebra here is exact integer arithmetic;
//! evaluating cosine and sine is the rendering boundary's concern.

use vstd::prelude::*;

use crate::body::OrbitingBody;
use crate::UNIT;

verus! {

/// A generous cap on radii and positions, so that products with
/// fixed-point trigonometric values stay inside `i64`.
pub const RADIUS_CAP: i64 = 1_000_000_000_000;

/// Division of a micro-scaled product by the unit, truncating toward
/// zero as the executable operator does.
pub open spec fn spec_div_unit(v: int) -> int {
    if v >= 0 {
        v / (UNIT as int)
    } else {
        -((-v) / (UNIT as int))
    }
}

/// The body after one frame of `dt` micro-seconds: the phase advanced
/// by `orbit_speed * dt`, everything else kept.
pub open spec fn spec_advanced(b: OrbitingBody, dt: int) -> OrbitingBody {
    OrbitingBody { angle: (b.angle + (b.orbit_speed * dt) / (UNIT as int)) as i64, ..b }
}

/// The phase advance of one frame stays inside the machine bounds.
pub open spec fn can_advance(b: OrbitingBody, dt: int) -> bool {
    &&& 0 <= b.orbit_speed
    &&& b.orbit_speed * dt <= i64::MAX
    &&& b.angle + (b.orbit_speed * dt) / (UNIT as int) <= i64::MAX
}

/// The body's position in orbit-local coordinates: on the ellipse in
/// the horizontal plane, given the fixed-point cosine and sine of its
/// phase.
pub open spec fn spec_local_position(b: OrbitingBody, cos_a: int, sin_a: int) -> (int, int, int) {
    (spec_div_unit(b.semi_axis.major * cos_a), 0, spec_div_unit(b.semi_axis.minor * sin_a))
}

/// A point of the horizontal plane turned about the vertical axis,
/// given the fixed-point cosine and sine of the rotation angle.
pub open spec fn spec_rotated_y(x: int, z: int, cos_r: int, sin_r: int) -> (int, int) {
    (spec_div_unit(x * cos_r + z * sin_r), spec_div_unit(z * cos_r - x * sin_r))
}

/// The body's world position: the local ellipse point turned by the
/// body's fixed rotation about the vertical axis.
pub open spec fn spec_world_position(
    b: OrbitingBody,
    cos_a: int,
    sin_a: int,
    cos_r: int,
    sin_r: int,
) -> (int, int, int) {
    let local = spec_local_position(b, cos_a, sin_a);
    let turned = spec_rotated_y(local.0, local.2, cos_r, sin_r);
    (turned.0, 0, turned.1)
}

/// Advance one body's orbital phase by `dt` micro-seconds.
pub fn advance(b: &mut OrbitingBody, dt: i64)
    requires
        0 <= dt,
        can_advance(*old(b), dt as int),
    ensures
        *final(b) == spec_advanced(*old(b), dt as int),
{
    proof {
        let speed = old(b).orbit_speed as int;
        assert(0 <= speed * dt) by (nonlinear_arith)
            requires 0 <= speed, 0 <= dt;
        vstd::arithmetic::div_mod::lemma_div_pos_is_pos(speed * dt, UNIT as int);
        vstd::arithmetic::div_mod::lemma_div_nonincreasing(speed * dt, UNIT as int);
    }
    let amount: i64 = b.orbit_speed * dt / UNIT;
    b.angle = b.angle + amount;
}

/// Advance every body of the population by the same frame time. Bodies
/// are independent: each is advanced exactly once, in place.
pub fn advance_all(bodies: &mut Vec<OrbitingBody>, dt: i64)
    requires
        0 <= dt,
        forall|k: int|
            0 <= k < old(bodies)@.len() ==> can_advance(#[trigger] old(bodies)@[k], dt as int),
    ensures
        final(bodies)@.len() == old(bodies)@.len(),
        forall|k: int|
            0 <= k < old(bodies)@.len() ==> final(bodies)@[k] == spec_advanced(
                #[trigger] old(bodies)@[k],
                dt as int,
            ),
{
    let n = bodies.len();
    let mut i: usize = 0;
    while i < n
        invariant
            0 <= dt,
            i <= n,
            n == bodies@.len(),
            n == old(bodies)@.len(),
            forall|k: int|
                0 <= k < n ==> can_advance(#[trigger] old(bodies)@[k], dt as int),
            forall|k: int| i <= k < n ==> bodies@[k] == old(bodies)@[k],
            forall|k: int|
                0 <= k < i ==> bodies@[k] == spec_advanced(#[trigger] old(bodies)@[k], dt as int),
        decreases n - i,
    {
        let mut b = bodies[i];
        advance(&mut b, dt);
        bodies[i] = b;
        i = i + 1;
    }
}

/// Division by the unit with the truncating convention of
/// [`spec_div_unit`].
pub fn div_unit(v: i64) -> (r: i64)
    requires
        i64::MIN < v,
    ensures
        r == spec_div_unit(v as int),
{
    if v >= 0 {
        v / UNIT
    } else {
        proof {
            vstd::arithmetic::div_mod::lemma_div_pos_is_pos(-(v as int), UNIT as int);
            vstd::arithmetic::div_mod::lemma_div_nonincreasing(-(v as int), UNIT as int);
        }
        -((-v) / UNIT)
    }
}

/// Magnitude of a unit-division never exceeds the scaled-down bound of
/// its argument.
proof fn lemma_div_unit_bound(v: int, m: int)
    requires
        0 <= m,
        -(m * (UNIT as int)) <= v <= m * (UNIT as int),
    ensures
        -m <= spec_div_unit(v) <= m,
{
    if v >= 0 {
        vstd::arithmetic::div_mod::lemma_div_pos_is_pos(v, UNIT as int);
        vstd::arithmetic::div_mod::lemma_div_is_ordered(v, m * (UNIT as int), UNIT as int);
        vstd::arithmetic::div_mod::lemma_div_multiples_vanish(m, UNIT as int);
        assert(((UNIT as int) * m) / (UNIT as int) == m);
        assert(m * (UNIT as int) == (UNIT as int) * m) by (nonlinear_arith);
    } else {
        vstd::arithmetic::div_mod::lemma_div_pos_is_pos(-v, UNIT as int);
        vstd::arithmetic::div_mod::lemma_div_is_ordered(-v, m * (UNIT as int), UNIT as int);
        vstd::arithmetic::div_mod::lemma_div_multiples_vanish(m, UNIT as int);
        assert(((UNIT as int) * m) / (UNIT as int) == m);
        assert(m * (UNIT as int) == (UNIT as int) * m) by (nonlinear_arith);
    }
}

/// The body's position in orbit-local coordinates, on the ellipse in
/// the horizontal plane.
pub fn local_position(b: &OrbitingBody, cos_a: i64, sin_a: i64) -> (p: (i64, i64, i64))
    requires
        -UNIT <= cos_a <= UNIT,
        -UNIT <= sin_a <= UNIT,
        0 <= b.semi_axis.major <= RADIUS_CAP,
        0 <= b.semi_axis.minor <= RADIUS_CAP,
    ensures
        (p.0 as int, p.1 as int, p.2 as int) == spec_local_position(*b, cos_a as int, sin_a as int),
        -RADIUS_CAP <= p.0 <= RADIUS_CAP,
        -RADIUS_CAP <= p.2 <= RADIUS_CAP,
{
    proof {
        assert(-(RADIUS_CAP as int * UNIT as int) <= b.semi_axis.major * cos_a
            <= RADIUS_CAP as int * UNIT as int) by (nonlinear_arith)
            requires
                0 <= b.semi_axis.major <= RADIUS_CAP,
                -UNIT <= cos_a <= UNIT,
        ;
        assert(-(RADIUS_CAP as int * UNIT as int) <= b.semi_axis.minor * sin_a
            <= RADIUS_CAP as int * UNIT as int) by (nonlinear_arith)
            requires
                0 <= b.semi_axis.minor <= RADIUS_CAP,
                -UNIT <= sin_a <= UNIT,
        ;
        lemma_div_unit_bound(b.semi_axis.major * cos_a, RADIUS_CAP as int);
        lemma_div_unit_bound(b.semi_axis.minor * sin_a, RADIUS_CAP as int);
    }
    let x = div_unit(b.semi_axis.major * cos_a);
    let z = div_unit(b.semi_axis.minor * sin_a);
    (x, 0, z)
}

/// Turn a point of the horizontal plane about the vertical axis.
pub fn rotate_y(x: i64, z: i64, cos_r: i64, sin_r: i64) -> (p: (i64, i64))
    requires
        -RADIUS_CAP <= x <= RADIUS_CAP,
        -RADIUS_CAP <= z <= RADIUS_CAP,
        -UNIT <= cos_r <= UNIT,
        -UNIT <= sin_r <= UNIT,
    ensures
        (p.0 as int, p.1 as int) == spec_rotated_y(x as int, z as int, cos_r as int, sin_r as int),
        -(2 * RADIUS_CAP) <= p.0 <= 2 * RADIUS_CAP,
        -(2 * RADIUS_CAP) <= p.1 <= 2 * RADIUS_CAP,
{
    proof {
        assert(-(RADIUS_CAP as int * UNIT as int) <= x * cos_r <= RADIUS_CAP as int * UNIT as int)
            by (nonlinear_arith)
            requires -RADIUS_CAP <= x <= RADIUS_CAP, -UNIT <= cos_r <= UNIT;
        assert(-(RADIUS_CAP as int * UNIT as int) <= z * sin_r <= RADIUS_CAP as int * UNIT as int)
            by (nonlinear_arith)
            requires -RADIUS_CAP <= z <= RADIUS_CAP, -UNIT <= sin_r <= UNIT;
        assert(-(RADIUS_CAP as int * UNIT as int) <= z * cos_r <= RADIUS_CAP as int * UNIT as int)
            by (nonlinear_arith)
            requires -RADIUS_CAP <= z <= RADIUS_CAP, -UNIT <= cos_r <= UNIT;
        assert(-(RADIUS_CAP as int * UNIT as int) <= x * sin_r <= RADIUS_CAP as int * UNIT as int)
            by (nonlinear_arith)
            requires -RADIUS_CAP <= x <= RADIUS_CAP, -UNIT <= sin_r <= UNIT;
        lemma_div_unit_bound(x * cos_r + z * sin_r, 2 * RADIUS_CAP as int);
        lemma_div_unit_bound(z * cos_r - x * sin_r, 2 * RADIUS_CAP as int);
    }
    let u = div_unit(x * cos_r + z * sin_r);
    let w = div_unit(z * cos_r - x * sin_r);
    (u, w)
}

/// The body's world position for a frame: its local ellipse point,
/// turned by the body's fixed rotation about the vertical axis. The
/// four trigonometric arguments are the fixed-point cosine and sine of
/// the body's phase and of its rotation angle.
pub fn world_position(b: &OrbitingBody, cos_a: i64, sin_a: i64, cos_r: i64, sin_r: i64) -> (p: (
    i64,
    i64,
    i64,
))
    requires
        -UNIT <= cos_a <= UNIT,
        -UNIT <= sin_a <= UNIT,
        -UNIT <= cos_r <= UNIT,
        -UNIT <= sin_r <= UNIT,
        0 <= b.semi_axis.major <= RADIUS_CAP,
        0 <= b.semi_axis.minor <= RADIUS_CAP,
    ensures
        (p.0 as int, p.1 as int, p.2 as int) == spec_world_position(
            *b,
            cos_a as int,
            sin_a as int,
            cos_r as int,
            sin_r as int,
        ),
{
    let local = local_position(b, cos_a, sin_a);
    let turned = rotate_y(local.0, local.2, cos_r, sin_r);
    (turned.0, 0, turned.1)
}

} // verus!
