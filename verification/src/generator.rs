//! The field generator: a pure function from a configuration snapshot
//! to an ordered population of orbiting bodies, deterministic except
//! for the explicitly randomized per-body jitter.

use vstd::prelude::*;

use rand::Rng;

use crate::axis::{axis_combined, axis_scaled, SemiAxis};
use crate::body::{BodyCategory, OrbitingBody};
use crate::configuration::Configuration;
use crate::UNIT;

verus! {

/// The fixed-point phase step between neighbouring slots of one orbit:
/// one sixteenth of pi, in micro-radians.
pub const ANGLE_STEP: i64 = 196_350;

/// Generation failure: the only failing input.
#[derive(Clone, Copy, Debug, PartialEq, Eq, Structural)]
pub enum GenError {
    /// `stars_per_orbit` was zero, so the orbit count is undefined.
    InvalidDivisor,
}

/// How many concentric orbits the configuration asks for.
pub open spec fn spec_num_orbits(c: Configuration) -> int {
    c.star_count as int / c.stars_per_orbit as int
}

/// The density offset of orbit `i`: the orbit index divided by the
/// orbit density, as a fixed-point scale factor.
pub open spec fn spec_density_offset(c: Configuration, i: int) -> int {
    (i * (UNIT as int) * (UNIT as int)) / (c.orbit_density as int)
}

/// The shape of orbit `i`: the base shape offset by itself scaled with
/// the density offset, so orbits grow super-linearly outward.
pub open spec fn spec_orbit_axis(c: Configuration, i: int) -> SemiAxis {
    axis_combined(c.semi_axis, axis_scaled(c.semi_axis, spec_density_offset(c, i)))
}

/// The fixed rotation of orbit `i` about the vertical axis, in
/// micro-radians.
pub open spec fn spec_angle_offset(c: Configuration, i: int) -> int {
    i * (c.orbit_rotation as int)
}

/// The base orbital speed of orbit `i`: inner orbits are faster.
pub open spec fn spec_orbit_speed(c: Configuration, i: int) -> int {
    ((c.velocity as int) / (i + 1)) * 3
}

/// The brightness factor of orbit `i`, decreasing with the index; it
/// may go negative for far orbits, which the rendering side clamps.
pub open spec fn spec_dimming_channel(c: Configuration, i: int) -> int {
    (UNIT as int) - i * ((c.dimming_speed as int / spec_num_orbits(c)) / spec_num_orbits(c))
}

/// The initial orbital phase of slot `j` on orbit `i`.
pub open spec fn spec_phase(c: Configuration, i: int, j: int) -> int {
    j * (ANGLE_STEP as int) + spec_angle_offset(c, i)
}

/// The category of slot `j`: a strict priority chain, each category
/// emitted only while its flag is on, and a star wherever nothing
/// higher claims the slot.
pub open spec fn spec_category(c: Configuration, j: int) -> BodyCategory {
    if c.filament && j % 4 == 0 {
        BodyCategory::Filament
    } else if c.h2 && j % 30 == 0 {
        BodyCategory::H2
    } else if c.dust && j % 5 == 0 {
        BodyCategory::Dust
    } else {
        BodyCategory::Star
    }
}

/// What generation promises of the body in slot `j` of orbit `i`: the
/// exact phase, rotation and category, and the jittered shape and speed
/// within their stated bands.
pub open spec fn spec_body_matches(c: Configuration, i: int, j: int, b: OrbitingBody) -> bool {
    &&& b.angle == spec_phase(c, i, j)
    &&& b.y_rotation == spec_angle_offset(c, i)
    &&& b.category == spec_category(c, j)
    &&& exists|k: int|
        900_000 <= k < 1_100_000 && b.semi_axis == axis_scaled(spec_orbit_axis(c, i), k)
    &&& spec_orbit_speed(c, i) + 10_000 <= b.orbit_speed < spec_orbit_speed(c, i) + 100_000
}

/// Relies on rand's `Rng::gen_range` on `i64`: a sample of the
/// half-open range `lo..hi`, which panics when the range is empty.
#[verifier::external_body]
fn sample_in(lo: i64, hi: i64) -> (r: i64)
    requires
        lo < hi,
    ensures
        lo <= r < hi,
{
    rand::thread_rng().gen_range(lo..hi)
}

/// Machine bounds of every per-orbit quantity, for a well-formed
/// configuration and an orbit index inside the field.
proof fn lemma_orbit_values_bounds(c: Configuration, i: int)
    requires
        c.wf(),
        0 < c.stars_per_orbit,
        0 <= i < spec_num_orbits(c),
    ensures
        0 <= spec_density_offset(c, i) <= 30_000_000_000,
        0 <= spec_orbit_axis(c, i).major <= 33_100_000_000,
        0 <= spec_orbit_axis(c, i).minor <= 33_100_000_000,
        0 <= spec_angle_offset(c, i) <= 15_000_000_000,
        0 <= spec_orbit_speed(c, i) <= 15_000_000,
        spec_num_orbits(c) <= 15_000,
        c.semi_axis.major * spec_density_offset(c, i) <= i64::MAX,
        c.semi_axis.minor * spec_density_offset(c, i) <= i64::MAX,
{
    let u = UNIT as int;
    vstd::arithmetic::div_mod::lemma_div_nonincreasing(c.star_count as int, c.stars_per_orbit as int);
    vstd::arithmetic::div_mod::lemma_div_pos_is_pos(c.star_count as int, c.stars_per_orbit as int);
    assert(i <= 14_999);
    // Density offset.
    let num = i * u * u;
    assert(0 <= num <= 14_999 * u * u) by (nonlinear_arith)
        requires num == i * u * u, 0 <= i <= 14_999, u == UNIT as int;
    vstd::arithmetic::div_mod::lemma_div_pos_is_pos(num, c.orbit_density as int);
    vstd::arithmetic::div_mod::lemma_div_is_ordered_by_denominator(num, 500_000, c.orbit_density as int);
    vstd::arithmetic::div_mod::lemma_div_is_ordered(num, 14_999 * u * u, 500_000);
    let off = spec_density_offset(c, i);
    assert(0 <= off <= 30_000_000_000);
    // Orbit shape.
    assert(0 <= c.semi_axis.major * off <= 1_100_000 * 30_000_000_000) by (nonlinear_arith)
        requires 0 < c.semi_axis.major <= 1_100_000, 0 <= off <= 30_000_000_000;
    assert(0 <= c.semi_axis.minor * off <= 1_100_000 * 30_000_000_000) by (nonlinear_arith)
        requires 0 <= c.semi_axis.minor <= 1_100_000, 0 <= off <= 30_000_000_000;
    vstd::arithmetic::div_mod::lemma_div_pos_is_pos(c.semi_axis.major * off, u);
    vstd::arithmetic::div_mod::lemma_div_pos_is_pos(c.semi_axis.minor * off, u);
    vstd::arithmetic::div_mod::lemma_div_is_ordered(c.semi_axis.major * off, 1_100_000int * 30_000_000_000, u);
    vstd::arithmetic::div_mod::lemma_div_is_ordered(c.semi_axis.minor * off, 1_100_000int * 30_000_000_000, u);
    // Angle offset.
    assert(0 <= i * (c.orbit_rotation as int) <= 15_000_000_000) by (nonlinear_arith)
        requires 0 <= i <= 14_999, 0 <= c.orbit_rotation <= 1_000_000;
    // Orbit speed.
    vstd::arithmetic::div_mod::lemma_div_pos_is_pos(c.velocity as int, i + 1);
    vstd::arithmetic::div_mod::lemma_div_nonincreasing(c.velocity as int, i + 1);
}

/// Machine bounds of every generated body, for a well-formed
/// configuration: what the kinematics and rendering sides rely on.
pub proof fn lemma_generated_body_bounds(c: Configuration, i: int, j: int, b: OrbitingBody)
    requires
        c.wf(),
        0 < c.stars_per_orbit,
        0 <= i < spec_num_orbits(c),
        0 <= j < c.stars_per_orbit as int,
        spec_body_matches(c, i, j, b),
    ensures
        10_000 <= b.orbit_speed <= 15_100_000,
        0 <= b.angle <= 16_000_000_000,
        0 <= b.y_rotation <= 15_000_000_000,
        0 <= b.semi_axis.major <= 40_000_000_000,
        0 <= b.semi_axis.minor <= 40_000_000_000,
{
    let u = UNIT as int;
    lemma_orbit_values_bounds(c, i);
    assert(0 <= j * (ANGLE_STEP as int) <= 254 * (ANGLE_STEP as int)) by (nonlinear_arith)
        requires 0 <= j <= 254;
    let a = spec_orbit_axis(c, i);
    let k = choose|k: int|
        900_000 <= k < 1_100_000 && b.semi_axis == axis_scaled(spec_orbit_axis(c, i), k);
    assert(0 <= a.major * k <= 33_100_000_000 * 1_100_000) by (nonlinear_arith)
        requires 0 <= a.major <= 33_100_000_000, 900_000 <= k < 1_100_000;
    assert(0 <= a.minor * k <= 33_100_000_000 * 1_100_000) by (nonlinear_arith)
        requires 0 <= a.minor <= 33_100_000_000, 900_000 <= k < 1_100_000;
    vstd::arithmetic::div_mod::lemma_div_pos_is_pos(a.major * k, u);
    vstd::arithmetic::div_mod::lemma_div_pos_is_pos(a.minor * k, u);
    vstd::arithmetic::div_mod::lemma_div_is_ordered(a.major * k, 33_100_000_000int * 1_100_000, u);
    vstd::arithmetic::div_mod::lemma_div_is_ordered(a.minor * k, 33_100_000_000int * 1_100_000, u);
}

/// Build the whole population the configuration asks for: for every
/// orbit index `i` below `star_count / stars_per_orbit` and every slot
/// index `j` below `stars_per_orbit`, one body in order, at position
/// `i * stars_per_orbit + j` of the result.
///
/// Fails exactly when `stars_per_orbit` is zero, with nothing built.
pub fn generate(c: &Configuration) -> (r: Result<Vec<OrbitingBody>, GenError>)
    requires
        c.wf(),
    ensures
        (c.stars_per_orbit == 0) <==> (r is Err),
        r is Err ==> r->Err_0 == GenError::InvalidDivisor,
        r is Ok ==> r->Ok_0@.len() == spec_num_orbits(*c) * (c.stars_per_orbit as int),
        r is Ok ==> forall|k: int|
            0 <= k < r->Ok_0@.len() ==> spec_body_matches(
                *c,
                k / (c.stars_per_orbit as int),
                k % (c.stars_per_orbit as int),
                #[trigger] r->Ok_0@[k],
            ),
{
    if c.stars_per_orbit == 0 {
        return Err(GenError::InvalidDivisor);
    }
    let spo: u32 = c.stars_per_orbit as u32;
    let num_orbits: u32 = c.star_count / spo;
    proof {
        vstd::arithmetic::div_mod::lemma_div_nonincreasing(c.star_count as int, spo as int);
        vstd::arithmetic::div_mod::lemma_div_pos_is_pos(c.star_count as int, spo as int);
    }
    let mut bodies: Vec<OrbitingBody> = Vec::new();
    let mut i: u32 = 0;
    while i < num_orbits
        invariant
            c.wf(),
            0 < c.stars_per_orbit,
            spo == c.stars_per_orbit as u32,
            num_orbits == spec_num_orbits(*c),
            num_orbits <= 15_000,
            i <= num_orbits,
            bodies@.len() == i * (spo as int),
            forall|k: int|
                0 <= k < bodies@.len() ==> spec_body_matches(
                    *c,
                    k / (spo as int),
                    k % (spo as int),
                    #[trigger] bodies@[k],
                ),
        decreases num_orbits - i,
    {
        proof {
            lemma_orbit_values_bounds(*c, i as int);
        }
        let density_offset: i64 = (i as i64) * UNIT * UNIT / c.orbit_density;
        let scaled = c.semi_axis.scale(density_offset);
        proof {
            vstd::arithmetic::div_mod::lemma_div_nonincreasing(
                c.semi_axis.major as int * density_offset as int,
                UNIT as int,
            );
            vstd::arithmetic::div_mod::lemma_div_pos_is_pos(
                c.semi_axis.major as int * density_offset as int,
                UNIT as int,
            );
            vstd::arithmetic::div_mod::lemma_div_nonincreasing(
                c.semi_axis.minor as int * density_offset as int,
                UNIT as int,
            );
            vstd::arithmetic::div_mod::lemma_div_pos_is_pos(
                c.semi_axis.minor as int * density_offset as int,
                UNIT as int,
            );
        }
        let orbit_axis = c.semi_axis.combine(&scaled);
        proof {
            assert(orbit_axis == spec_orbit_axis(*c, i as int));
        }
        let angle_offset: i64 = (i as i64) * c.orbit_rotation;
        let orbit_speed: i64 = c.velocity / ((i as i64) + 1) * 3;
        let mut j: u32 = 0;
        while j < spo
            invariant
                c.wf(),
                0 < c.stars_per_orbit,
                spo == c.stars_per_orbit as u32,
                num_orbits == spec_num_orbits(*c),
                num_orbits <= 15_000,
                i < num_orbits,
                j <= spo,
                bodies@.len() == i * (spo as int) + j,
                orbit_axis == spec_orbit_axis(*c, i as int),
                0 <= orbit_axis.major <= 33_100_000_000,
                0 <= orbit_axis.minor <= 33_100_000_000,
                angle_offset == spec_angle_offset(*c, i as int),
                0 <= angle_offset <= 15_000_000_000,
                orbit_speed == spec_orbit_speed(*c, i as int),
                0 <= orbit_speed <= 15_000_000,
                forall|k: int|
                    0 <= k < bodies@.len() ==> spec_body_matches(
                        *c,
                        k / (spo as int),
                        k % (spo as int),
                        #[trigger] bodies@[k],
                    ),
            decreases spo - j,
        {
            let phase: i64 = (j as i64) * ANGLE_STEP + angle_offset;
            let jitter: i64 = sample_in(900_000, 1_100_000);
            proof {
                assert(orbit_axis.major * jitter <= i64::MAX) by (nonlinear_arith)
                    requires 0 <= orbit_axis.major <= 33_100_000_000, 0 <= jitter < 1_100_000;
                assert(orbit_axis.minor * jitter <= i64::MAX) by (nonlinear_arith)
                    requires 0 <= orbit_axis.minor <= 33_100_000_000, 0 <= jitter < 1_100_000;
            }
            let body_axis = orbit_axis.scale(jitter);
            let fluctuation: i64 = sample_in(10_000, 100_000);
            let speed: i64 = orbit_speed + fluctuation;
            let category: BodyCategory = if c.filament && j % 4 == 0 {
                BodyCategory::Filament
            } else if c.h2 && j % 30 == 0 {
                BodyCategory::H2
            } else if c.dust && j % 5 == 0 {
                BodyCategory::Dust
            } else {
                BodyCategory::Star
            };
            let body = OrbitingBody {
                angle: phase,
                orbit_speed: speed,
                semi_axis: body_axis,
                y_rotation: angle_offset,
                category,
            };
            bodies.push(body);
            proof {
                let spo_i = spo as int;
                let idx = i as int * spo_i + j as int;
                vstd::arithmetic::div_mod::lemma_fundamental_div_mod_converse(
                    idx,
                    spo_i,
                    i as int,
                    j as int,
                );
                assert(body.semi_axis == axis_scaled(spec_orbit_axis(*c, i as int), jitter as int));
                assert(spec_body_matches(*c, i as int, j as int, body));
                assert(bodies@[idx] == body);
            }
            j = j + 1;
        }
        proof {
            assert((i as int + 1) * (spo as int) == i as int * (spo as int) + spo as int)
                by (nonlinear_arith);
        }
        i = i + 1;
    }
    Ok(bodies)
}

/// The brightness factor of orbit `i`, for the rendering boundary.
pub fn dimming_channel(c: &Configuration, i: u32) -> (r: i64)
    requires
        c.wf(),
        0 < c.stars_per_orbit,
        0 <= i < spec_num_orbits(*c),
    ensures
        r == spec_dimming_channel(*c, i as int),
{
    proof {
        vstd::arithmetic::div_mod::lemma_div_nonincreasing(c.star_count as int, c.stars_per_orbit as int);
        vstd::arithmetic::div_mod::lemma_div_pos_is_pos(c.dimming_speed as int, spec_num_orbits(*c));
        vstd::arithmetic::div_mod::lemma_div_nonincreasing(c.dimming_speed as int, spec_num_orbits(*c));
    }
    let spo: u32 = c.stars_per_orbit as u32;
    let num_orbits: u32 = c.star_count / spo;
    let step: i64 = c.dimming_speed / (num_orbits as i64);
    proof {
        vstd::arithmetic::div_mod::lemma_div_pos_is_pos(step as int, num_orbits as int);
        vstd::arithmetic::div_mod::lemma_div_nonincreasing(step as int, num_orbits as int);
    }
    let percent: i64 = step / (num_orbits as i64);
    proof {
        assert(0 <= (i as int) * (percent as int) <= 15_000 * 1_000_000_000) by (nonlinear_arith)
            requires 0 <= i <= 15_000, 0 <= percent <= 1_000_000_000;
    }
    UNIT - (i as i64) * percent
}

/// Law: the category flags redistribute categories but never change
/// the population's size, which depends on the star count and the
/// slots per orbit alone.
pub proof fn lemma_flags_never_change_population_size(c1: Configuration, c2: Configuration)
    requires
        c1.star_count == c2.star_count,
        c1.stars_per_orbit == c2.stars_per_orbit,
    ensures
        spec_num_orbits(c1) * (c1.stars_per_orbit as int) == spec_num_orbits(c2) * (
        c2.stars_per_orbit as int),
{
}

/// Law: with every category flag off, every generated body is a star.
pub proof fn lemma_all_flags_off_all_stars(c: Configuration, j: int)
    requires
        !c.dust,
        !c.h2,
        !c.filament,
    ensures
        spec_category(c, j) == BodyCategory::Star,
{
}

/// Law: with only the filament flag on, exactly the slots at multiples
/// of four are filaments and every other slot is a star.
pub proof fn lemma_filament_only(c: Configuration, j: int)
    requires
        c.filament,
        !c.h2,
        !c.dust,
    ensures
        spec_category(c, j) == if j % 4 == 0 {
            BodyCategory::Filament
        } else {
            BodyCategory::Star
        },
{
}

/// Law: the base orbit speed strictly decreases with the orbit index
/// while the fixed-point grid can still tell neighbouring orbits apart,
/// that is while `(i + 1) * (i + 2)` does not exceed the velocity.
pub proof fn lemma_orbit_speed_strictly_decreasing(c: Configuration, i: int)
    requires
        0 <= i,
        0 < c.velocity,
        (i + 1) * (i + 2) <= c.velocity,
    ensures
        spec_orbit_speed(c, i) > spec_orbit_speed(c, i + 1),
{
    let v = c.velocity as int;
    let q1 = v / (i + 1);
    let q2 = v / (i + 2);
    vstd::arithmetic::div_mod::lemma_fundamental_div_mod(v, i + 2);
    vstd::arithmetic::div_mod::lemma_mod_division_less_than_divisor(v, i + 2);
    let r2 = v % (i + 2);
    // The quotient by the wider divisor is itself at least `i + 1`.
    vstd::arithmetic::div_mod::lemma_div_is_ordered((i + 1) * (i + 2), v, i + 2);
    vstd::arithmetic::div_mod::lemma_div_multiples_vanish(i + 1, i + 2);
    assert((i + 1) * (i + 2) == (i + 2) * (i + 1)) by (nonlinear_arith);
    assert(q2 >= i + 1);
    // Hence one more step of the narrower divisor still fits under `v`.
    assert((q2 + 1) * (i + 1) <= v) by (nonlinear_arith)
        requires
            v == (i + 2) * q2 + r2,
            0 <= r2,
            q2 >= i + 1,
            0 <= i,
    ;
    vstd::arithmetic::div_mod::lemma_div_is_ordered((q2 + 1) * (i + 1), v, i + 1);
    vstd::arithmetic::div_mod::lemma_div_multiples_vanish(q2 + 1, i + 1);
    assert((q2 + 1) * (i + 1) == (i + 1) * (q2 + 1)) by (nonlinear_arith);
    assert(q1 >= q2 + 1);
}

/// Law: across the whole field of any well-formed configuration with
/// at least one hundred slots per orbit — the control panel never
/// changes the fixed one hundred — every orbit is strictly faster than
/// the next one out.
pub proof fn lemma_orbit_speeds_decrease_across_field(c: Configuration, i: int)
    requires
        c.wf(),
        100 <= c.stars_per_orbit,
        0 <= i,
        i + 1 < spec_num_orbits(c),
    ensures
        spec_orbit_speed(c, i) > spec_orbit_speed(c, i + 1),
{
    vstd::arithmetic::div_mod::lemma_div_is_ordered_by_denominator(
        c.star_count as int,
        100,
        c.stars_per_orbit as int,
    );
    vstd::arithmetic::div_mod::lemma_div_is_ordered(c.star_count as int, 15_000, 100);
    assert(spec_num_orbits(c) <= 150);
    assert((i + 1) * (i + 2) <= 22_350) by (nonlinear_arith)
        requires 0 <= i <= 148;
    lemma_orbit_speed_strictly_decreasing(c, i);
}

} // verus!
