use starfield::body::BodyCategory;
use starfield::configuration::Configuration;
use starfield::generator::{dimming_channel, generate, GenError};

#[test]
fn population_size_is_orbits_times_slots() {
    // star_count 10000 and stars_per_orbit 100 give 100 orbits of 100
    // bodies, whatever the category flags say.
    let mut c = Configuration::default();
    assert_eq!(generate(&c).unwrap().len(), 10_000);
    c.dust = false;
    c.h2 = false;
    c.filament = false;
    assert_eq!(generate(&c).unwrap().len(), 10_000);
    c.filament = true;
    assert_eq!(generate(&c).unwrap().len(), 10_000);
}

#[test]
fn all_flags_off_gives_only_stars() {
    let mut c = Configuration::default();
    c.dust = false;
    c.h2 = false;
    c.filament = false;
    let bodies = generate(&c).unwrap();
    for b in &bodies {
        assert_eq!(b.category, BodyCategory::Star);
    }
}

#[test]
fn filament_only_claims_every_fourth_slot() {
    let mut c = Configuration::default();
    c.dust = false;
    c.h2 = false;
    c.filament = true;
    let bodies = generate(&c).unwrap();
    for (k, b) in bodies.iter().enumerate() {
        let j = k % 100;
        if j % 4 == 0 {
            assert_eq!(b.category, BodyCategory::Filament);
        } else {
            assert_eq!(b.category, BodyCategory::Star);
        }
    }
}

#[test]
fn category_examples_with_all_flags_on() {
    let c = Configuration::default();
    let bodies = generate(&c).unwrap();
    // j = 0: divisible by 4, filament wins over everything.
    assert_eq!(bodies[0].category, BodyCategory::Filament);
    // j = 1: no modulus matches.
    assert_eq!(bodies[1].category, BodyCategory::Star);
    // j = 5: only the dust modulus matches.
    assert_eq!(bodies[5].category, BodyCategory::Dust);
    // j = 30: h2 modulus matches and the filament one does not.
    assert_eq!(bodies[30].category, BodyCategory::H2);
    // j = 60: both filament and h2 moduli match; filament wins.
    assert_eq!(bodies[60].category, BodyCategory::Filament);
}

#[test]
fn phases_and_rotations_are_exact() {
    let c = Configuration::default();
    let bodies = generate(&c).unwrap();
    // Orbit 0, slot 0.
    assert_eq!(bodies[0].angle, 0);
    assert_eq!(bodies[0].y_rotation, 0);
    // Orbit 0, slot 3.
    assert_eq!(bodies[3].angle, 3 * 196_350);
    // Orbit 1, slot 2 sits at index 102; the orbit is turned by the
    // orbit rotation once.
    assert_eq!(bodies[102].angle, 2 * 196_350 + 200_000);
    assert_eq!(bodies[102].y_rotation, 200_000);
    // Orbit 7, slot 0.
    assert_eq!(bodies[700].angle, 7 * 200_000);
    assert_eq!(bodies[700].y_rotation, 7 * 200_000);
}

#[test]
fn speeds_sit_in_the_jitter_band() {
    let c = Configuration::default();
    let bodies = generate(&c).unwrap();
    // Orbit 0: base speed 3.0; fluctuation in [0.01, 0.1).
    for b in &bodies[..100] {
        assert!(b.orbit_speed >= 3_010_000);
        assert!(b.orbit_speed < 3_100_000);
    }
    // Orbit 1: base speed 1.5.
    for b in &bodies[100..200] {
        assert!(b.orbit_speed >= 1_510_000);
        assert!(b.orbit_speed < 1_600_000);
    }
}

#[test]
fn speed_fluctuation_is_actually_random() {
    let c = Configuration::default();
    let bodies = generate(&c).unwrap();
    let first = bodies[0].orbit_speed;
    assert!(bodies[..100].iter().any(|b| b.orbit_speed != first));
}

#[test]
fn orbit_speeds_strictly_decrease_outward() {
    let c = Configuration::default();
    let bodies = generate(&c).unwrap();
    // The whole jitter band of an inner orbit lies above the band of
    // the next one for the first orbits.
    let min0 = bodies[..100].iter().map(|b| b.orbit_speed).min().unwrap();
    let max1 = bodies[100..200].iter().map(|b| b.orbit_speed).max().unwrap();
    let min1 = bodies[100..200].iter().map(|b| b.orbit_speed).min().unwrap();
    let max2 = bodies[200..300].iter().map(|b| b.orbit_speed).max().unwrap();
    assert!(min0 > max1);
    assert!(min1 > max2);
}

#[test]
fn axis_jitter_band_on_the_innermost_orbit() {
    let c = Configuration::default();
    let bodies = generate(&c).unwrap();
    // Orbit 0 has no density offset, so its base shape is the
    // configured one; jitter scales it by [0.9, 1.1).
    for b in &bodies[..100] {
        assert!(b.semi_axis.major >= 450_000);
        assert!(b.semi_axis.major < 550_000);
        assert!(b.semi_axis.minor >= 270_000);
        assert!(b.semi_axis.minor < 330_000);
    }
}

#[test]
fn orbits_grow_outward() {
    let c = Configuration::default();
    let bodies = generate(&c).unwrap();
    // Orbit 20's density offset is 20 / 2.0 = 10, so its base shape is
    // eleven times the configured one; even the smallest jitter leaves
    // it far above the innermost band.
    for b in &bodies[2_000..2_100] {
        assert!(b.semi_axis.major >= 4_950_000);
        assert!(b.semi_axis.major < 6_050_000);
    }
}

#[test]
fn display_sizes_follow_the_category_table() {
    let c = Configuration::default();
    assert_eq!(BodyCategory::Star.display_size(c.star_size), 20_000);
    assert_eq!(BodyCategory::H2.display_size(c.star_size), 40_000);
    assert_eq!(BodyCategory::Dust.display_size(c.star_size), 60_000);
    assert_eq!(BodyCategory::Filament.display_size(c.star_size), 180_000);
}

#[test]
fn zero_stars_per_orbit_is_a_domain_error() {
    let mut c = Configuration::default();
    c.stars_per_orbit = 0;
    assert_eq!(generate(&c), Err(GenError::InvalidDivisor));
}

#[test]
fn dimming_channel_decreases_and_may_go_negative() {
    let c = Configuration::default();
    // 100 orbits: step 1.5, percent 0.015.
    assert_eq!(dimming_channel(&c, 0), 1_000_000);
    assert_eq!(dimming_channel(&c, 10), 850_000);
    assert_eq!(dimming_channel(&c, 66), 10_000);
    assert_eq!(dimming_channel(&c, 99), -485_000);
}
