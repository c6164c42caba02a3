use starfield::axis::SemiAxis;
use starfield::body::{BodyCategory, OrbitingBody};
use starfield::kinematics::{advance, advance_all, local_position, rotate_y, world_position};

fn unit_body() -> OrbitingBody {
    OrbitingBody {
        angle: 0,
        orbit_speed: 1_000_000,
        semi_axis: SemiAxis { major: 1_000_000, minor: 500_000 },
        y_rotation: 0,
        category: BodyCategory::Star,
    }
}

#[test]
fn advance_integrates_the_phase() {
    let mut b = unit_body();
    advance(&mut b, 250_000);
    assert_eq!(b.angle, 250_000);
    advance(&mut b, 250_000);
    assert_eq!(b.angle, 500_000);
    assert_eq!(b.orbit_speed, 1_000_000);
}

#[test]
fn advance_all_touches_every_body() {
    let mut bodies = vec![unit_body(); 5];
    bodies[3].orbit_speed = 3_000_000;
    advance_all(&mut bodies, 100_000);
    assert_eq!(bodies.len(), 5);
    for (k, b) in bodies.iter().enumerate() {
        if k == 3 {
            assert_eq!(b.angle, 300_000);
        } else {
            assert_eq!(b.angle, 100_000);
        }
    }
}

#[test]
fn quarter_turn_lands_on_the_minor_axis() {
    // angle 0, speed 1, shape 1.0 by 0.5: after dt = pi/2 the local
    // position approaches (0, 0, 0.5).
    let mut b = unit_body();
    let dt: i64 = 1_570_796; // pi/2 in micro-seconds
    advance(&mut b, dt);
    assert_eq!(b.angle, 1_570_796);
    let a = b.angle as f64 / 1e6;
    let cos_a = (a.cos() * 1e6).round() as i64;
    let sin_a = (a.sin() * 1e6).round() as i64;
    let p = local_position(&b, cos_a, sin_a);
    assert!(p.0.abs() <= 2, "x was {}", p.0);
    assert_eq!(p.1, 0);
    assert!((p.2 - 500_000).abs() <= 2, "z was {}", p.2);
}

#[test]
fn local_position_at_phase_zero() {
    let b = unit_body();
    let p = local_position(&b, 1_000_000, 0);
    assert_eq!(p, (1_000_000, 0, 0));
}

#[test]
fn rotate_y_quarter_turn_swaps_axes() {
    // Turning (1, 0) by a quarter turn about the vertical axis gives
    // (0, -1) with this orientation convention.
    let (x, z) = rotate_y(1_000_000, 0, 0, 1_000_000);
    assert_eq!(x, 0);
    assert_eq!(z, -1_000_000);
}

#[test]
fn world_position_without_rotation_is_local() {
    let b = unit_body();
    let p = world_position(&b, 1_000_000, 0, 1_000_000, 0);
    assert_eq!(p, (1_000_000, 0, 0));
}

#[test]
fn world_position_with_half_turn_flips_the_plane() {
    let b = unit_body();
    // Phase 0 puts the body at (major, 0, 0); a half turn about the
    // vertical axis sends it to (-major, 0, 0).
    let p = world_position(&b, 1_000_000, 0, -1_000_000, 0);
    assert_eq!(p, (-1_000_000, 0, 0));
}

#[test]
fn truncation_rounds_toward_zero() {
    let b = OrbitingBody {
        angle: 0,
        orbit_speed: 0,
        semi_axis: SemiAxis { major: 999_999, minor: 999_999 },
        y_rotation: 0,
        category: BodyCategory::Star,
    };
    // 999_999 * -999_999 / UNIT truncates toward zero: -999_998, not
    // -999_999 as flooring would give.
    let p = local_position(&b, -999_999, -999_999);
    assert_eq!(p.0, -999_998);
    assert_eq!(p.2, -999_998);
}
