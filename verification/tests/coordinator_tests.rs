use starfield::body::{BodyCategory, OrbitingBody};
use starfield::configuration::{ButtonAction, ButtonKind, CheckboxKind};
use starfield::coordinator::{FieldEvent, FieldState};
use starfield::generator::{generate, GenError};

#[test]
fn fresh_field_is_empty_and_pending() {
    let f = FieldState::new();
    assert!(f.changed);
    assert!(f.bodies.is_empty());
    assert_eq!(f.config.star_count, 10_000);
}

#[test]
fn first_tick_populates_the_field() {
    let mut f = FieldState::new();
    let regenerated = f.tick(16_667).unwrap();
    assert!(regenerated);
    assert!(!f.changed);
    assert_eq!(f.bodies.len(), 10_000);
}

#[test]
fn one_change_triggers_exactly_one_regeneration() {
    let mut f = FieldState::new();
    f.tick(16_667).unwrap();
    f.apply_event(FieldEvent::AdjustParameter(ButtonKind::StarCount, ButtonAction::Increment));
    assert!(f.changed);
    let regenerated = f.tick(16_667).unwrap();
    assert!(regenerated);
    // The new population matches a direct call of the generator with
    // the same snapshot.
    assert_eq!(f.bodies.len(), generate(&f.config).unwrap().len());
    assert_eq!(f.bodies.len(), 11_000);
    // No further change: the next tick only integrates.
    let regenerated_again = f.tick(16_667).unwrap();
    assert!(!regenerated_again);
    assert_eq!(f.bodies.len(), 11_000);
}

#[test]
fn several_mutations_in_one_tick_collapse() {
    let mut f = FieldState::new();
    f.tick(16_667).unwrap();
    f.apply_event(FieldEvent::AdjustParameter(ButtonKind::StarCount, ButtonAction::Decrement));
    f.apply_event(FieldEvent::ToggleCategory(CheckboxKind::Dust));
    f.apply_event(FieldEvent::AdjustParameter(ButtonKind::Velocity, ButtonAction::Increment));
    let regenerated = f.tick(16_667).unwrap();
    assert!(regenerated);
    assert_eq!(f.bodies.len(), 9_000);
    assert!(!f.changed);
}

#[test]
fn clamped_no_op_alone_does_not_regenerate() {
    let mut f = FieldState::new();
    f.tick(16_667).unwrap();
    for _ in 0..40 {
        f.apply_event(FieldEvent::AdjustParameter(ButtonKind::Velocity, ButtonAction::Increment));
    }
    f.tick(16_667).unwrap();
    // Velocity now sits at its upper bound: another increment is a
    // silent no-op and must not mark the field changed.
    f.apply_event(FieldEvent::AdjustParameter(ButtonKind::Velocity, ButtonAction::Increment));
    assert!(!f.changed);
    let regenerated = f.tick(16_667).unwrap();
    assert!(!regenerated);
}

#[test]
fn failed_generation_leaves_the_field_empty() {
    let mut f = FieldState::new();
    f.tick(16_667).unwrap();
    assert_eq!(f.bodies.len(), 10_000);
    f.config.stars_per_orbit = 0;
    f.changed = true;
    assert_eq!(f.tick(16_667), Err(GenError::InvalidDivisor));
    assert!(f.bodies.is_empty());
    assert!(!f.changed);
}

#[test]
fn stable_tick_advances_every_phase() {
    let mut f = FieldState::new();
    f.changed = false;
    f.bodies.push(OrbitingBody {
        angle: 0,
        orbit_speed: 1_000_000,
        semi_axis: starfield::axis::SemiAxis { major: 1_000_000, minor: 500_000 },
        y_rotation: 0,
        category: BodyCategory::Star,
    });
    f.bodies.push(OrbitingBody {
        angle: 250_000,
        orbit_speed: 2_000_000,
        semi_axis: starfield::axis::SemiAxis { major: 1_000_000, minor: 500_000 },
        y_rotation: 0,
        category: BodyCategory::Star,
    });
    let regenerated = f.tick(500_000).unwrap();
    assert!(!regenerated);
    assert_eq!(f.bodies[0].angle, 500_000);
    assert_eq!(f.bodies[1].angle, 1_250_000);
    // Speeds, shapes and categories are untouched.
    assert_eq!(f.bodies[0].orbit_speed, 1_000_000);
    assert_eq!(f.bodies[1].semi_axis.major, 1_000_000);
}

#[test]
fn regenerated_population_is_advanced_the_same_tick() {
    let mut f = FieldState::new();
    let dt = 1_000_000;
    f.tick(dt).unwrap();
    // Orbit 0, slot 0 starts at phase 0 and is integrated by dt in the
    // very tick that created it, so its phase equals speed * dt.
    let b = f.bodies[0];
    assert_eq!(b.angle, b.orbit_speed);
}
