use starfield::configuration::{ButtonAction, ButtonKind, CheckboxKind, Configuration};

#[test]
fn documented_defaults() {
    let c = Configuration::default();
    assert!(c.dust && c.h2 && c.filament);
    assert_eq!(c.star_count, 10_000);
    assert_eq!(c.velocity, 1_000_000);
    assert_eq!(c.semi_axis.major, 500_000);
    assert_eq!(c.semi_axis.minor, 300_000);
    assert_eq!(c.stars_per_orbit, 100);
    assert_eq!(c.dimming_speed, 150_000_000);
    assert_eq!(c.orbit_density, 2_000_000);
    assert_eq!(c.orbit_rotation, 200_000);
    assert_eq!(c.star_size, 20_000);
}

#[test]
fn repeated_increment_clamps_at_upper_bounds() {
    let mut c = Configuration::default();
    for _ in 0..40 {
        c.update(ButtonKind::StarCount, ButtonAction::Increment);
        c.update(ButtonKind::StarSize, ButtonAction::Increment);
        c.update(ButtonKind::Velocity, ButtonAction::Increment);
        c.update(ButtonKind::SemiAxis, ButtonAction::Increment);
        c.update(ButtonKind::OrbitDensity, ButtonAction::Increment);
        c.update(ButtonKind::OrbitRotation, ButtonAction::Increment);
    }
    assert_eq!(c.star_count, 15_000);
    assert_eq!(c.star_size, 70_000);
    assert_eq!(c.velocity, 5_000_000);
    assert_eq!(c.semi_axis.major, 1_100_000);
    assert_eq!(c.orbit_density, 4_000_000);
    assert_eq!(c.orbit_rotation, 1_000_000);
}

#[test]
fn repeated_decrement_clamps_at_lower_bounds() {
    let mut c = Configuration::default();
    for _ in 0..40 {
        c.update(ButtonKind::StarCount, ButtonAction::Decrement);
        c.update(ButtonKind::StarSize, ButtonAction::Decrement);
        c.update(ButtonKind::Velocity, ButtonAction::Decrement);
        c.update(ButtonKind::SemiAxis, ButtonAction::Decrement);
        c.update(ButtonKind::OrbitDensity, ButtonAction::Decrement);
        c.update(ButtonKind::OrbitRotation, ButtonAction::Decrement);
    }
    assert_eq!(c.star_count, 5_000);
    assert_eq!(c.star_size, 10_000);
    assert_eq!(c.velocity, 100_000);
    assert_eq!(c.semi_axis.major, 200_000);
    assert_eq!(c.orbit_density, 500_000);
    assert_eq!(c.orbit_rotation, 0);
}

#[test]
fn clamped_step_is_a_silent_no_op() {
    let mut c = Configuration::default();
    for _ in 0..40 {
        c.update(ButtonKind::Velocity, ButtonAction::Increment);
    }
    assert_eq!(c.velocity, 5_000_000);
    let before = c.clone();
    let changed = c.update(ButtonKind::Velocity, ButtonAction::Increment);
    assert!(!changed);
    assert_eq!(c, before);
}

#[test]
fn successful_step_reports_a_change() {
    let mut c = Configuration::default();
    let changed = c.update(ButtonKind::StarCount, ButtonAction::Increment);
    assert!(changed);
    assert_eq!(c.star_count, 11_000);
}

#[test]
fn semi_axis_step_scales_minor() {
    let mut c = Configuration::default();
    let changed = c.update(ButtonKind::SemiAxis, ButtonAction::Increment);
    assert!(changed);
    assert_eq!(c.semi_axis.major, 550_000);
    assert_eq!(c.semi_axis.minor, 330_000);
    c.update(ButtonKind::SemiAxis, ButtonAction::Decrement);
    assert_eq!(c.semi_axis.major, 500_000);
    assert_eq!(c.semi_axis.minor, 300_000);
}

#[test]
fn toggle_flips_each_flag() {
    let mut c = Configuration::default();
    c.toggle(CheckboxKind::Dust);
    assert!(!c.dust);
    c.toggle(CheckboxKind::HII);
    assert!(!c.h2);
    c.toggle(CheckboxKind::Filament);
    assert!(!c.filament);
    c.toggle(CheckboxKind::Dust);
    assert!(c.dust);
}

#[test]
fn button_values_use_fixed_formats() {
    let c = Configuration::default();
    assert_eq!(c.map_to_button_value(ButtonKind::StarCount), "10.000");
    assert_eq!(c.map_to_button_value(ButtonKind::StarSize), "0.02");
    assert_eq!(c.map_to_button_value(ButtonKind::Velocity), "1.00");
    assert_eq!(c.map_to_button_value(ButtonKind::SemiAxis), "b: 0.50, s: 0.30");
    assert_eq!(c.map_to_button_value(ButtonKind::OrbitDensity), "2.00");
    assert_eq!(c.map_to_button_value(ButtonKind::OrbitRotation), "0.20");
}

#[test]
fn button_values_after_steps() {
    let mut c = Configuration::default();
    c.update(ButtonKind::StarCount, ButtonAction::Decrement);
    c.update(ButtonKind::StarSize, ButtonAction::Increment);
    c.update(ButtonKind::OrbitRotation, ButtonAction::Decrement);
    assert_eq!(c.map_to_button_value(ButtonKind::StarCount), "9.000");
    assert_eq!(c.map_to_button_value(ButtonKind::StarSize), "0.03");
    assert_eq!(c.map_to_button_value(ButtonKind::OrbitRotation), "0.10");
}

#[test]
fn button_labels() {
    assert_eq!(ButtonKind::StarCount.to_string(), "Star Count");
    assert_eq!(ButtonKind::StarSize.to_string(), "Star Size");
    assert_eq!(ButtonKind::Velocity.to_string(), "Velocity");
    assert_eq!(ButtonKind::SemiAxis.to_string(), "Semi Axis");
    assert_eq!(ButtonKind::OrbitDensity.to_string(), "Orbit Density");
    assert_eq!(ButtonKind::OrbitRotation.to_string(), "Orbit Rotation");
}
