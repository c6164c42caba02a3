use starfield::axis::SemiAxis;

#[test]
fn default_shape() {
    let a = SemiAxis::default();
    assert_eq!(a.major, 500_000);
    assert_eq!(a.minor, 300_000);
}

#[test]
fn grow_keeps_ratio() {
    let a = SemiAxis { major: 500_000, minor: 300_000 };
    let g = a.grow(50_000);
    assert_eq!(g.major, 550_000);
    assert_eq!(g.minor, 330_000);
}

#[test]
fn shrink_keeps_ratio() {
    let a = SemiAxis { major: 500_000, minor: 300_000 };
    let s = a.shrink(50_000);
    assert_eq!(s.major, 450_000);
    assert_eq!(s.minor, 270_000);
}

#[test]
fn grow_shrink_round_trip_exact() {
    let a = SemiAxis { major: 500_000, minor: 300_000 };
    let back = a.grow(70_000).shrink(70_000);
    assert_eq!(back.major, a.major);
    assert_eq!(back.minor, a.minor);
}

#[test]
fn grow_shrink_round_trip_with_flooring_loss() {
    // The minor radius may lose at most one micro-unit to flooring.
    let a = SemiAxis { major: 3, minor: 1 };
    let back = a.grow(1).shrink(1);
    assert_eq!(back.major, a.major);
    assert!(a.minor - 1 <= back.minor && back.minor <= a.minor);
    assert_eq!(back.minor, 0);
}

#[test]
fn scale_scales_both_radii() {
    let a = SemiAxis { major: 500_000, minor: 300_000 };
    let s = a.scale(1_100_000);
    assert_eq!(s.major, 550_000);
    assert_eq!(s.minor, 330_000);
}

#[test]
fn combine_adds_componentwise() {
    let a = SemiAxis { major: 500_000, minor: 300_000 };
    let b = SemiAxis { major: 20_000, minor: 50_000 };
    let c = a.combine(&b);
    assert_eq!(c.major, 520_000);
    assert_eq!(c.minor, 350_000);
}
