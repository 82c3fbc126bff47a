use skirmish_core::units::Vec2i;

#[test]
fn squared_distance_is_exact() {
    let a = Vec2i::new(3_000, 4_000);
    let b = Vec2i::new(0, 0);
    assert_eq!(Vec2i::dist_sq(a, b), 25_000_000);
    assert_eq!(Vec2i::dist_sq(a, a), 0);
}

#[test]
fn range_checks_compare_against_the_true_distance() {
    let a = Vec2i::new(3_000, 4_000);
    let b = Vec2i::new(0, 0);
    // The distance is exactly 5 units.
    assert!(Vec2i::dist_lt(a, b, 5_001));
    assert!(!Vec2i::dist_lt(a, b, 5_000));
    assert!(Vec2i::dist_gt(a, b, 4_999));
    assert!(!Vec2i::dist_gt(a, b, 5_000));
}

#[test]
fn a_huge_radius_covers_any_pair() {
    let a = Vec2i::new(-1_000_000_000, -1_000_000_000);
    let b = Vec2i::new(1_000_000_000, 1_000_000_000);
    assert!(Vec2i::dist_lt(a, b, i64::MAX));
    assert!(!Vec2i::dist_gt(a, b, i64::MAX));
}
