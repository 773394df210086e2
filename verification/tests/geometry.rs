use sumo_sim::geometry::{is_near, Vec2};

#[test]
fn plus_adds_componentwise() {
    let a = Vec2 { x: 3, y: -7 };
    let b = Vec2 { x: 40, y: 5 };
    assert_eq!(a.plus(b), Vec2 { x: 43, y: -2 });
}

#[test]
fn minus_subtracts_componentwise() {
    let a = Vec2 { x: 3, y: -7 };
    let b = Vec2 { x: 40, y: 5 };
    assert_eq!(a.minus(b), Vec2 { x: -37, y: -12 });
}

#[test]
fn neg_flips_both_coordinates() {
    let a = Vec2 { x: 45, y: -5 };
    assert_eq!(a.neg(), Vec2 { x: -45, y: 5 });
    assert_eq!(a.neg().neg(), a);
}

#[test]
fn origin_is_zero() {
    assert_eq!(Vec2::origin(), Vec2 { x: 0, y: 0 });
}

#[test]
fn dist_sq_is_squared_euclidean() {
    let a = Vec2 { x: 3, y: 4 };
    let o = Vec2 { x: 0, y: 0 };
    assert_eq!(a.dist_sq(o), 25);
    let b = Vec2 { x: -1, y: 2 };
    assert_eq!(a.dist_sq(b), 16 + 4);
    assert_eq!(b.dist_sq(a), 20);
}

#[test]
fn round_snaps_to_whole_units() {
    // Coordinates count quarter-units; rounding snaps to multiples of
    // four, halves away from zero, as the renderer's cell test does.
    assert_eq!(Vec2 { x: 1, y: 7 }.round(), Vec2 { x: 0, y: 8 });
    assert_eq!(Vec2 { x: 2, y: 3 }.round(), Vec2 { x: 4, y: 4 });
    assert_eq!(Vec2 { x: -1, y: -2 }.round(), Vec2 { x: 0, y: -4 });
    assert_eq!(Vec2 { x: -3, y: -6 }.round(), Vec2 { x: -4, y: -8 });
    assert_eq!(Vec2 { x: 40, y: -40 }.round(), Vec2 { x: 40, y: -40 });
}

#[test]
fn is_near_is_a_strict_band() {
    assert!(is_near(10, 12, 3));
    assert!(!is_near(9, 12, 3));
    assert!(!is_near(15, 12, 3));
    assert!(is_near(-2, 0, 3));
    assert!(!is_near(5, 5, 0));
}
