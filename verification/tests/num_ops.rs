//! The fixed-point numeric core: clamping, rounding and distances.

use dxf2elmt::num::{
    cadd, ccompose, cdist, cmul, cround_units, csub, Factor, COORD_MAX, COORD_MIN,
};

#[test]
fn addition_saturates_at_the_coordinate_range() {
    assert_eq!(cadd(COORD_MAX, COORD_MAX), COORD_MAX);
    assert_eq!(cadd(COORD_MIN, COORD_MIN), COORD_MIN);
    assert_eq!(csub(COORD_MIN, COORD_MAX), COORD_MIN);
    assert_eq!(cadd(1, 2), 3);
}

#[test]
fn rounding_is_to_nearest_ties_away_from_zero() {
    assert_eq!(cround_units(1_500_000), 2);
    assert_eq!(cround_units(-1_500_000), -2);
    assert_eq!(cround_units(1_499_999), 1);
    assert_eq!(cround_units(-1_499_999), -1);
    assert_eq!(cround_units(0), 0);
}

#[test]
fn factor_multiplication_rounds_to_nearest_micro() {
    // 1 / 3 of one unit: 333333.33.. rounds to 333333
    assert_eq!(cmul(1_000_000, Factor { num: 1, den: 3 }), 333_333);
    // 1 / 2 of one micro-unit rounds away from zero
    assert_eq!(cmul(1, Factor { num: 1, den: 2 }), 1);
    assert_eq!(cmul(-1, Factor { num: 1, den: 2 }), -1);
}

#[test]
fn composing_micro_factors_multiplies_their_values() {
    assert_eq!(ccompose(2_000_000, 3_000_000), 6_000_000);
    assert_eq!(ccompose(500_000, 500_000), 250_000);
    assert_eq!(ccompose(-1_000_000, 2_000_000), -2_000_000);
}

#[test]
fn distance_of_a_pythagorean_pair_is_exact() {
    assert_eq!(cdist(0, 0, 3_000_000, 4_000_000), 5_000_000);
    assert_eq!(cdist(1, 1, 1, 1), 0);
    // non-square lengths round down
    assert_eq!(cdist(0, 0, 1, 1), 1);
}
