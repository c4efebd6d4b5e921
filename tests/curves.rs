use fastsim::curve::{curve_is_valid, curve_pick, first_grtr, floor_index, floor_index_from_one, max_ordinal, CurvePick};
use fastsim::cycle::{validate_cycle, CycleError};
use fastsim::ordinal::{is_nan_bits, ordinal_of_bits};

fn ord(x: f64) -> i64 {
    ordinal_of_bits(x.to_bits())
}

fn ords(xs: &[f64]) -> Vec<i64> {
    xs.iter().map(|&x| ord(x)).collect()
}

#[test]
fn ordinal_orders_like_floats() {
    let vals = [-1e300, -2.5, -1.0, -1e-300, 0.0, 1e-300, 0.5, 1.0, 3.75, 1e300];
    for a in vals.iter() {
        for b in vals.iter() {
            assert_eq!(a < b, ord(*a) < ord(*b));
            assert_eq!(a == b, ord(*a) == ord(*b));
        }
    }
}

#[test]
fn ordinal_of_signed_zeros_is_zero() {
    assert_eq!(ord(0.0), 0);
    assert_eq!(ord(-0.0), 0);
    assert_eq!(ord(1.0), 0x3ff0_0000_0000_0000);
    assert_eq!(ord(-1.0), -0x3ff0_0000_0000_0000);
}

#[test]
fn first_grtr_finds_first_above() {
    let xs = ords(&[0.0, 10.0, 20.0, 30.0]);
    assert_eq!(first_grtr(&xs, ord(15.0)), Some(2));
    assert_eq!(first_grtr(&xs, ord(10.0)), Some(2));
    assert_eq!(first_grtr(&xs, ord(-1.0)), Some(0));
    assert_eq!(first_grtr(&xs, ord(99.0)), Some(3));
    assert_eq!(first_grtr(&Vec::new(), ord(1.0)), None);
}

#[test]
fn floor_index_is_one_below_first_above() {
    let xs = ords(&[0.0, 10.0, 20.0, 30.0]);
    assert_eq!(floor_index(&xs, ord(15.0)), Some(1));
    assert_eq!(floor_index(&xs, ord(10.0)), Some(1));
    assert_eq!(floor_index(&xs, ord(9.99)), Some(0));
    assert_eq!(floor_index(&xs, ord(0.0)), Some(0));
    assert_eq!(floor_index(&xs, ord(30.0)), Some(2));
    assert_eq!(floor_index(&xs, ord(45.0)), Some(2));
    assert_eq!(floor_index(&xs, ord(-0.5)), None);
    assert_eq!(floor_index(&ords(&[5.0]), ord(7.0)), None);
}

#[test]
fn floor_index_from_one_never_picks_the_first_point() {
    let xs = ords(&[0.0, 10.0, 20.0]);
    assert_eq!(floor_index_from_one(&xs, ord(3.0)), Some(1));
    assert_eq!(floor_index_from_one(&xs, ord(15.0)), Some(1));
    assert_eq!(floor_index_from_one(&xs, ord(25.0)), Some(1));
    let ys = ords(&[0.0, 10.0, 20.0, 30.0]);
    assert_eq!(floor_index_from_one(&ys, ord(25.0)), Some(2));
    assert_eq!(floor_index_from_one(&ys, ord(-3.0)), None);
}

#[test]
fn curve_pick_at_the_top_takes_the_last_entry() {
    let xs = ords(&[0.0, 25.0, 50.0, 75.0, 100.0]);
    assert_eq!(curve_pick(&xs, ord(100.0), ord(100.0), ord(99.99), true), Some(CurvePick::Last));
    assert_eq!(curve_pick(&xs, ord(60.0), ord(100.0), ord(99.99), true), Some(CurvePick::At(2)));
    assert_eq!(curve_pick(&xs, ord(120.0), ord(100.0), ord(99.99), false), Some(CurvePick::At(3)));
    assert_eq!(curve_pick(&xs, ord(5.0), ord(100.0), ord(99.99), true), Some(CurvePick::At(1)));
    assert_eq!(curve_pick(&xs, ord(5.0), ord(100.0), ord(99.99), false), Some(CurvePick::At(0)));
    assert_eq!(curve_pick(&xs, ord(-5.0), ord(100.0), ord(99.99), false), None);
}

#[test]
fn max_ordinal_finds_largest() {
    let xs = ords(&[3.0, 9.5, -2.0, 9.0]);
    assert_eq!(max_ordinal(&xs), ord(9.5));
}

#[test]
fn curve_validity_requires_rising_abscissae() {
    assert!(curve_is_valid(&ords(&[0.0, 1.0, 2.0]), 3));
    assert!(!curve_is_valid(&ords(&[0.0, 1.0, 1.0]), 3));
    assert!(!curve_is_valid(&ords(&[0.0, 2.0, 1.0]), 3));
    assert!(!curve_is_valid(&ords(&[0.0, 1.0, 2.0]), 2));
}

#[test]
fn cycle_empty_is_rejected() {
    assert_eq!(validate_cycle(&Vec::new(), 0, 0), Err(CycleError::Empty));
}

#[test]
fn cycle_with_repeated_time_is_rejected() {
    let t = ords(&[0.0, 1.0, 1.0, 2.0]);
    assert_eq!(validate_cycle(&t, 4, 4), Err(CycleError::TimeNotIncreasing));
}

#[test]
fn cycle_with_falling_time_is_rejected() {
    let t = ords(&[0.0, 2.0, 1.0]);
    assert_eq!(validate_cycle(&t, 3, 3), Err(CycleError::TimeNotIncreasing));
}

#[test]
fn cycle_with_mismatched_traces_is_rejected() {
    let t = ords(&[0.0, 1.0, 2.0]);
    assert_eq!(validate_cycle(&t, 2, 3), Err(CycleError::LengthMismatch));
    assert_eq!(validate_cycle(&t, 3, 4), Err(CycleError::LengthMismatch));
}

#[test]
fn cycle_rising_is_accepted() {
    let t = ords(&[0.0, 1.0, 2.0, 3.5]);
    assert_eq!(validate_cycle(&t, 4, 4), Ok(()));
    assert_eq!(validate_cycle(&ords(&[0.0]), 1, 1), Ok(()));
}

#[test]
fn nan_bit_patterns_are_recognised() {
    assert!(is_nan_bits(f64::NAN.to_bits()));
    assert!(is_nan_bits((-f64::NAN).to_bits()));
    assert!(is_nan_bits((0.0f64 / 0.0).to_bits()));
    assert!(!is_nan_bits(f64::INFINITY.to_bits()));
    assert!(!is_nan_bits(f64::NEG_INFINITY.to_bits()));
    assert!(!is_nan_bits(0.0f64.to_bits()));
    assert!(!is_nan_bits(1.5f64.to_bits()));
    assert!(!is_nan_bits(f64::MAX.to_bits()));
}
