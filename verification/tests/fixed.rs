use consciousness_core::fixed::{Fixed, MICROS_MAX, MICROS_PER_UNIT};

#[test]
fn constructors_give_the_stated_values() {
    assert_eq!(Fixed::zero().micros, 0);
    assert_eq!(Fixed::one().micros, MICROS_PER_UNIT);
    assert_eq!(Fixed::from_micros(42).micros, 42);
}

#[test]
fn ratio_rounds_toward_zero() {
    assert_eq!(Fixed::from_ratio(1, 3).micros, 333_333);
    assert_eq!(Fixed::from_ratio(2, 3).micros, 666_666);
    assert_eq!(Fixed::from_ratio(13, 21).micros, 619_047);
    assert_eq!(Fixed::from_ratio(5, 5).micros, 1_000_000);
}

#[test]
fn ratio_stops_at_the_largest_value() {
    assert_eq!(Fixed::from_ratio(u64::MAX, 1).micros, MICROS_MAX);
}

#[test]
fn sum_is_exact_until_it_stops() {
    let a = Fixed::from_micros(270_000);
    let b = Fixed::from_micros(320_000);
    assert_eq!(a.saturating_add(b).micros, 590_000);
    assert_eq!(Fixed::from_micros(MICROS_MAX).saturating_add(Fixed::one()).micros, MICROS_MAX);
    assert_eq!(Fixed::from_micros(MICROS_MAX - 5).saturating_add(Fixed::from_micros(5)).micros, MICROS_MAX);
}

#[test]
fn difference_stops_at_zero() {
    let a = Fixed::from_micros(270_000);
    let b = Fixed::from_micros(320_000);
    assert_eq!(b.saturating_sub(a).micros, 50_000);
    assert_eq!(a.saturating_sub(b).micros, 0);
    assert_eq!(a.abs_diff(b).micros, 50_000);
    assert_eq!(b.abs_diff(a).micros, 50_000);
}

#[test]
fn product_rounds_toward_zero() {
    let a = Fixed::from_micros(300_000);
    assert_eq!(a.saturating_mul(Fixed::from_micros(900_000)).micros, 270_000);
    assert_eq!(a.saturating_mul(Fixed::from_micros(850_000)).micros, 255_000);
    assert_eq!(Fixed::from_micros(3).saturating_mul(Fixed::from_micros(500_000)).micros, 1);
    assert_eq!(Fixed::from_micros(1).saturating_mul(Fixed::from_micros(999_999)).micros, 0);
}

#[test]
fn product_stops_at_the_largest_value() {
    let big = Fixed::from_micros(MICROS_MAX);
    assert_eq!(big.saturating_mul(Fixed::from_micros(2_000_000)).micros, MICROS_MAX);
    assert_eq!(big.saturating_mul(big).micros, MICROS_MAX);
    assert_eq!(big.saturating_mul(Fixed::one()).micros, MICROS_MAX);
}

#[test]
fn quotient_rounds_toward_zero() {
    let a = Fixed::from_micros(247_000_000);
    let b = Fixed::from_micros(89_000_000);
    assert_eq!(a.divided_by(b).micros, 2_775_280);
    assert_eq!(b.divided_by(a).micros, 360_323);
    assert_eq!(Fixed::from_micros(MICROS_MAX).divided_by(Fixed::from_micros(1)).micros, MICROS_MAX);
}

#[test]
fn smaller_value_and_cap() {
    let a = Fixed::from_micros(1_500_000);
    let b = Fixed::from_micros(700_000);
    assert_eq!(a.min(b), b);
    assert_eq!(b.min(a), b);
    assert_eq!(a.capped(), Fixed::one());
    assert_eq!(b.capped(), b);
    assert_eq!(Fixed::one().capped(), Fixed::one());
}
