use estimator::num::{Num, Residual};

fn n(units: i128) -> Num {
    Num::new(units)
}

const ONE: i128 = 1_000_000_000;
const TOP: i128 = 10_000_000_000_000_000_000;

#[test]
fn add_exact() {
    assert_eq!(n(1_500_000_000).add(n(2_500_000_000)).raw(), 4_000_000_000);
}

#[test]
fn sub_goes_negative() {
    assert_eq!(n(ONE).sub(n(3 * ONE)).raw(), -2 * ONE);
}

#[test]
fn mul_exact() {
    assert_eq!(n(1_500_000_000).mul(n(2 * ONE)).raw(), 3 * ONE);
}

#[test]
fn mul_truncates_toward_zero() {
    assert_eq!(n(-1).mul(n(500_000_000)).raw(), 0);
    assert_eq!(n(1).mul(n(500_000_000)).raw(), 0);
}

#[test]
fn div_truncates() {
    assert_eq!(n(ONE).div(n(3 * ONE)).raw(), 333_333_333);
    assert_eq!(n(-ONE).div(n(3 * ONE)).raw(), -333_333_333);
}

#[test]
fn div_by_zero_saturates() {
    assert_eq!(n(5).div(n(0)).raw(), TOP);
    assert_eq!(n(-5).div(n(0)).raw(), -TOP);
}

#[test]
fn addition_saturates_at_top() {
    let top = n(TOP);
    assert_eq!(top.add(top).raw(), TOP);
    assert_eq!(top.neg().sub(top).raw(), -TOP);
}

#[test]
fn new_clips_out_of_range() {
    assert_eq!(Num::new(i128::MAX).raw(), TOP);
    assert_eq!(Num::new(i128::MIN).raw(), -TOP);
}

#[test]
fn from_int_scales() {
    assert_eq!(Num::from_int(3).raw(), 3 * ONE);
    assert_eq!(Num::from_int(-2).raw(), -2 * ONE);
    assert_eq!(Num::from_int(0).raw(), 0);
}

#[test]
fn zero_and_one() {
    assert_eq!(Num::zero().raw(), 0);
    assert_eq!(Num::one().raw(), ONE);
}

#[test]
fn abs_and_neg() {
    assert_eq!(n(-7).abs().raw(), 7);
    assert_eq!(n(7).abs().raw(), 7);
    assert_eq!(n(7).neg().raw(), -7);
}

#[test]
fn comparisons() {
    assert!(n(1).lt(n(2)));
    assert!(n(2).le(n(2)));
    assert!(n(3).gt(n(2)));
    assert!(n(2).ge(n(2)));
    assert!(!n(2).lt(n(2)));
}

#[test]
fn div_int_truncates() {
    assert_eq!(n(5).div_int(2).raw(), 2);
    assert_eq!(n(-5).div_int(2).raw(), -2);
}

#[test]
fn sqrt_exact_square() {
    assert_eq!(n(2_250_000_000).sqrt().raw(), 1_500_000_000);
    assert_eq!(n(4 * ONE).sqrt().raw(), 2 * ONE);
}

#[test]
fn sqrt_rounds_down() {
    assert_eq!(n(2 * ONE).sqrt().raw(), 1_414_213_562);
}

#[test]
fn sqrt_zero() {
    assert_eq!(n(0).sqrt().raw(), 0);
}

#[test]
fn ln_half_is_close() {
    let got = n(500_000_000).ln().raw() as f64 / 1e9;
    let expect = (0.5f64).ln();
    assert!((got - expect).abs() < 1e-7, "got {got}, expected {expect}");
}

#[test]
fn ln_tenth_is_close() {
    let got = n(100_000_000).ln().raw() as f64 / 1e9;
    let expect = (0.1f64).ln();
    assert!((got - expect).abs() < 1e-7, "got {got}, expected {expect}");
}

#[test]
fn ln_thousandth_is_close() {
    let got = n(1_000_000).ln().raw() as f64 / 1e9;
    let expect = (0.001f64).ln();
    assert!((got - expect).abs() < 1e-7, "got {got}, expected {expect}");
}

#[test]
fn residual_variants_compare() {
    assert_eq!(Residual::Finite(n(5)), Residual::Finite(n(5)));
    assert_ne!(Residual::Finite(n(5)), Residual::Invalid);
    assert_eq!(Residual::Invalid, Residual::Invalid);
}
