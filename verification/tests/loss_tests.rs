use estimator::num::{Num, Residual};
use estimator::Loss;

fn n(units: i128) -> Num {
    Num::new(units)
}

const ONE: i128 = 1_000_000_000;

fn apply(loss: Loss, entries: Vec<Residual>) -> Vec<Residual> {
    let mut v = entries;
    loss.apply(&mut v);
    v
}

#[test]
fn linear_is_identity() {
    let v = vec![
        Residual::Finite(n(123)),
        Residual::Invalid,
        Residual::Finite(n(-7 * ONE)),
    ];
    assert_eq!(apply(Loss::Linear, v.clone()), v);
}

#[test]
fn huber_keeps_residuals_within_scale() {
    let out = apply(
        Loss::Huber(n(ONE)),
        vec![Residual::Finite(n(500_000_000)), Residual::Finite(n(-ONE))],
    );
    assert_eq!(
        out,
        vec![Residual::Finite(n(500_000_000)), Residual::Finite(n(-ONE))]
    );
}

#[test]
fn huber_replaces_outliers() {
    // s = 1, r = 2: 2*|r|/s - 1 = 3.
    let out = apply(Loss::Huber(n(ONE)), vec![Residual::Finite(n(2 * ONE))]);
    assert_eq!(out, vec![Residual::Finite(n(3 * ONE))]);
}

#[test]
fn huber_drops_the_sign_of_outliers() {
    let out = apply(Loss::Huber(n(ONE)), vec![Residual::Finite(n(-2 * ONE))]);
    assert_eq!(out, vec![Residual::Finite(n(3 * ONE))]);
    let far = apply(Loss::Huber(n(ONE)), vec![Residual::Finite(n(-5 * ONE))]);
    assert_eq!(far, vec![Residual::Finite(n(9 * ONE))]);
}

#[test]
fn huber_fractional_scale() {
    // s = 2, r = 3: 2*(3/2) - 1 = 2.
    let out = apply(Loss::Huber(n(2 * ONE)), vec![Residual::Finite(n(3 * ONE))]);
    assert_eq!(out, vec![Residual::Finite(n(2 * ONE))]);
}

#[test]
fn huber_passes_invalid_through() {
    let out = apply(Loss::Huber(n(ONE)), vec![Residual::Invalid]);
    assert_eq!(out, vec![Residual::Invalid]);
}

#[test]
fn huber_constructor() {
    assert_eq!(Loss::huber(n(ONE)), Loss::Huber(n(ONE)));
}

#[test]
fn apply_one_matches_vector_path() {
    let loss = Loss::Huber(n(ONE));
    let single = loss.apply_one(n(4 * ONE));
    let via_vec = apply(loss, vec![Residual::Finite(n(4 * ONE))]);
    assert_eq!(via_vec, vec![Residual::Finite(single)]);
}
