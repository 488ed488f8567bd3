//! The iterative orthogonal-distance solver for binary phase-equilibrium
//! curves.
//!
//! For one experimental point `(T, p, x)` the solver looks for the point of
//! the model's predicted equilibrium curve at temperature `T` that is closest
//! to `(x, p)` in the normalized composition/reduced-pressure plane, by a
//! damped fixed-point iteration: each round queries the curve at a trial
//! composition and at a finite-difference neighbor, builds the local tangent,
//! and moves the trial composition along it.  The distance of the last round
//! is the point's residual.  A failed curve query ends the point with the
//! fixed penalty of ten; so does a round in which the tangent points away
//! from the experimental point, where the step formula has no real value —
//! inexact arithmetic would degenerate there in the same way.
use vstd::prelude::*;
use crate::num::{
    Num, q_add, q_sub, q_mul, q_div, q_sqrt, iabs, SCALE, lemma_square_nonneg, lemma_zero_ops,
};
use crate::model::ThermoModel;

verus! {

/// Finite-difference step on the composition axis, `1e-4`.
pub const DX_UNITS: i128 = 100_000;

/// Convergence tolerance on the correction magnitude, `1e-9`.
pub const TOL_UNITS: i128 = 1;

/// Bound under which a late correction counts as nearly converged, `1e-5`.
pub const NEAR_UNITS: i128 = 10_000;

/// The fixed residual a point receives when a curve query fails, `10`.
pub const PENALTY_UNITS: i128 = 10_000_000_000;

/// Hard cap on the rounds spent on one point.
pub const MAX_ITER: usize = 60;

/// Which equilibrium curve the solver fits against: the bubble-point curve
/// over liquid compositions, or the dew-point curve over vapor compositions.
#[derive(Clone, Copy, Debug, PartialEq, Eq, Structural)]
pub enum CurveSide {
    Bubble,
    Dew,
}

/// What the damping factor of round `k` is, given the previous correction:
/// three quarters in the first three rounds, one half late in the iteration
/// once the correction magnitude is already small, one quarter very late,
/// and one otherwise.
pub open spec fn damping_spec(k: int, shift: int) -> int {
    if k <= 2 {
        750_000_000
    } else if k > 8 && iabs(shift) < NEAR_UNITS as int {
        500_000_000
    } else if k > 25 {
        250_000_000
    } else {
        SCALE as int
    }
}

/// The damping factor of round `k`, given the previous correction.
pub fn damping_factor(k: usize, shift: Num) -> (r: Num)
    ensures
        r@ == damping_spec(k as int, shift@),
{
    if k <= 2 {
        Num::new(750_000_000)
    } else if k > 8 && shift.abs().lt(Num::new(NEAR_UNITS)) {
        Num::new(500_000_000)
    } else if k > 25 {
        Num::new(250_000_000)
    } else {
        Num::one()
    }
}

/// What the finite-difference direction becomes before the neighbor query:
/// it flips inward when the trial composition has come too close to one.
pub open spec fn flip_spec(x_f: int, dxi: int) -> int {
    if x_f > q_sub(SCALE as int, dxi) {
        -dxi
    } else {
        dxi
    }
}

/// Flip the finite-difference direction inward when the trial composition
/// has come too close to one.
pub fn flip_direction(x_f: Num, dxi: Num) -> (r: Num)
    ensures
        r@ == flip_spec(x_f@, dxi@),
{
    if x_f.gt(Num::one().sub(dxi)) {
        dxi.neg()
    } else {
        dxi
    }
}

/// The offset of the experimental point from the trial curve point, in the
/// composition coordinate.
pub open spec fn offset_x_spec(x_exp: int, x_f: int) -> int {
    q_sub(x_exp, x_f)
}

/// The offset of the experimental point from the trial curve point, in the
/// reduced-pressure coordinate.
pub open spec fn offset_y_spec(p_exp: int, p1: int) -> int {
    q_div(q_sub(p_exp, p1), p_exp)
}

/// What the round's distance is: the Euclidean norm of the offset vector.
pub open spec fn step_residual_spec(x_exp: int, p_exp: int, x_f: int, p1: int) -> int {
    let ox = offset_x_spec(x_exp, x_f);
    let oy = offset_y_spec(p_exp, p1);
    q_sqrt(q_add(q_mul(ox, ox), q_mul(oy, oy)))
}

/// The reduced-pressure component of the unnormalized tangent vector.
pub open spec fn tangent_y_spec(p_exp: int, p1: int, p2: int) -> int {
    q_div(q_sub(p2, p1), p_exp)
}

/// The norm the tangent vector is divided by.
pub open spec fn tangent_norm_spec(p_exp: int, dxi: int, p1: int, p2: int) -> int {
    let ty = tangent_y_spec(p_exp, p1, p2);
    q_sqrt(q_add(q_mul(dxi, dxi), q_mul(ty, ty)))
}

/// The inner product of the normalized tangent with the offset vector.
pub open spec fn dot_spec(x_exp: int, p_exp: int, x_f: int, dxi: int, p1: int, p2: int) -> int {
    let nrm = tangent_norm_spec(p_exp, dxi, p1, p2);
    let lx = q_div(dxi, nrm);
    let ly = q_div(tangent_y_spec(p_exp, p1, p2), nrm);
    q_add(q_mul(lx, offset_x_spec(x_exp, x_f)), q_mul(ly, offset_y_spec(p_exp, p1)))
}

/// Whether the round degenerates: a negative inner product leaves the step
/// formula without a real square root.
pub open spec fn step_diverged_spec(
    x_exp: int,
    p_exp: int,
    x_f: int,
    dxi: int,
    p1: int,
    p2: int,
) -> bool {
    dot_spec(x_exp, p_exp, x_f, dxi, p1, p2) < 0
}

/// What the round's new correction is: the tangent's composition component
/// times the square root of the inner product, clamped into
/// `[-x_f, x_f]` — first from above, then from below.
pub open spec fn step_shift_spec(
    x_exp: int,
    p_exp: int,
    x_f: int,
    dxi: int,
    p1: int,
    p2: int,
) -> int {
    let nrm = tangent_norm_spec(p_exp, dxi, p1, p2);
    let lx = q_div(dxi, nrm);
    let raw = q_mul(lx, q_sqrt(dot_spec(x_exp, p_exp, x_f, dxi, p1, p2)));
    let s1 = if raw > x_f {
        x_f
    } else {
        raw
    };
    if s1 < -x_f {
        -x_f
    } else {
        s1
    }
}

/// One round of the solver, after the two curve queries: all the arithmetic
/// between the model answers `p1` (pressure at the trial composition) and
/// `p2` (pressure at the neighbor) and the next correction.
pub struct DistanceStep {
    /// The distance of this round, the point's residual if iteration ends.
    pub residual: Num,
    /// The clamped correction for the next round; zero on a degenerate round.
    pub shift: Num,
    /// Whether the correction is within tolerance, ending the point.
    pub converged: bool,
    /// Whether the round degenerated, ending the point with the penalty.
    pub diverged: bool,
}

/// One round of the distance iteration on the values the model returned.
pub fn distance_step(x_exp: Num, p_exp: Num, x_f: Num, dxi: Num, p1: Num, p2: Num) -> (r:
    DistanceStep)
    ensures
        r.residual@ == step_residual_spec(x_exp@, p_exp@, x_f@, p1@),
        r.diverged == step_diverged_spec(x_exp@, p_exp@, x_f@, dxi@, p1@, p2@),
        !r.diverged ==> r.shift@ == step_shift_spec(x_exp@, p_exp@, x_f@, dxi@, p1@, p2@),
        !r.diverged ==> r.converged == (iabs(r.shift@) <= TOL_UNITS as int),
        r.diverged ==> r.shift@ == 0 && !r.converged,
{
    let ox = x_exp.sub(x_f);
    let oy = p_exp.sub(p1).div(p_exp);
    proof {
        lemma_square_nonneg(ox@);
        lemma_square_nonneg(oy@);
    }
    let residual = ox.mul(ox).add(oy.mul(oy)).sqrt();
    let ty = p2.sub(p1).div(p_exp);
    proof {
        lemma_square_nonneg(dxi@);
        lemma_square_nonneg(ty@);
    }
    let nrm = dxi.mul(dxi).add(ty.mul(ty)).sqrt();
    let lx = dxi.div(nrm);
    let ly = ty.div(nrm);
    let dot = lx.mul(ox).add(ly.mul(oy));
    if dot.lt(Num::zero()) {
        DistanceStep { residual, shift: Num::zero(), converged: false, diverged: true }
    } else {
        let mut shift = lx.mul(dot.sqrt());
        if shift.gt(x_f) {
            shift = x_f;
        }
        if shift.lt(x_f.neg()) {
            shift = x_f.neg();
        }
        let converged = shift.abs().le(Num::new(TOL_UNITS));
        DistanceStep { residual, shift, converged, diverged: false }
    }
}

/// An experimental point that lies exactly on the predicted curve ends the
/// iteration at once: with the trial composition at the experimental
/// composition and the curve returning the experimental pressure, the
/// round's distance is exactly zero, the round does not degenerate, and the
/// new correction is exactly zero — within tolerance, whatever the model
/// answered for the neighbor.
pub proof fn lemma_step_on_curve(x: int, p: int, dxi: int, p2: int)
    requires
        p != 0,
        x >= 0,
    ensures
        step_residual_spec(x, p, x, p) == 0,
        !step_diverged_spec(x, p, x, dxi, p, p2),
        step_shift_spec(x, p, x, dxi, p, p2) == 0,
{
    let nrm = tangent_norm_spec(p, dxi, p, p2);
    let lx = q_div(dxi, nrm);
    let ly = q_div(tangent_y_spec(p, p, p2), nrm);
    lemma_zero_ops(0, p);
    lemma_zero_ops(lx, p);
    lemma_zero_ops(ly, p);
    assert(offset_x_spec(x, x) == 0);
    assert(offset_y_spec(p, p) == q_div(0, p));
    assert(step_residual_spec(x, p, x, p) == q_sqrt(q_add(q_mul(0, 0), q_mul(0, 0))));
    assert(dot_spec(x, p, x, dxi, p, p2) == q_add(q_mul(lx, 0), q_mul(ly, 0)));
    assert(dot_spec(x, p, x, dxi, p, p2) == 0);
}

/// A round's distance is never negative: it is a square root.
pub proof fn lemma_step_residual_nonneg(x_exp: int, p_exp: int, x_f: int, p1: int)
    ensures
        step_residual_spec(x_exp, p_exp, x_f, p1) >= 0,
{
}

/// The residual the distance fit reports for one experimental point
/// `(temperature, pressure, molefrac)` against the chosen curve of the
/// model, with the measured pressure as the solver seed and, if given, the
/// conjugate composition as a hint.  A failed query or a degenerate round
/// ends the point with the fixed penalty of ten at once; otherwise the
/// damped iteration runs until the correction is within tolerance or the
/// round cap is reached, and the last round's distance is reported: whatever
/// the model answered, the result is nonnegative, and it is either the
/// penalty or the distance between the experimental point and a queried
/// curve point.
pub fn distance_residual<M: ThermoModel>(
    model: &M,
    side: CurveSide,
    temperature: Num,
    pressure: Num,
    molefrac: Num,
    conjugate_hint: Option<Num>,
) -> (r: Num)
    ensures
        r@ >= 0,
        r@ == PENALTY_UNITS as int || exists|xf: int, p1: int|
            r@ == #[trigger] step_residual_spec(molefrac@, pressure@, xf, p1),
{
    let mut dxi = if molefrac.lt(Num::new(500_000_000)) {
        Num::new(DX_UNITS)
    } else {
        Num::new(DX_UNITS).neg()
    };
    let mut shift = Num::zero();
    let mut result = Num::zero();
    let mut k: usize = 0;
    while k < MAX_ITER
        invariant
            k <= MAX_ITER,
            result@ >= 0,
            k > 0 ==> exists|xf: int, p1: int|
                result@ == #[trigger] step_residual_spec(molefrac@, pressure@, xf, p1),
        decreases MAX_ITER - k,
    {
        let damping = damping_factor(k, shift);
        let x_f = molefrac.add(shift.mul(damping));
        let p1 = match curve_pressure(model, side, temperature, x_f, pressure, conjugate_hint) {
            Ok(p) => p,
            Err(_) => {
                return failure_penalty();
            },
        };
        dxi = flip_direction(x_f, dxi);
        let x_b = x_f.add(dxi);
        let p2 = match curve_pressure(model, side, temperature, x_b, pressure, conjugate_hint) {
            Ok(p) => p,
            Err(_) => {
                return failure_penalty();
            },
        };
        let step = distance_step(molefrac, pressure, x_f, dxi, p1, p2);
        if step.diverged {
            return failure_penalty();
        }
        result = step.residual;
        shift = step.shift;
        proof {
            lemma_step_residual_nonneg(molefrac@, pressure@, x_f@, p1@);
            assert(result@ == step_residual_spec(molefrac@, pressure@, x_f@, p1@));
        }
        if step.converged {
            return result;
        }
        k += 1;
    }
    result
}

/// The fixed residual of a point whose curve queries failed: exactly ten.
pub fn failure_penalty() -> (r: Num)
    ensures
        r@ == PENALTY_UNITS as int,
        r@ == 10 * (SCALE as int),
{
    Num::new(PENALTY_UNITS)
}

/// One curve query on the chosen side.
fn curve_pressure<M: ThermoModel>(
    model: &M,
    side: CurveSide,
    temperature: Num,
    molefrac: Num,
    pressure_seed: Num,
    conjugate_hint: Option<Num>,
) -> Result<Num, crate::model::ModelError> {
    match side {
        CurveSide::Bubble => model.bubble_point(
            temperature,
            molefrac,
            Some(pressure_seed),
            conjugate_hint,
        ),
        CurveSide::Dew => model.dew_point(
            temperature,
            molefrac,
            Some(pressure_seed),
            conjugate_hint,
        ),
    }
}

} // verus!
