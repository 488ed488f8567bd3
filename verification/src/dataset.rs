//! The closed family of experimental data sets, and the residual helpers all
//! of them share.
//!
//! Each variant stores one experimental series, immutable after
//! construction, and can be evaluated any number of times against different
//! model parameterizations.  Every cost path applies the chosen loss and
//! then divides by the number of data points, so data sets of different
//! sizes weigh alike.
use vstd::prelude::*;
use crate::num::{Num, Residual, q_sub, q_div, q_div_int};
use crate::loss::{Loss, loss_spec};
use crate::model::ThermoModel;
use crate::vapor_pressure::VaporPressure;
use crate::liquid_density::{LiquidDensity, EquilibriumLiquidDensity};
use crate::binary_vle::{BinaryTPx, BinaryTPy, BinaryTPxy};
use crate::EstimatorError;

verus! {

/// One experimental data set: the closed family of variants, dispatched by
/// an explicit match.
pub enum DataSet {
    VaporPressure(VaporPressure),
    LiquidDensity(LiquidDensity),
    EquilibriumLiquidDensity(EquilibriumLiquidDensity),
    BinaryTPx(BinaryTPx),
    BinaryTPy(BinaryTPy),
    BinaryTPxy(BinaryTPxy),
}

impl DataSet {
    /// The number of measured points.
    pub open spec fn dp(&self) -> int {
        match self {
            DataSet::VaporPressure(d) => d.dp(),
            DataSet::LiquidDensity(d) => d.dp(),
            DataSet::EquilibriumLiquidDensity(d) => d.dp(),
            DataSet::BinaryTPx(d) => d.dp(),
            DataSet::BinaryTPy(d) => d.dp(),
            DataSet::BinaryTPxy(d) => d.dp(),
        }
    }

    /// The length of the residual vector this data set produces: the number
    /// of measured points, doubled for the two stacked blocks of the
    /// `(T, p, x, y)` variant under its pressure cost.
    pub open spec fn residual_len(&self) -> int {
        match self {
            DataSet::BinaryTPxy(d) => d.residual_len(),
            _ => self.dp(),
        }
    }

    /// The number of measured points.
    pub fn datapoints(&self) -> (n: usize)
        ensures
            n == self.dp(),
    {
        match self {
            DataSet::VaporPressure(d) => d.datapoints(),
            DataSet::LiquidDensity(d) => d.datapoints(),
            DataSet::EquilibriumLiquidDensity(d) => d.datapoints(),
            DataSet::BinaryTPx(d) => d.datapoints(),
            DataSet::BinaryTPy(d) => d.datapoints(),
            DataSet::BinaryTPxy(d) => d.datapoints(),
        }
    }

    /// The cost vector of this data set against a model: the variant's raw
    /// residuals with the loss applied and every entry divided by the number
    /// of measured points.  The vector's length depends only on the data
    /// set, never on the model; a model failure that no penalty or
    /// extrapolation absorbs aborts the evaluation.
    pub fn cost<M: ThermoModel>(&self, model: &M, loss: Loss) -> (r: Result<
        Vec<Residual>,
        EstimatorError,
    >)
        ensures
            match r {
                Ok(v) => v@.len() == self.residual_len(),
                Err(e) => e == EstimatorError::ModelError,
            },
    {
        match self {
            DataSet::VaporPressure(d) => d.cost(model, loss),
            DataSet::LiquidDensity(d) => d.cost(model, loss),
            DataSet::EquilibriumLiquidDensity(d) => d.cost(model, loss),
            DataSet::BinaryTPx(d) => d.cost(model, loss),
            DataSet::BinaryTPy(d) => d.cost(model, loss),
            DataSet::BinaryTPxy(d) => d.cost(model, loss),
        }
    }
}

/// The greatest value held in a nonempty sequence.
pub open spec fn seq_max(s: Seq<Num>) -> int
    decreases s.len(),
{
    if s.len() <= 1 {
        if s.len() == 0 {
            0
        } else {
            s[0]@
        }
    } else {
        let m = seq_max(s.drop_last());
        if s.last()@ > m {
            s.last()@
        } else {
            m
        }
    }
}

/// The greatest entry of a nonempty vector.
pub fn max_of(v: &Vec<Num>) -> (r: Num)
    requires
        v@.len() >= 1,
    ensures
        r@ == seq_max(v@),
{
    let mut r = v[0];
    let mut i: usize = 1;
    while i < v.len()
        invariant
            1 <= i <= v@.len(),
            r@ == seq_max(v@.subrange(0, i as int)),
        decreases v@.len() - i,
    {
        proof {
            assert(v@.subrange(0, i + 1).drop_last() =~= v@.subrange(0, i as int));
            assert(v@.subrange(0, i + 1).last() == v@[i as int]);
        }
        let c = v[i];
        if c.gt(r) {
            r = c;
        }
        i += 1;
    }
    proof {
        assert(v@.subrange(0, v@.len() as int) =~= v@);
    }
    r
}

/// What the signed relative deviation of a predicted from a target value
/// is, in units of the target; an invalid prediction stays invalid.
pub open spec fn relative_difference_spec(target: int, prediction: Option<int>) -> Option<int> {
    match prediction {
        Some(p) => Some(q_div(q_sub(p, target), target)),
        None => None,
    }
}

/// Whether a raw residual is the signed relative deviation of some
/// model-returned value from the measured one.
pub open spec fn raw_deviation(measured: int, e: Option<int>) -> bool {
    match e {
        Some(d) => exists|p: int| d == q_div(#[trigger] q_sub(measured, p), measured),
        None => false,
    }
}

/// One entry of a finished pressure-cost vector: the finalized signed
/// relative deviation of some model-returned pressure from the measured one.
pub open spec fn deviation_entry(measured: int, loss: Loss, dp: int, e: Option<int>) -> bool {
    exists|e0: Option<int>|
        raw_deviation(measured, e0) && e == #[trigger] finalize_spec(loss, dp, e0)
}

/// Signed relative deviation of a prediction from the measured value, in
/// units of the measured value.
pub fn relative_deviation(measured: Num, predicted: Num) -> (r: Num)
    ensures
        r@ == q_div(q_sub(measured@, predicted@), measured@),
{
    measured.sub(predicted).div(measured)
}

/// Signed relative deviation of a predicted from a target value, in units of
/// the target; an invalid prediction gives an invalid residual.
pub fn density_deviation(target: Num, predicted: Residual) -> (r: Residual)
    ensures
        r@ == relative_difference_spec(target@, predicted@),
{
    match predicted {
        Residual::Finite(p) => Residual::Finite(p.sub(target).div(target)),
        Residual::Invalid => Residual::Invalid,
    }
}

/// An element-for-element copy of a vector of scalars.
pub fn copy_vec(v: &Vec<Num>) -> (r: Vec<Num>)
    ensures
        r@ == v@,
{
    let mut r: Vec<Num> = Vec::new();
    let mut i: usize = 0;
    while i < v.len()
        invariant
            i <= v@.len(),
            r@ == v@.subrange(0, i as int),
        decreases v@.len() - i,
    {
        r.push(v[i]);
        proof {
            assert(r@ =~= v@.subrange(0, i + 1));
        }
        i += 1;
    }
    proof {
        assert(v@.subrange(0, v@.len() as int) =~= v@);
    }
    r
}

/// The elementwise relative differences between predictions and targets, in
/// units of the target; invalid predictions stay invalid.
pub fn relative_differences(target: &Vec<Num>, prediction: &Vec<Residual>) -> (r: Vec<Residual>)
    requires
        target@.len() == prediction@.len(),
    ensures
        r@.len() == target@.len(),
        forall|i: int|
            0 <= i < r@.len() ==> (#[trigger] r@[i])@ == relative_difference_spec(
                target@[i]@,
                prediction@[i]@,
            ),
{
    let mut r: Vec<Residual> = Vec::new();
    let mut i: usize = 0;
    while i < target.len()
        invariant
            target@.len() == prediction@.len(),
            i <= target@.len(),
            r@.len() == i,
            forall|j: int|
                0 <= j < i ==> (#[trigger] r@[j])@ == relative_difference_spec(
                    target@[j]@,
                    prediction@[j]@,
                ),
        decreases target@.len() - i,
    {
        r.push(density_deviation(target[i], prediction[i]));
        i += 1;
    }
    r
}

/// What one entry of a finished cost vector is: the loss applied to the raw
/// residual, then divided by the number of data points.
pub open spec fn finalize_spec(l: Loss, n: int, e: Option<int>) -> Option<int> {
    match loss_spec(l, e) {
        None => None,
        Some(v) => Some(q_div_int(v, n)),
    }
}

/// Apply the loss to every entry and normalize by the number of data
/// points, in place.
pub fn finalize_cost(res: &mut Vec<Residual>, loss: Loss, datapoints: usize)
    requires
        old(res)@.len() == 0 || datapoints >= 1,
    ensures
        final(res)@.len() == old(res)@.len(),
        forall|i: int|
            0 <= i < final(res)@.len() ==> (#[trigger] final(res)@[i])@ == finalize_spec(
                loss,
                datapoints as int,
                old(res)@[i]@,
            ),
{
    loss.apply(res);
    let n = res.len();
    let mut i: usize = 0;
    while i < n
        invariant
            n == res@.len(),
            n == old(res)@.len(),
            n == 0 || datapoints >= 1,
            i <= n,
            forall|j: int|
                0 <= j < i ==> (#[trigger] res@[j])@ == finalize_spec(
                    loss,
                    datapoints as int,
                    old(res)@[j]@,
                ),
            forall|j: int|
                i <= j < n ==> (#[trigger] res@[j])@ == loss_spec(loss, old(res)@[j]@),
        decreases n - i,
    {
        let ne = match res[i] {
            Residual::Invalid => Residual::Invalid,
            Residual::Finite(v) => Residual::Finite(v.div_int(datapoints as i128)),
        };
        res[i] = ne;
        i += 1;
    }
}

} // verus!
