//! Experimental liquid-density data compared against the equation of state.
use vstd::prelude::*;
use crate::num::{Num, Residual, q_sub, q_div, q_mul, q_add, ln_spec, SCALE};
use crate::model::{ThermoModel, Phase};
use crate::loss::Loss;
use crate::dataset::{
    seq_max, max_of, copy_vec, relative_differences, relative_difference_spec, finalize_cost,
    finalize_spec,
};
use crate::EstimatorError;
use std::collections::HashMap;

verus! {

/// Euler's number inverted, in `1e-9` units: the reduced-temperature bound
/// below which the density extrapolation follows the logarithmic branch.
pub const E_INV_UNITS: i128 = 367_879_441;

/// An experimental liquid-density series over measured temperatures and
/// pressures: the model is asked for a single-phase liquid state at each
/// measured point.
pub struct LiquidDensity {
    target: Vec<Num>,
    temperature: Vec<Num>,
    pressure: Vec<Num>,
    datapoints: usize,
}

impl LiquidDensity {
    #[verifier::type_invariant]
    spec fn wf(self) -> bool {
        &&& self.target@.len() == self.datapoints
        &&& self.temperature@.len() == self.datapoints
        &&& self.pressure@.len() == self.datapoints
    }

    /// The measured densities.
    pub closed spec fn targets(&self) -> Seq<Num> {
        self.target@
    }

    /// The measured temperatures.
    pub closed spec fn temperatures(&self) -> Seq<Num> {
        self.temperature@
    }

    /// The measured pressures.
    pub closed spec fn pressures(&self) -> Seq<Num> {
        self.pressure@
    }

    /// The number of data points.
    pub closed spec fn dp(&self) -> int {
        self.datapoints as int
    }

    /// A new liquid-density data set over measured temperatures and
    /// pressures; the three arrays must be of one length.
    pub fn new(target: Vec<Num>, temperature: Vec<Num>, pressure: Vec<Num>) -> (r: Result<
        LiquidDensity,
        EstimatorError,
    >)
        ensures
            match r {
                Ok(d) => {
                    &&& target@.len() == temperature@.len()
                    &&& target@.len() == pressure@.len()
                    &&& d.targets() == target@
                    &&& d.temperatures() == temperature@
                    &&& d.pressures() == pressure@
                    &&& d.dp() == target@.len()
                },
                Err(e) => {
                    &&& e == EstimatorError::IncompatibleInput
                    &&& (target@.len() != temperature@.len() || target@.len() != pressure@.len())
                },
            },
    {
        let datapoints = target.len();
        if temperature.len() != datapoints || pressure.len() != datapoints {
            return Err(EstimatorError::IncompatibleInput);
        }
        Ok(LiquidDensity { target, temperature, pressure, datapoints })
    }

    /// The measured temperatures of the data points.
    pub fn temperature(&self) -> (r: Vec<Num>)
        ensures
            r@ == self.temperatures(),
    {
        copy_vec(&self.temperature)
    }

    /// The measured pressures of the data points.
    pub fn pressure(&self) -> (r: Vec<Num>)
        ensures
            r@ == self.pressures(),
    {
        copy_vec(&self.pressure)
    }

    /// The measured densities of the data points.
    pub fn target(&self) -> (r: Vec<Num>)
        ensures
            r@ == self.targets(),
    {
        copy_vec(&self.target)
    }

    /// The length of the residual vector this data set produces.
    pub fn datapoints(&self) -> (n: usize)
        ensures
            n == self.dp(),
    {
        self.datapoints
    }

    /// A short name for the compared quantity.
    pub fn target_str(&self) -> (r: &'static str)
        ensures
            r@ == "liquid density"@,
    {
        "liquid density"
    }

    /// Short names for the independent variables.
    pub fn input_str(&self) -> (r: Vec<&'static str>)
        ensures
            r@.len() == 2,
            r@[0]@ == "temperature"@,
            r@[1]@ == "pressure"@,
    {
        let mut v: Vec<&'static str> = Vec::new();
        v.push("temperature");
        v.push("pressure");
        v
    }

    /// The independent variables, keyed by their names.
    pub fn get_input(&self) -> HashMap<String, Vec<Num>> {
        let mut m: HashMap<String, Vec<Num>> = HashMap::new();
        m.insert("temperature".to_owned(), self.temperature());
        m.insert("pressure".to_owned(), self.pressure());
        m
    }

    /// The model's density prediction at every measured point: a single-phase
    /// liquid state at the measured temperature and pressure.  A failed
    /// state construction aborts the evaluation — no penalty or fallback is
    /// defined for this data set.
    pub fn predict<M: ThermoModel>(&self, model: &M) -> (r: Result<Vec<Residual>, EstimatorError>)
        ensures
            match r {
                Ok(v) => {
                    &&& v@.len() == self.dp()
                    &&& forall|i: int| 0 <= i < v@.len() ==> (#[trigger] v@[i])@ is Some
                },
                Err(e) => e == EstimatorError::ModelError,
            },
    {
        proof {
            use_type_invariant(self);
        }
        let mut prediction: Vec<Residual> = Vec::new();
        let mut i: usize = 0;
        while i < self.datapoints
            invariant
                self.wf(),
                i <= self.datapoints,
                prediction@.len() == i,
                forall|j: int| 0 <= j < i ==> (#[trigger] prediction@[j])@ is Some,
            decreases self.datapoints - i,
        {
            match model.mass_density(self.temperature[i], self.pressure[i], Phase::Liquid) {
                Ok(d) => prediction.push(Residual::Finite(d)),
                Err(_) => {
                    return Err(EstimatorError::ModelError);
                },
            }
            i += 1;
        }
        Ok(prediction)
    }

    /// The cost vector against a model: at each point the finalized relative
    /// deviation of the model's density from the target — the loss applied,
    /// divided by the number of data points.  A model failure aborts the
    /// evaluation.
    pub fn cost<M: ThermoModel>(&self, model: &M, loss: Loss) -> (r: Result<
        Vec<Residual>,
        EstimatorError,
    >)
        ensures
            match r {
                Ok(v) => {
                    &&& v@.len() == self.dp()
                    &&& forall|i: int|
                        0 <= i < v@.len() ==> density_cost_entry(
                            self.targets()[i]@,
                            loss,
                            self.dp(),
                            (#[trigger] v@[i])@,
                        )
                },
                Err(e) => e == EstimatorError::ModelError,
            },
    {
        proof {
            use_type_invariant(self);
        }
        let prediction = match self.predict(model) {
            Ok(p) => p,
            Err(e) => {
                return Err(e);
            },
        };
        let mut cost = relative_differences(&self.target, &prediction);
        let ghost pre = cost@;
        finalize_cost(&mut cost, loss, self.datapoints);
        proof {
            assert forall|i: int| 0 <= i < cost@.len() implies density_cost_entry(
                self.targets()[i]@,
                loss,
                self.dp(),
                (#[trigger] cost@[i])@,
            ) by {
                match prediction@[i]@ {
                    Some(d) => {
                        assert(cost@[i]@ == finalize_spec(
                            loss,
                            self.dp(),
                            Some(q_div(q_sub(d, self.targets()[i]@), self.targets()[i]@)),
                        ));
                    },
                    None => {
                        assert(false);
                    },
                }
            }
        }
        Ok(cost)
    }
}

/// One entry of a finished liquid-density cost vector: the finalized
/// relative deviation of some model-returned density from the point's
/// target.
pub open spec fn density_cost_entry(target: int, loss: Loss, dp: int, e: Option<int>) -> bool {
    exists|d: int| e == finalize_spec(loss, dp, Some(q_div(#[trigger] q_sub(d, target), target)))
}

/// An experimental equilibrium-liquid-density series: only the temperature
/// is measured, the density is read off the liquid branch of the
/// pure-component phase equilibrium.  Where the equilibrium solver fails the
/// series either extrapolates analytically or marks the point invalid.
pub struct EquilibriumLiquidDensity {
    target: Vec<Num>,
    temperature: Vec<Num>,
    max_temperature: Num,
    datapoints: usize,
    extrapolate: bool,
}

impl EquilibriumLiquidDensity {
    #[verifier::type_invariant]
    spec fn wf(self) -> bool {
        &&& self.target@.len() == self.datapoints
        &&& self.temperature@.len() == self.datapoints
        &&& self.datapoints >= 1
        &&& self.max_temperature@ == seq_max(self.temperature@)
    }

    /// The measured densities.
    pub closed spec fn targets(&self) -> Seq<Num> {
        self.target@
    }

    /// The measured temperatures.
    pub closed spec fn temperatures(&self) -> Seq<Num> {
        self.temperature@
    }

    /// The cached greatest measured temperature.
    pub closed spec fn max_temp(&self) -> int {
        self.max_temperature@
    }

    /// Whether failed equilibria are extrapolated.
    pub closed spec fn extrapolates(&self) -> bool {
        self.extrapolate
    }

    /// The number of data points.
    pub closed spec fn dp(&self) -> int {
        self.datapoints as int
    }

    /// A new equilibrium-liquid-density data set.  The series must be
    /// nonempty and the two arrays of one length; the greatest temperature
    /// is cached to bound the critical-point search.
    pub fn new(target: Vec<Num>, temperature: Vec<Num>, extrapolate: bool) -> (r: Result<
        EquilibriumLiquidDensity,
        EstimatorError,
    >)
        ensures
            match r {
                Ok(d) => {
                    &&& target@.len() == temperature@.len()
                    &&& target@.len() >= 1
                    &&& d.targets() == target@
                    &&& d.temperatures() == temperature@
                    &&& d.dp() == target@.len()
                    &&& d.max_temp() == seq_max(temperature@)
                    &&& d.extrapolates() == extrapolate
                },
                Err(e) => {
                    &&& e == EstimatorError::IncompatibleInput
                    &&& (target@.len() != temperature@.len() || target@.len() == 0)
                },
            },
    {
        let datapoints = target.len();
        if datapoints == 0 || temperature.len() != datapoints {
            return Err(EstimatorError::IncompatibleInput);
        }
        let max_temperature = max_of(&temperature);
        Ok(
            EquilibriumLiquidDensity {
                target,
                temperature,
                max_temperature,
                datapoints,
                extrapolate,
            },
        )
    }

    /// The measured temperatures of the data points.
    pub fn temperature(&self) -> (r: Vec<Num>)
        ensures
            r@ == self.temperatures(),
    {
        copy_vec(&self.temperature)
    }

    /// The measured densities of the data points.
    pub fn target(&self) -> (r: Vec<Num>)
        ensures
            r@ == self.targets(),
    {
        copy_vec(&self.target)
    }

    /// The length of the residual vector this data set produces.
    pub fn datapoints(&self) -> (n: usize)
        ensures
            n == self.dp(),
    {
        self.datapoints
    }

    /// A short name for the compared quantity.
    pub fn target_str(&self) -> (r: &'static str)
        ensures
            r@ == "equilibrium liquid density"@,
    {
        "equilibrium liquid density"
    }

    /// Short names for the independent variables.
    pub fn input_str(&self) -> (r: Vec<&'static str>)
        ensures
            r@.len() == 1,
            r@[0]@ == "temperature"@,
    {
        let mut v: Vec<&'static str> = Vec::new();
        v.push("temperature");
        v
    }

    /// The independent variables, keyed by their names.
    pub fn get_input(&self) -> HashMap<String, Vec<Num>> {
        let mut m: HashMap<String, Vec<Num>> = HashMap::new();
        m.insert("temperature".to_owned(), self.temperature());
        m
    }

    /// One prediction entry, given the critical pair `(tc, rho_c)` the model
    /// returned: a solved equilibrium density, or — exactly where the solve
    /// failed — the analytic extrapolation when extrapolation is on and the
    /// invalid marker when it is off.
    pub open spec fn prediction_entry(&self, tc: int, rho_c: int, i: int, e: Option<int>) -> bool {
        ||| e is Some
        ||| (self.extrapolates() && e == extrapolation_spec(self.temperatures()[i]@, tc, rho_c))
        ||| (!self.extrapolates() && e == None::<int>)
    }

    /// Every prediction is as [`Self::prediction_entry`] states, for one
    /// critical pair.
    pub open spec fn predictions_from(&self, tc: int, rho_c: int, v: Seq<Residual>) -> bool {
        forall|i: int|
            0 <= i < v.len() ==> self.prediction_entry(tc, rho_c, i, (#[trigger] v[i])@)
    }

    /// One finished cost entry: the finalized relative deviation of a
    /// prediction as [`Self::prediction_entry`] states, from the point's
    /// target.
    pub open spec fn cost_entry_from(
        &self,
        loss: Loss,
        tc: int,
        rho_c: int,
        i: int,
        e: Option<int>,
    ) -> bool {
        exists|p: Option<int>|
            {
                &&& e == finalize_spec(
                    loss,
                    self.dp(),
                    #[trigger] relative_difference_spec(self.targets()[i]@, p),
                )
                &&& self.prediction_entry(tc, rho_c, i, p)
            }
    }

    /// Every finished cost entry is as [`Self::cost_entry_from`] states, for
    /// one critical pair.
    pub open spec fn costs_from(&self, loss: Loss, tc: int, rho_c: int, v: Seq<Residual>) -> bool {
        forall|i: int|
            0 <= i < v.len() ==> self.cost_entry_from(loss, tc, rho_c, i, (#[trigger] v[i])@)
    }

    /// The model's equilibrium density prediction at every measured
    /// temperature, from the liquid branch of the pure-component
    /// equilibrium.  Where that solve fails, the analytic extrapolation of
    /// [`extrapolated_density`] stands in if extrapolation was requested,
    /// else the invalid marker.  A failure of the critical-point search
    /// aborts the evaluation.
    pub fn predict<M: ThermoModel>(&self, model: &M) -> (r: Result<Vec<Residual>, EstimatorError>)
        ensures
            match r {
                Ok(v) => {
                    &&& v@.len() == self.dp()
                    &&& exists|tc: int, rho_c: int| #[trigger] self.predictions_from(
                        tc,
                        rho_c,
                        v@,
                    )
                },
                Err(e) => e == EstimatorError::ModelError,
            },
    {
        proof {
            use_type_invariant(self);
        }
        let critical_point = match model.critical_point(self.max_temperature) {
            Ok(c) => c,
            Err(_) => {
                return Err(EstimatorError::ModelError);
            },
        };
        let mut prediction: Vec<Residual> = Vec::new();
        let mut i: usize = 0;
        while i < self.datapoints
            invariant
                self.wf(),
                i <= self.datapoints,
                prediction@.len() == i,
                forall|j: int|
                    0 <= j < i ==> self.prediction_entry(
                        critical_point.temperature@,
                        critical_point.mass_density@,
                        j,
                        (#[trigger] prediction@[j])@,
                    ),
            decreases self.datapoints - i,
        {
            let t = self.temperature[i];
            match model.pure_equilibrium(t, None) {
                Ok(eq) => prediction.push(Residual::Finite(eq.liquid_mass_density)),
                Err(_) => {
                    if self.extrapolate {
                        prediction.push(
                            extrapolated_density(
                                t,
                                critical_point.temperature,
                                critical_point.mass_density,
                            ),
                        );
                    } else {
                        prediction.push(Residual::Invalid);
                    }
                },
            }
            i += 1;
        }
        proof {
            assert(exists|tc: int, rho_c: int| #[trigger] self.predictions_from(
                tc,
                rho_c,
                prediction@,
            )) by {
                assert(self.predictions_from(
                    critical_point.temperature@,
                    critical_point.mass_density@,
                    prediction@,
                ));
            }
        }
        Ok(prediction)
    }

    /// The cost vector against a model: at each point the finalized relative
    /// deviation of the prediction of [`Self::predict`] from the target —
    /// the loss applied, divided by the number of data points.
    pub fn cost<M: ThermoModel>(&self, model: &M, loss: Loss) -> (r: Result<
        Vec<Residual>,
        EstimatorError,
    >)
        ensures
            match r {
                Ok(v) => {
                    &&& v@.len() == self.dp()
                    &&& exists|tc2: int, rho_c2: int| #[trigger] self.costs_from(
                        loss,
                        tc2,
                        rho_c2,
                        v@,
                    )
                },
                Err(e) => e == EstimatorError::ModelError,
            },
    {
        proof {
            use_type_invariant(self);
        }
        let prediction = match self.predict(model) {
            Ok(p) => p,
            Err(e) => {
                return Err(e);
            },
        };
        let mut cost = relative_differences(&self.target, &prediction);
        let ghost pre = cost@;
        finalize_cost(&mut cost, loss, self.datapoints);
        proof {
            let (tc, rho_c) = choose|tc: int, rho_c: int|
                #[trigger] self.predictions_from(tc, rho_c, prediction@);
            assert forall|i: int| 0 <= i < cost@.len() implies self.cost_entry_from(
                loss,
                tc,
                rho_c,
                i,
                (#[trigger] cost@[i])@,
            ) by {
                assert(cost@[i]@ == finalize_spec(
                    loss,
                    self.dp(),
                    relative_difference_spec(self.targets()[i]@, prediction@[i]@),
                ));
                assert(self.prediction_entry(tc, rho_c, i, prediction@[i]@));
            }
            assert(exists|tc2: int, rho_c2: int| #[trigger] self.costs_from(
                loss,
                tc2,
                rho_c2,
                cost@,
            )) by {
                assert(self.costs_from(loss, tc, rho_c, cost@));
            }
        }
        Ok(cost)
    }
}

/// What the analytic density extrapolation yields, over the views: with the
/// reduced temperature excess `tr = t/tc - 1`, a nonpositive excess has no
/// logarithm and is invalid; a small excess follows `rho_c * (1 + tr*ln tr)`;
/// past the bound `1/e` the flat `rho_c * 0.62` stands.
pub open spec fn extrapolation_spec(t: int, tc: int, rho_c: int) -> Option<int> {
    let tr = q_sub(q_div(t, tc), SCALE as int);
    if tr <= 0 {
        None
    } else if tr < E_INV_UNITS as int {
        Some(q_mul(rho_c, q_add(SCALE as int, q_mul(tr, ln_spec(tr)))))
    } else {
        Some(q_mul(rho_c, 620_000_000))
    }
}

/// The analytic stand-in for a liquid density the equilibrium solver could
/// not produce, from the model's critical temperature and critical mass
/// density.
pub fn extrapolated_density(t: Num, tc: Num, rho_c: Num) -> (r: Residual)
    ensures
        r@ == extrapolation_spec(t@, tc@, rho_c@),
{
    let tr = t.div(tc).sub(Num::one());
    if tr.le(Num::zero()) {
        Residual::Invalid
    } else if tr.lt(Num::new(E_INV_UNITS)) {
        let lntr = tr.ln();
        Residual::Finite(rho_c.mul(Num::one().add(tr.mul(lntr))))
    } else {
        Residual::Finite(rho_c.mul(Num::new(620_000_000)))
    }
}

} // verus!
