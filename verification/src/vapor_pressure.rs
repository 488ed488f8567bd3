//! Experimental vapor-pressure data compared against the equation of state.
use vstd::prelude::*;
use crate::num::{Num, Residual, q_sub, q_div, clip, lemma_mul_small_int};
use crate::model::ThermoModel;
use crate::loss::Loss;
use crate::dataset::{
    seq_max, max_of, relative_deviation, raw_deviation, deviation_entry, finalize_cost,
    finalize_spec,
};
use crate::EstimatorError;

verus! {

/// An experimental vapor-pressure series: measured pressures over measured
/// temperatures, with the greatest temperature cached at construction to
/// bound the model's critical-point search.  The optional standard-deviation
/// parameters are stored with the series but take no part in the cost path.
pub struct VaporPressure {
    vapor_pressure: Vec<Num>,
    temperature: Vec<Num>,
    max_temperature: Num,
    datapoints: usize,
    std_parameters: Vec<Num>,
}

impl VaporPressure {
    #[verifier::type_invariant]
    spec fn wf(self) -> bool {
        &&& self.vapor_pressure@.len() == self.datapoints
        &&& self.temperature@.len() == self.datapoints
        &&& self.datapoints >= 1
        &&& self.max_temperature@ == seq_max(self.temperature@)
    }

    /// The measured pressures.
    pub closed spec fn pressures(&self) -> Seq<Num> {
        self.vapor_pressure@
    }

    /// The measured temperatures.
    pub closed spec fn temperatures(&self) -> Seq<Num> {
        self.temperature@
    }

    /// The cached greatest measured temperature.
    pub closed spec fn max_temp(&self) -> int {
        self.max_temperature@
    }

    /// The stored standard-deviation parameters.
    pub closed spec fn std_params(&self) -> Seq<Num> {
        self.std_parameters@
    }

    /// The number of data points.
    pub closed spec fn dp(&self) -> int {
        self.datapoints as int
    }

    /// A new vapor-pressure data set.  The series must be nonempty and the
    /// pressure and temperature arrays of one length; the greatest
    /// temperature is cached.
    pub fn new(vapor_pressure: Vec<Num>, temperature: Vec<Num>, std_parameters: Vec<Num>) -> (r:
        Result<VaporPressure, EstimatorError>)
        ensures
            match r {
                Ok(d) => {
                    &&& vapor_pressure@.len() == temperature@.len()
                    &&& vapor_pressure@.len() >= 1
                    &&& d.pressures() == vapor_pressure@
                    &&& d.temperatures() == temperature@
                    &&& d.std_params() == std_parameters@
                    &&& d.dp() == vapor_pressure@.len()
                    &&& d.max_temp() == seq_max(temperature@)
                },
                Err(e) => {
                    &&& e == EstimatorError::IncompatibleInput
                    &&& (vapor_pressure@.len() != temperature@.len() || vapor_pressure@.len() == 0)
                },
            },
    {
        let datapoints = vapor_pressure.len();
        if datapoints == 0 || temperature.len() != datapoints {
            return Err(EstimatorError::IncompatibleInput);
        }
        let max_temperature = max_of(&temperature);
        Ok(
            VaporPressure {
                vapor_pressure,
                temperature,
                max_temperature,
                datapoints,
                std_parameters,
            },
        )
    }

    /// The length of the residual vector this data set produces.
    pub fn datapoints(&self) -> (n: usize)
        ensures
            n == self.dp(),
    {
        self.datapoints
    }

    /// One finished cost entry, given the critical temperature `tc` the
    /// model returned: above `tc` the finalized smooth penalty of
    /// [`critical_penalty`], below it the finalized relative deviation of
    /// some model-returned pressure from the measured one.
    pub open spec fn cost_entry_from(&self, loss: Loss, tc: int, i: int, e: Option<int>) -> bool {
        if self.temperatures()[i]@ > tc {
            e == finalize_spec(loss, self.dp(), Some(clip(5 * q_sub(self.temperatures()[i]@, tc))))
        } else {
            deviation_entry(self.pressures()[i]@, loss, self.dp(), e)
        }
    }

    /// Every finished cost entry is as [`Self::cost_entry_from`] states, for
    /// one critical temperature.
    pub open spec fn costs_from(&self, loss: Loss, tc: int, v: Seq<Residual>) -> bool {
        forall|i: int| 0 <= i < v.len() ==> self.cost_entry_from(loss, tc, i, (#[trigger] v[i])@)
    }

    /// Evaluate the cost vector against a model.
    ///
    /// The model's critical point bounds which temperatures are reachable:
    /// above the predicted critical temperature no equilibrium is attempted
    /// and the smooth penalty of [`critical_penalty`] is assigned; below it,
    /// the pure-component equilibrium is queried and the signed relative
    /// pressure deviation is taken.  The loss is applied and every entry is
    /// divided by the number of data points.  Any model failure aborts the
    /// evaluation.
    pub fn cost<M: ThermoModel>(&self, model: &M, loss: Loss) -> (r: Result<
        Vec<Residual>,
        EstimatorError,
    >)
        ensures
            match r {
                Ok(v) => {
                    &&& v@.len() == self.dp()
                    &&& forall|i: int| 0 <= i < v@.len() ==> (#[trigger] v@[i])@ is Some
                    &&& exists|tc: int| #[trigger] self.costs_from(loss, tc, v@)
                },
                Err(e) => e == EstimatorError::ModelError,
            },
    {
        proof {
            use_type_invariant(self);
        }
        let critical_point = match model.critical_point(self.max_temperature) {
            Ok(c) => c,
            Err(_) => {
                return Err(EstimatorError::ModelError);
            },
        };
        let ghost tc = critical_point.temperature@;
        let mut cost: Vec<Residual> = Vec::new();
        let mut i: usize = 0;
        while i < self.datapoints
            invariant
                self.wf(),
                i <= self.datapoints,
                cost@.len() == i,
                forall|j: int| 0 <= j < i ==> (#[trigger] cost@[j])@ is Some,
                forall|j: int|
                    0 <= j < i ==> if self.temperatures()[j]@ > tc {
                        (#[trigger] cost@[j])@ == Some(clip(5 * q_sub(self.temperatures()[j]@, tc)))
                    } else {
                        raw_deviation(self.pressures()[j]@, cost@[j]@)
                    },
                tc == critical_point.temperature@,
            decreases self.datapoints - i,
        {
            let t = self.temperature[i];
            if t.gt(critical_point.temperature) {
                cost.push(Residual::Finite(critical_penalty(t, critical_point.temperature)));
            } else {
                let eq = match model.pure_equilibrium(t, None) {
                    Ok(eq) => eq,
                    Err(_) => {
                        return Err(EstimatorError::ModelError);
                    },
                };
                cost.push(
                    Residual::Finite(relative_deviation(self.vapor_pressure[i], eq.vapor_pressure)),
                );
            }
            i += 1;
        }
        let ghost pre = cost@;
        finalize_cost(&mut cost, loss, self.datapoints);
        proof {
            assert forall|i: int| 0 <= i < cost@.len() implies self.cost_entry_from(
                loss,
                tc,
                i,
                (#[trigger] cost@[i])@,
            ) by {
                assert(cost@[i]@ == finalize_spec(loss, self.dp(), pre[i]@));
                if !(self.temperatures()[i]@ > tc) {
                    assert(raw_deviation(self.pressures()[i]@, pre[i]@));
                }
            }
            assert(exists|tc2: int| #[trigger] self.costs_from(loss, tc2, cost@)) by {
                assert(self.costs_from(loss, tc, cost@));
            }
        }
        Ok(cost)
    }
}

/// The smooth penalty a measured temperature above the predicted critical
/// temperature receives: five times the temperature excess, so the optimizer
/// sees an increasing slope instead of a solver failure.
pub fn critical_penalty(t: Num, tc: Num) -> (r: Num)
    ensures
        r@ == clip(5 * q_sub(t@, tc@)),
{
    let d = t.sub(tc);
    let five = Num::new(5_000_000_000);
    proof {
        lemma_mul_small_int(5, d@);
    }
    five.mul(d)
}

} // verus!
