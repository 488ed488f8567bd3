//! Binary vapor-liquid-equilibrium data sets: measured `(T, p, x)` or
//! `(T, p, y)` points, or full `(T, p, x, y)` points, compared against the
//! model's bubble- and dew-point curves.
use vstd::prelude::*;
use crate::num::{Num, Residual, q_sub, q_add, q_mul, q_sqrt, lemma_square_nonneg};
use crate::model::{ThermoModel, Phase};
use crate::loss::Loss;
use crate::dataset::{relative_deviation, raw_deviation, deviation_entry, finalize_cost, finalize_spec};
use crate::distance::{distance_residual, CurveSide, step_residual_spec, PENALTY_UNITS};
use crate::EstimatorError;

verus! {

/// How a binary VLE data set turns a measured point into a residual: by the
/// vertical relative pressure deviation, by the chemical-potential
/// consistency of the reported equilibrium, or by the orthogonal distance to
/// the predicted curve.
#[derive(Clone, Copy, Debug, PartialEq, Eq, Structural)]
pub enum Cost {
    Pressure,
    ChemicalPotential,
    Distance,
}

/// Whether a raw distance residual is a lawful solver result for the
/// measured point `(x, p)`: nonnegative, and either the fixed query-failure
/// penalty or the distance of some solver round.
pub open spec fn raw_distance(x: int, p: int, e: Option<int>) -> bool {
    match e {
        Some(r) => r >= 0 && (r == PENALTY_UNITS as int || exists|xf: int, p1: int|
            r == #[trigger] step_residual_spec(x, p, xf, p1)),
        None => false,
    }
}

/// One entry of a finished distance-cost vector for the measured point
/// `(x, p)`: the finalized value of a lawful solver result.
pub open spec fn distance_entry(x: int, p: int, loss: Loss, dp: int, e: Option<int>) -> bool {
    exists|e0: Option<int>| raw_distance(x, p, e0) && e == #[trigger] finalize_spec(loss, dp, e0)
}

/// Whether a raw residual is the chemical-potential distance of two
/// model-returned per-component pairs.
pub open spec fn raw_mu(e: Option<int>) -> bool {
    match e {
        Some(m) => exists|l0: int, l1: int, v0: int, v1: int|
            m == #[trigger] mu_distance_spec(l0, l1, v0, v1),
        None => false,
    }
}

/// One entry of a finished chemical-potential cost vector: the finalized
/// chemical-potential distance of some model-returned pairs.
pub open spec fn chemical_potential_entry(loss: Loss, dp: int, e: Option<int>) -> bool {
    exists|e0: Option<int>| raw_mu(e0) && e == #[trigger] finalize_spec(loss, dp, e0)
}

/// Measured `(T, p, x)` points of a binary system: temperature, pressure and
/// liquid composition of component one.
pub struct BinaryTPx {
    temperature: Vec<Num>,
    pressure: Vec<Num>,
    liquid_molefracs: Vec<Num>,
    datapoints: usize,
    cost: Cost,
}

impl BinaryTPx {
    #[verifier::type_invariant]
    spec fn wf(self) -> bool {
        &&& self.temperature@.len() == self.datapoints
        &&& self.pressure@.len() == self.datapoints
        &&& self.liquid_molefracs@.len() == self.datapoints
        &&& self.cost != Cost::ChemicalPotential
    }

    /// The measured temperatures.
    pub closed spec fn temperatures(&self) -> Seq<Num> {
        self.temperature@
    }

    /// The measured pressures.
    pub closed spec fn pressures(&self) -> Seq<Num> {
        self.pressure@
    }

    /// The measured liquid compositions.
    pub closed spec fn molefracs(&self) -> Seq<Num> {
        self.liquid_molefracs@
    }

    /// The chosen cost mode.
    pub closed spec fn cost_mode(&self) -> Cost {
        self.cost
    }

    /// The number of data points.
    pub closed spec fn dp(&self) -> int {
        self.datapoints as int
    }

    /// A new `(T, p, x)` data set.  The three arrays must be of one length,
    /// and the chemical-potential cost is invalid here: it needs both
    /// phases' compositions.
    pub fn new(temperature: Vec<Num>, pressure: Vec<Num>, liquid_molefracs: Vec<Num>, cost: Cost) -> (r:
        Result<BinaryTPx, EstimatorError>)
        ensures
            match r {
                Ok(d) => {
                    &&& cost != Cost::ChemicalPotential
                    &&& temperature@.len() == pressure@.len()
                    &&& temperature@.len() == liquid_molefracs@.len()
                    &&& d.temperatures() == temperature@
                    &&& d.pressures() == pressure@
                    &&& d.molefracs() == liquid_molefracs@
                    &&& d.cost_mode() == cost
                    &&& d.dp() == temperature@.len()
                },
                Err(e) => {
                    &&& e == EstimatorError::IncompatibleInput
                    &&& (cost == Cost::ChemicalPotential || temperature@.len() != pressure@.len()
                        || temperature@.len() != liquid_molefracs@.len())
                },
            },
    {
        let datapoints = temperature.len();
        match cost {
            Cost::ChemicalPotential => Err(EstimatorError::IncompatibleInput),
            _ => {
                if pressure.len() != datapoints || liquid_molefracs.len() != datapoints {
                    return Err(EstimatorError::IncompatibleInput);
                }
                Ok(BinaryTPx { temperature, pressure, liquid_molefracs, datapoints, cost })
            },
        }
    }

    /// The length of the residual vector this data set produces.
    pub fn datapoints(&self) -> (n: usize)
        ensures
            n == self.dp(),
    {
        self.datapoints
    }

    /// The vertical pressure residuals: at each point the bubble-point
    /// pressure at the measured temperature and liquid composition, seeded
    /// with the measured pressure, against the measured pressure.
    fn pressure_cost<M: ThermoModel>(&self, model: &M) -> (r: Result<Vec<Residual>, EstimatorError>)
        ensures
            match r {
                Ok(v) => {
                    &&& v@.len() == self.dp()
                    &&& forall|i: int|
                        0 <= i < v@.len() ==> raw_deviation(
                            self.pressures()[i]@,
                            (#[trigger] v@[i])@,
                        )
                },
                Err(e) => e == EstimatorError::ModelError,
            },
    {
        proof {
            use_type_invariant(self);
        }
        let mut cost: Vec<Residual> = Vec::new();
        let mut i: usize = 0;
        while i < self.datapoints
            invariant
                self.wf(),
                i <= self.datapoints,
                cost@.len() == i,
                forall|j: int|
                    0 <= j < i ==> raw_deviation(self.pressures()[j]@, (#[trigger] cost@[j])@),
            decreases self.datapoints - i,
        {
            let prediction = match model.bubble_point(
                self.temperature[i],
                self.liquid_molefracs[i],
                Some(self.pressure[i]),
                None,
            ) {
                Ok(p) => p,
                Err(_) => {
                    return Err(EstimatorError::ModelError);
                },
            };
            cost.push(Residual::Finite(relative_deviation(self.pressure[i], prediction)));
            i += 1;
        }
        Ok(cost)
    }

    /// The orthogonal-distance residuals against the bubble-point curve.
    fn distance_cost<M: ThermoModel>(&self, model: &M) -> (r: Vec<Residual>)
        ensures
            r@.len() == self.dp(),
            forall|i: int|
                0 <= i < r@.len() ==> raw_distance(
                    self.molefracs()[i]@,
                    self.pressures()[i]@,
                    (#[trigger] r@[i])@,
                ),
    {
        proof {
            use_type_invariant(self);
        }
        let mut cost: Vec<Residual> = Vec::new();
        let mut i: usize = 0;
        while i < self.datapoints
            invariant
                self.wf(),
                i <= self.datapoints,
                cost@.len() == i,
                forall|j: int|
                    0 <= j < i ==> raw_distance(
                        self.molefracs()[j]@,
                        self.pressures()[j]@,
                        (#[trigger] cost@[j])@,
                    ),
            decreases self.datapoints - i,
        {
            let d = distance_residual(
                model,
                CurveSide::Bubble,
                self.temperature[i],
                self.pressure[i],
                self.liquid_molefracs[i],
                None,
            );
            cost.push(Residual::Finite(d));
            i += 1;
        }
        cost
    }

    /// The cost vector against a model, by the chosen mode, with the loss
    /// applied and every entry divided by the number of data points.  Only
    /// the pressure mode can fail, on a model failure; the distance mode
    /// replaces failures by its fixed penalty.
    pub fn cost<M: ThermoModel>(&self, model: &M, loss: Loss) -> (r: Result<
        Vec<Residual>,
        EstimatorError,
    >)
        ensures
            match r {
                Ok(v) => {
                    &&& v@.len() == self.dp()
                    &&& self.cost_mode() == Cost::Pressure ==> forall|i: int|
                        0 <= i < v@.len() ==> deviation_entry(
                            self.pressures()[i]@,
                            loss,
                            self.dp(),
                            (#[trigger] v@[i])@,
                        )
                    &&& self.cost_mode() == Cost::Distance ==> forall|i: int|
                        0 <= i < v@.len() ==> distance_entry(
                            self.molefracs()[i]@,
                            self.pressures()[i]@,
                            loss,
                            self.dp(),
                            (#[trigger] v@[i])@,
                        )
                },
                Err(e) => e == EstimatorError::ModelError && self.cost_mode() == Cost::Pressure,
            },
    {
        proof {
            use_type_invariant(self);
        }
        let mut cost = match self.cost {
            Cost::Pressure => match self.pressure_cost(model) {
                Ok(c) => c,
                Err(e) => {
                    return Err(e);
                },
            },
            Cost::Distance => self.distance_cost(model),
            Cost::ChemicalPotential => {
                proof {
                    assert(false);
                }
                Vec::new()
            },
        };
        let ghost pre = cost@;
        finalize_cost(&mut cost, loss, self.datapoints);
        proof {
            if self.cost_mode() == Cost::Pressure {
                assert forall|i: int| 0 <= i < cost@.len() implies deviation_entry(
                    self.pressures()[i]@,
                    loss,
                    self.dp(),
                    (#[trigger] cost@[i])@,
                ) by {
                    assert(cost@[i]@ == finalize_spec(loss, self.dp(), pre[i]@));
                    assert(raw_deviation(self.pressures()[i]@, pre[i]@));
                }
            }
            if self.cost_mode() == Cost::Distance {
                assert forall|i: int| 0 <= i < cost@.len() implies distance_entry(
                    self.molefracs()[i]@,
                    self.pressures()[i]@,
                    loss,
                    self.dp(),
                    (#[trigger] cost@[i])@,
                ) by {
                    assert(cost@[i]@ == finalize_spec(loss, self.dp(), pre[i]@));
                    assert(raw_distance(self.molefracs()[i]@, self.pressures()[i]@, pre[i]@));
                }
            }
        }
        Ok(cost)
    }
}

/// Measured `(T, p, y)` points of a binary system: temperature, pressure and
/// vapor composition of component one.
pub struct BinaryTPy {
    temperature: Vec<Num>,
    pressure: Vec<Num>,
    vapor_molefracs: Vec<Num>,
    datapoints: usize,
    cost: Cost,
}

impl BinaryTPy {
    #[verifier::type_invariant]
    spec fn wf(self) -> bool {
        &&& self.temperature@.len() == self.datapoints
        &&& self.pressure@.len() == self.datapoints
        &&& self.vapor_molefracs@.len() == self.datapoints
        &&& self.cost != Cost::ChemicalPotential
    }

    /// The measured temperatures.
    pub closed spec fn temperatures(&self) -> Seq<Num> {
        self.temperature@
    }

    /// The measured pressures.
    pub closed spec fn pressures(&self) -> Seq<Num> {
        self.pressure@
    }

    /// The measured vapor compositions.
    pub closed spec fn molefracs(&self) -> Seq<Num> {
        self.vapor_molefracs@
    }

    /// The chosen cost mode.
    pub closed spec fn cost_mode(&self) -> Cost {
        self.cost
    }

    /// The number of data points.
    pub closed spec fn dp(&self) -> int {
        self.datapoints as int
    }

    /// A new `(T, p, y)` data set.  The three arrays must be of one length,
    /// and the chemical-potential cost is invalid here: it needs both
    /// phases' compositions.
    pub fn new(temperature: Vec<Num>, pressure: Vec<Num>, vapor_molefracs: Vec<Num>, cost: Cost) -> (r:
        Result<BinaryTPy, EstimatorError>)
        ensures
            match r {
                Ok(d) => {
                    &&& cost != Cost::ChemicalPotential
                    &&& temperature@.len() == pressure@.len()
                    &&& temperature@.len() == vapor_molefracs@.len()
                    &&& d.temperatures() == temperature@
                    &&& d.pressures() == pressure@
                    &&& d.molefracs() == vapor_molefracs@
                    &&& d.cost_mode() == cost
                    &&& d.dp() == temperature@.len()
                },
                Err(e) => {
                    &&& e == EstimatorError::IncompatibleInput
                    &&& (cost == Cost::ChemicalPotential || temperature@.len() != pressure@.len()
                        || temperature@.len() != vapor_molefracs@.len())
                },
            },
    {
        let datapoints = temperature.len();
        match cost {
            Cost::ChemicalPotential => Err(EstimatorError::IncompatibleInput),
            _ => {
                if pressure.len() != datapoints || vapor_molefracs.len() != datapoints {
                    return Err(EstimatorError::IncompatibleInput);
                }
                Ok(BinaryTPy { temperature, pressure, vapor_molefracs, datapoints, cost })
            },
        }
    }

    /// The length of the residual vector this data set produces.
    pub fn datapoints(&self) -> (n: usize)
        ensures
            n == self.dp(),
    {
        self.datapoints
    }

    /// The vertical pressure residuals: at each point the dew-point pressure
    /// at the measured temperature and vapor composition, seeded with the
    /// measured pressure, against the measured pressure.
    fn pressure_cost<M: ThermoModel>(&self, model: &M) -> (r: Result<Vec<Residual>, EstimatorError>)
        ensures
            match r {
                Ok(v) => {
                    &&& v@.len() == self.dp()
                    &&& forall|i: int|
                        0 <= i < v@.len() ==> raw_deviation(
                            self.pressures()[i]@,
                            (#[trigger] v@[i])@,
                        )
                },
                Err(e) => e == EstimatorError::ModelError,
            },
    {
        proof {
            use_type_invariant(self);
        }
        let mut cost: Vec<Residual> = Vec::new();
        let mut i: usize = 0;
        while i < self.datapoints
            invariant
                self.wf(),
                i <= self.datapoints,
                cost@.len() == i,
                forall|j: int|
                    0 <= j < i ==> raw_deviation(self.pressures()[j]@, (#[trigger] cost@[j])@),
            decreases self.datapoints - i,
        {
            let prediction = match model.dew_point(
                self.temperature[i],
                self.vapor_molefracs[i],
                Some(self.pressure[i]),
                None,
            ) {
                Ok(p) => p,
                Err(_) => {
                    return Err(EstimatorError::ModelError);
                },
            };
            cost.push(Residual::Finite(relative_deviation(self.pressure[i], prediction)));
            i += 1;
        }
        Ok(cost)
    }

    /// The orthogonal-distance residuals against the dew-point curve.
    fn distance_cost<M: ThermoModel>(&self, model: &M) -> (r: Vec<Residual>)
        ensures
            r@.len() == self.dp(),
            forall|i: int|
                0 <= i < r@.len() ==> raw_distance(
                    self.molefracs()[i]@,
                    self.pressures()[i]@,
                    (#[trigger] r@[i])@,
                ),
    {
        proof {
            use_type_invariant(self);
        }
        let mut cost: Vec<Residual> = Vec::new();
        let mut i: usize = 0;
        while i < self.datapoints
            invariant
                self.wf(),
                i <= self.datapoints,
                cost@.len() == i,
                forall|j: int|
                    0 <= j < i ==> raw_distance(
                        self.molefracs()[j]@,
                        self.pressures()[j]@,
                        (#[trigger] cost@[j])@,
                    ),
            decreases self.datapoints - i,
        {
            let d = distance_residual(
                model,
                CurveSide::Dew,
                self.temperature[i],
                self.pressure[i],
                self.vapor_molefracs[i],
                None,
            );
            cost.push(Residual::Finite(d));
            i += 1;
        }
        cost
    }

    /// The cost vector against a model, by the chosen mode, with the loss
    /// applied and every entry divided by the number of data points.  Only
    /// the pressure mode can fail, on a model failure; the distance mode
    /// replaces failures by its fixed penalty.
    pub fn cost<M: ThermoModel>(&self, model: &M, loss: Loss) -> (r: Result<
        Vec<Residual>,
        EstimatorError,
    >)
        ensures
            match r {
                Ok(v) => {
                    &&& v@.len() == self.dp()
                    &&& self.cost_mode() == Cost::Pressure ==> forall|i: int|
                        0 <= i < v@.len() ==> deviation_entry(
                            self.pressures()[i]@,
                            loss,
                            self.dp(),
                            (#[trigger] v@[i])@,
                        )
                    &&& self.cost_mode() == Cost::Distance ==> forall|i: int|
                        0 <= i < v@.len() ==> distance_entry(
                            self.molefracs()[i]@,
                            self.pressures()[i]@,
                            loss,
                            self.dp(),
                            (#[trigger] v@[i])@,
                        )
                },
                Err(e) => e == EstimatorError::ModelError && self.cost_mode() == Cost::Pressure,
            },
    {
        proof {
            use_type_invariant(self);
        }
        let mut cost = match self.cost {
            Cost::Pressure => match self.pressure_cost(model) {
                Ok(c) => c,
                Err(e) => {
                    return Err(e);
                },
            },
            Cost::Distance => self.distance_cost(model),
            Cost::ChemicalPotential => {
                proof {
                    assert(false);
                }
                Vec::new()
            },
        };
        let ghost pre = cost@;
        finalize_cost(&mut cost, loss, self.datapoints);
        proof {
            if self.cost_mode() == Cost::Pressure {
                assert forall|i: int| 0 <= i < cost@.len() implies deviation_entry(
                    self.pressures()[i]@,
                    loss,
                    self.dp(),
                    (#[trigger] cost@[i])@,
                ) by {
                    assert(cost@[i]@ == finalize_spec(loss, self.dp(), pre[i]@));
                    assert(raw_deviation(self.pressures()[i]@, pre[i]@));
                }
            }
            if self.cost_mode() == Cost::Distance {
                assert forall|i: int| 0 <= i < cost@.len() implies distance_entry(
                    self.molefracs()[i]@,
                    self.pressures()[i]@,
                    loss,
                    self.dp(),
                    (#[trigger] cost@[i])@,
                ) by {
                    assert(cost@[i]@ == finalize_spec(loss, self.dp(), pre[i]@));
                    assert(raw_distance(self.molefracs()[i]@, self.pressures()[i]@, pre[i]@));
                }
            }
        }
        Ok(cost)
    }
}

/// What the chemical-potential consistency residual of one point is: the
/// Euclidean norm of the per-component difference between the two phases'
/// chemical potentials.
pub open spec fn mu_distance_spec(l0: int, l1: int, v0: int, v1: int) -> int {
    let d0 = q_sub(l0, v0);
    let d1 = q_sub(l1, v1);
    q_sqrt(q_add(q_mul(d0, d0), q_mul(d1, d1)))
}

/// The chemical-potential consistency residual of one point, from the two
/// phases' per-component chemical potentials.
pub fn mu_distance(mu_liquid: (Num, Num), mu_vapor: (Num, Num)) -> (r: Num)
    ensures
        r@ == mu_distance_spec(mu_liquid.0@, mu_liquid.1@, mu_vapor.0@, mu_vapor.1@),
{
    let d0 = mu_liquid.0.sub(mu_vapor.0);
    let d1 = mu_liquid.1.sub(mu_vapor.1);
    proof {
        lemma_square_nonneg(d0@);
        lemma_square_nonneg(d1@);
    }
    d0.mul(d0).add(d1.mul(d1)).sqrt()
}

/// Measured `(T, p, x, y)` points of a binary system: temperature, pressure
/// and both phases' compositions of component one.
pub struct BinaryTPxy {
    temperature: Vec<Num>,
    pressure: Vec<Num>,
    liquid_molefracs: Vec<Num>,
    vapor_molefracs: Vec<Num>,
    datapoints: usize,
    cost: Cost,
}

impl BinaryTPxy {
    #[verifier::type_invariant]
    spec fn wf(self) -> bool {
        &&& self.temperature@.len() == self.datapoints
        &&& self.pressure@.len() == self.datapoints
        &&& self.liquid_molefracs@.len() == self.datapoints
        &&& self.vapor_molefracs@.len() == self.datapoints
    }

    /// The measured temperatures.
    pub closed spec fn temperatures(&self) -> Seq<Num> {
        self.temperature@
    }

    /// The measured pressures.
    pub closed spec fn pressures(&self) -> Seq<Num> {
        self.pressure@
    }

    /// The measured liquid compositions.
    pub closed spec fn liquid_fracs(&self) -> Seq<Num> {
        self.liquid_molefracs@
    }

    /// The measured vapor compositions.
    pub closed spec fn vapor_fracs(&self) -> Seq<Num> {
        self.vapor_molefracs@
    }

    /// The chosen cost mode.
    pub closed spec fn cost_mode(&self) -> Cost {
        self.cost
    }

    /// The number of data points.
    pub closed spec fn dp(&self) -> int {
        self.datapoints as int
    }

    /// The length of the residual vector this data set produces: two
    /// stacked blocks under the pressure cost, one otherwise.
    pub open spec fn residual_len(&self) -> int {
        if self.cost_mode() == Cost::Pressure {
            2 * self.dp()
        } else {
            self.dp()
        }
    }

    /// A new `(T, p, x, y)` data set; the four arrays must be of one length.
    /// Every cost mode is valid here.
    pub fn new(
        temperature: Vec<Num>,
        pressure: Vec<Num>,
        liquid_molefracs: Vec<Num>,
        vapor_molefracs: Vec<Num>,
        cost: Cost,
    ) -> (r: Result<BinaryTPxy, EstimatorError>)
        ensures
            match r {
                Ok(d) => {
                    &&& temperature@.len() == pressure@.len()
                    &&& temperature@.len() == liquid_molefracs@.len()
                    &&& temperature@.len() == vapor_molefracs@.len()
                    &&& d.temperatures() == temperature@
                    &&& d.pressures() == pressure@
                    &&& d.liquid_fracs() == liquid_molefracs@
                    &&& d.vapor_fracs() == vapor_molefracs@
                    &&& d.cost_mode() == cost
                    &&& d.dp() == temperature@.len()
                },
                Err(e) => {
                    &&& e == EstimatorError::IncompatibleInput
                    &&& (temperature@.len() != pressure@.len() || temperature@.len()
                        != liquid_molefracs@.len() || temperature@.len() != vapor_molefracs@.len())
                },
            },
    {
        let datapoints = temperature.len();
        if pressure.len() != datapoints || liquid_molefracs.len() != datapoints
            || vapor_molefracs.len() != datapoints {
            return Err(EstimatorError::IncompatibleInput);
        }
        Ok(
            BinaryTPxy {
                temperature,
                pressure,
                liquid_molefracs,
                vapor_molefracs,
                datapoints,
                cost,
            },
        )
    }

    /// The number of measured points; the pressure cost produces two
    /// residuals for each.
    pub fn datapoints(&self) -> (n: usize)
        ensures
            n == self.dp(),
    {
        self.datapoints
    }

    /// The vertical pressure residuals of both phases: for each point the
    /// bubble-point pressure at the measured liquid composition and the
    /// dew-point pressure at the measured vapor composition, each seeded
    /// with the measured pressure and the conjugate composition, against
    /// the measured pressure.  The liquid-side block is stacked before the
    /// vapor-side block.
    fn pressure_cost<M: ThermoModel>(&self, model: &M) -> (r: Result<Vec<Residual>, EstimatorError>)
        ensures
            match r {
                Ok(v) => {
                    &&& v@.len() == 2 * self.dp()
                    &&& forall|i: int|
                        0 <= i < self.dp() ==> raw_deviation(
                            self.pressures()[i]@,
                            (#[trigger] v@[i])@,
                        ) && raw_deviation(self.pressures()[i]@, v@[self.dp() + i]@)
                },
                Err(e) => e == EstimatorError::ModelError,
            },
    {
        proof {
            use_type_invariant(self);
        }
        let mut liquid_cost: Vec<Residual> = Vec::new();
        let mut vapor_cost: Vec<Residual> = Vec::new();
        let mut i: usize = 0;
        while i < self.datapoints
            invariant
                self.wf(),
                i <= self.datapoints,
                liquid_cost@.len() == i,
                vapor_cost@.len() == i,
                forall|j: int|
                    0 <= j < i ==> raw_deviation(
                        self.pressures()[j]@,
                        (#[trigger] liquid_cost@[j])@,
                    ) && raw_deviation(self.pressures()[j]@, vapor_cost@[j]@),
            decreases self.datapoints - i,
        {
            let prediction_liquid = match model.bubble_point(
                self.temperature[i],
                self.liquid_molefracs[i],
                Some(self.pressure[i]),
                Some(self.vapor_molefracs[i]),
            ) {
                Ok(p) => p,
                Err(_) => {
                    return Err(EstimatorError::ModelError);
                },
            };
            let prediction_vapor = match model.dew_point(
                self.temperature[i],
                self.vapor_molefracs[i],
                Some(self.pressure[i]),
                Some(self.liquid_molefracs[i]),
            ) {
                Ok(p) => p,
                Err(_) => {
                    return Err(EstimatorError::ModelError);
                },
            };
            liquid_cost.push(Residual::Finite(relative_deviation(self.pressure[i], prediction_liquid)));
            vapor_cost.push(Residual::Finite(relative_deviation(self.pressure[i], prediction_vapor)));
            i += 1;
        }
        liquid_cost.append(&mut vapor_cost);
        Ok(liquid_cost)
    }

    /// The chemical-potential consistency residuals: at each point the two
    /// phases are built independently as single-phase states at the measured
    /// temperature, pressure and their own compositions, and the norm of the
    /// difference of their chemical-potential vectors is the residual.
    fn chemical_potential_cost<M: ThermoModel>(&self, model: &M) -> (r: Result<
        Vec<Residual>,
        EstimatorError,
    >)
        ensures
            match r {
                Ok(v) => {
                    &&& v@.len() == self.dp()
                    &&& forall|i: int| 0 <= i < v@.len() ==> raw_mu((#[trigger] v@[i])@)
                },
                Err(e) => e == EstimatorError::ModelError,
            },
    {
        proof {
            use_type_invariant(self);
        }
        let mut cost: Vec<Residual> = Vec::new();
        let mut i: usize = 0;
        while i < self.datapoints
            invariant
                self.wf(),
                i <= self.datapoints,
                cost@.len() == i,
                forall|j: int| 0 <= j < i ==> raw_mu((#[trigger] cost@[j])@),
            decreases self.datapoints - i,
        {
            let mu_liquid = match model.chemical_potential(
                self.temperature[i],
                self.pressure[i],
                self.liquid_molefracs[i],
                Phase::Liquid,
            ) {
                Ok(m) => m,
                Err(_) => {
                    return Err(EstimatorError::ModelError);
                },
            };
            let mu_vapor = match model.chemical_potential(
                self.temperature[i],
                self.pressure[i],
                self.vapor_molefracs[i],
                Phase::Vapor,
            ) {
                Ok(m) => m,
                Err(_) => {
                    return Err(EstimatorError::ModelError);
                },
            };
            cost.push(Residual::Finite(mu_distance(mu_liquid, mu_vapor)));
            i += 1;
        }
        Ok(cost)
    }

    /// The orthogonal-distance residuals of the liquid side against the
    /// bubble-point curve, with the measured vapor composition as the
    /// conjugate hint; the vapor side is not fitted separately under this
    /// mode.
    fn distance_cost<M: ThermoModel>(&self, model: &M) -> (r: Vec<Residual>)
        ensures
            r@.len() == self.dp(),
            forall|i: int|
                0 <= i < r@.len() ==> raw_distance(
                    self.liquid_fracs()[i]@,
                    self.pressures()[i]@,
                    (#[trigger] r@[i])@,
                ),
    {
        proof {
            use_type_invariant(self);
        }
        let mut cost: Vec<Residual> = Vec::new();
        let mut i: usize = 0;
        while i < self.datapoints
            invariant
                self.wf(),
                i <= self.datapoints,
                cost@.len() == i,
                forall|j: int|
                    0 <= j < i ==> raw_distance(
                        self.liquid_fracs()[j]@,
                        self.pressures()[j]@,
                        (#[trigger] cost@[j])@,
                    ),
            decreases self.datapoints - i,
        {
            let d = distance_residual(
                model,
                CurveSide::Bubble,
                self.temperature[i],
                self.pressure[i],
                self.liquid_molefracs[i],
                Some(self.vapor_molefracs[i]),
            );
            cost.push(Residual::Finite(d));
            i += 1;
        }
        cost
    }

    /// The cost vector against a model, by the chosen mode, with the loss
    /// applied and every entry divided by the number of data points.  The
    /// distance mode cannot fail; the other modes abort on a model failure.
    pub fn cost<M: ThermoModel>(&self, model: &M, loss: Loss) -> (r: Result<
        Vec<Residual>,
        EstimatorError,
    >)
        ensures
            match r {
                Ok(v) => {
                    &&& v@.len() == self.residual_len()
                    &&& self.cost_mode() == Cost::Pressure ==> forall|i: int|
                        0 <= i < self.dp() ==> deviation_entry(
                            self.pressures()[i]@,
                            loss,
                            self.dp(),
                            (#[trigger] v@[i])@,
                        ) && deviation_entry(
                            self.pressures()[i]@,
                            loss,
                            self.dp(),
                            v@[self.dp() + i]@,
                        )
                    &&& self.cost_mode() == Cost::Distance ==> forall|i: int|
                        0 <= i < v@.len() ==> distance_entry(
                            self.liquid_fracs()[i]@,
                            self.pressures()[i]@,
                            loss,
                            self.dp(),
                            (#[trigger] v@[i])@,
                        )
                    &&& self.cost_mode() == Cost::ChemicalPotential ==> forall|i: int|
                        0 <= i < v@.len() ==> chemical_potential_entry(
                            loss,
                            self.dp(),
                            (#[trigger] v@[i])@,
                        )
                },
                Err(e) => e == EstimatorError::ModelError && self.cost_mode() != Cost::Distance,
            },
    {
        let mut cost = match self.cost {
            Cost::Pressure => match self.pressure_cost(model) {
                Ok(c) => c,
                Err(e) => {
                    return Err(e);
                },
            },
            Cost::Distance => self.distance_cost(model),
            Cost::ChemicalPotential => match self.chemical_potential_cost(model) {
                Ok(c) => c,
                Err(e) => {
                    return Err(e);
                },
            },
        };
        let ghost pre = cost@;
        finalize_cost(&mut cost, loss, self.datapoints);
        proof {
            if self.cost_mode() == Cost::Pressure {
                assert forall|i: int| 0 <= i < self.dp() implies deviation_entry(
                    self.pressures()[i]@,
                    loss,
                    self.dp(),
                    (#[trigger] cost@[i])@,
                ) && deviation_entry(
                    self.pressures()[i]@,
                    loss,
                    self.dp(),
                    cost@[self.dp() + i]@,
                ) by {
                    assert(cost@[i]@ == finalize_spec(loss, self.dp(), pre[i]@));
                    assert(raw_deviation(self.pressures()[i]@, pre[i]@));
                    assert(cost@[self.dp() + i]@ == finalize_spec(
                        loss,
                        self.dp(),
                        pre[self.dp() + i]@,
                    ));
                    assert(raw_deviation(self.pressures()[i]@, pre[self.dp() + i]@));
                }
            }
            if self.cost_mode() == Cost::Distance {
                assert forall|i: int| 0 <= i < cost@.len() implies distance_entry(
                    self.liquid_fracs()[i]@,
                    self.pressures()[i]@,
                    loss,
                    self.dp(),
                    (#[trigger] cost@[i])@,
                ) by {
                    assert(cost@[i]@ == finalize_spec(loss, self.dp(), pre[i]@));
                    assert(raw_distance(self.liquid_fracs()[i]@, self.pressures()[i]@, pre[i]@));
                }
            }
            if self.cost_mode() == Cost::ChemicalPotential {
                assert forall|i: int| 0 <= i < cost@.len() implies chemical_potential_entry(
                    loss,
                    self.dp(),
                    (#[trigger] cost@[i])@,
                ) by {
                    assert(cost@[i]@ == finalize_spec(loss, self.dp(), pre[i]@));
                    assert(raw_mu(pre[i]@));
                }
            }
        }
        Ok(cost)
    }
}

} // verus!
