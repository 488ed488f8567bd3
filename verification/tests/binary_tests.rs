use std::cell::Cell;
use estimator::num::{Num, Residual};
use estimator::model::{CriticalPoint, ModelError, Phase, PureEquilibrium, ThermoModel};
use estimator::binary_vle::{mu_distance, BinaryTPx, BinaryTPxy, BinaryTPy, Cost};
use estimator::distance::{damping_factor, distance_step, failure_penalty};
use estimator::{EstimatorError, Loss};

fn n(units: i128) -> Num {
    Num::new(units)
}

const ONE: i128 = 1_000_000_000;

/// A binary model whose bubble- and dew-point curves are linear in the
/// composition, with call counters.
struct LinearVleModel {
    bubble_a: i128,
    bubble_b: i128,
    dew_a: i128,
    dew_b: i128,
    mu_liquid: (i128, i128),
    mu_vapor: (i128, i128),
    bubble_fails: bool,
    mu_fails: bool,
    bubble_calls: Cell<u32>,
    dew_calls: Cell<u32>,
}

impl LinearVleModel {
    fn new(bubble_a: i128, bubble_b: i128) -> LinearVleModel {
        LinearVleModel {
            bubble_a,
            bubble_b,
            dew_a: bubble_a,
            dew_b: bubble_b,
            mu_liquid: (0, 0),
            mu_vapor: (0, 0),
            bubble_fails: false,
            mu_fails: false,
            bubble_calls: Cell::new(0),
            dew_calls: Cell::new(0),
        }
    }
}

impl ThermoModel for LinearVleModel {
    fn critical_point(&self, _max_temperature: Num) -> Result<CriticalPoint, ModelError> {
        Err(ModelError)
    }

    fn pure_equilibrium(
        &self,
        _temperature: Num,
        _pressure_hint: Option<Num>,
    ) -> Result<PureEquilibrium, ModelError> {
        Err(ModelError)
    }

    fn mass_density(
        &self,
        _temperature: Num,
        _pressure: Num,
        _phase: Phase,
    ) -> Result<Num, ModelError> {
        Err(ModelError)
    }

    fn chemical_potential(
        &self,
        _temperature: Num,
        _pressure: Num,
        _molefrac: Num,
        phase: Phase,
    ) -> Result<(Num, Num), ModelError> {
        if self.mu_fails {
            return Err(ModelError);
        }
        match phase {
            Phase::Liquid => Ok((n(self.mu_liquid.0), n(self.mu_liquid.1))),
            Phase::Vapor => Ok((n(self.mu_vapor.0), n(self.mu_vapor.1))),
        }
    }

    fn bubble_point(
        &self,
        _temperature: Num,
        liquid_molefrac: Num,
        _pressure_hint: Option<Num>,
        _vapor_molefrac_hint: Option<Num>,
    ) -> Result<Num, ModelError> {
        self.bubble_calls.set(self.bubble_calls.get() + 1);
        if self.bubble_fails {
            Err(ModelError)
        } else {
            Ok(n(self.bubble_a).sub(n(self.bubble_b).mul(liquid_molefrac)))
        }
    }

    fn dew_point(
        &self,
        _temperature: Num,
        vapor_molefrac: Num,
        _pressure_hint: Option<Num>,
        _liquid_molefrac_hint: Option<Num>,
    ) -> Result<Num, ModelError> {
        self.dew_calls.set(self.dew_calls.get() + 1);
        if self.bubble_fails {
            Err(ModelError)
        } else {
            Ok(n(self.dew_a).sub(n(self.dew_b).mul(vapor_molefrac)))
        }
    }
}

#[test]
fn tpx_rejects_chemical_potential() {
    assert_eq!(
        BinaryTPx::new(vec![n(ONE)], vec![n(ONE)], vec![n(ONE)], Cost::ChemicalPotential).err(),
        Some(EstimatorError::IncompatibleInput)
    );
}

#[test]
fn tpy_rejects_chemical_potential() {
    assert_eq!(
        BinaryTPy::new(vec![n(ONE)], vec![n(ONE)], vec![n(ONE)], Cost::ChemicalPotential).err(),
        Some(EstimatorError::IncompatibleInput)
    );
}

#[test]
fn tpx_rejects_mismatched_lengths() {
    assert_eq!(
        BinaryTPx::new(vec![n(ONE)], vec![], vec![n(ONE)], Cost::Pressure).err(),
        Some(EstimatorError::IncompatibleInput)
    );
}

#[test]
fn tpx_pressure_cost() {
    // Flat bubble curve at 1.8, measured pressure 2: (2 - 1.8) / 2 = 0.1.
    let model = LinearVleModel::new(1_800_000_000, 0);
    let ds = BinaryTPx::new(
        vec![n(ONE)],
        vec![n(2 * ONE)],
        vec![n(400_000_000)],
        Cost::Pressure,
    )
    .unwrap();
    let cost = ds.cost(&model, Loss::Linear).unwrap();
    assert_eq!(cost, vec![Residual::Finite(n(100_000_000))]);
    assert_eq!(model.bubble_calls.get(), 1);
}

#[test]
fn tpx_pressure_failure_aborts() {
    let mut model = LinearVleModel::new(1_800_000_000, 0);
    model.bubble_fails = true;
    let ds = BinaryTPx::new(
        vec![n(ONE)],
        vec![n(2 * ONE)],
        vec![n(400_000_000)],
        Cost::Pressure,
    )
    .unwrap();
    assert_eq!(ds.cost(&model, Loss::Linear), Err(EstimatorError::ModelError));
}

#[test]
fn tpy_pressure_cost_queries_dew_curve() {
    // Flat dew curve at 1.5, measured pressure 2: (2 - 1.5) / 2 = 0.25.
    let mut model = LinearVleModel::new(ONE, 0);
    model.dew_a = 1_500_000_000;
    let ds = BinaryTPy::new(
        vec![n(ONE)],
        vec![n(2 * ONE)],
        vec![n(400_000_000)],
        Cost::Pressure,
    )
    .unwrap();
    let cost = ds.cost(&model, Loss::Linear).unwrap();
    assert_eq!(cost, vec![Residual::Finite(n(250_000_000))]);
    assert_eq!(model.dew_calls.get(), 1);
    assert_eq!(model.bubble_calls.get(), 0);
}

#[test]
fn tpxy_pressure_cost_stacks_liquid_then_vapor() {
    let mut model = LinearVleModel::new(1_800_000_000, 0);
    model.dew_a = 1_500_000_000;
    let ds = BinaryTPxy::new(
        vec![n(ONE)],
        vec![n(2 * ONE)],
        vec![n(400_000_000)],
        vec![n(600_000_000)],
        Cost::Pressure,
    )
    .unwrap();
    let cost = ds.cost(&model, Loss::Linear).unwrap();
    assert_eq!(
        cost,
        vec![Residual::Finite(n(100_000_000)), Residual::Finite(n(250_000_000))]
    );
}

#[test]
fn tpxy_chemical_potential_norm() {
    // The phases differ by (0.003, 0.004): the residual is the norm, 0.005.
    let mut model = LinearVleModel::new(ONE, 0);
    model.mu_liquid = (3_000_000, 4_000_000);
    let ds = BinaryTPxy::new(
        vec![n(ONE)],
        vec![n(2 * ONE)],
        vec![n(400_000_000)],
        vec![n(600_000_000)],
        Cost::ChemicalPotential,
    )
    .unwrap();
    let cost = ds.cost(&model, Loss::Linear).unwrap();
    assert_eq!(cost, vec![Residual::Finite(n(5_000_000))]);
}

#[test]
fn mu_distance_is_euclidean() {
    let r = mu_distance((n(3_000_000), n(4_000_000)), (n(0), n(0)));
    assert_eq!(r.raw(), 5_000_000);
}

#[test]
fn distance_point_on_curve_is_zero() {
    // The experimental point lies exactly on the line p = 2 - x: the solver
    // converges in its first round and reports a residual of exactly zero.
    let model = LinearVleModel::new(2 * ONE, ONE);
    let ds = BinaryTPx::new(
        vec![n(ONE)],
        vec![n(1_600_000_000)],
        vec![n(400_000_000)],
        Cost::Distance,
    )
    .unwrap();
    let cost = ds.cost(&model, Loss::Linear).unwrap();
    assert_eq!(cost, vec![Residual::Finite(n(0))]);
    assert_eq!(model.bubble_calls.get(), 2);
}

#[test]
fn distance_reports_offset_to_flat_curve() {
    // Flat curve at 1, measured pressure 2: the closest point sits straight
    // below, at reduced-pressure distance (2 - 1) / 2 = 0.5.
    let model = LinearVleModel::new(ONE, 0);
    let ds = BinaryTPx::new(
        vec![n(ONE)],
        vec![n(2 * ONE)],
        vec![n(400_000_000)],
        Cost::Distance,
    )
    .unwrap();
    let cost = ds.cost(&model, Loss::Linear).unwrap();
    assert_eq!(cost, vec![Residual::Finite(n(500_000_000))]);
}

#[test]
fn distance_failure_is_penalty_after_one_query() {
    let mut model = LinearVleModel::new(2 * ONE, ONE);
    model.bubble_fails = true;
    let ds = BinaryTPx::new(
        vec![n(ONE)],
        vec![n(1_600_000_000)],
        vec![n(400_000_000)],
        Cost::Distance,
    )
    .unwrap();
    let cost = ds.cost(&model, Loss::Linear).unwrap();
    assert_eq!(cost, vec![Residual::Finite(n(10 * ONE))]);
    assert_eq!(model.bubble_calls.get(), 1);
}

#[test]
fn tpxy_distance_fits_liquid_side_only() {
    let model = LinearVleModel::new(2 * ONE, ONE);
    let ds = BinaryTPxy::new(
        vec![n(ONE), n(ONE)],
        vec![n(1_600_000_000), n(1_700_000_000)],
        vec![n(400_000_000), n(300_000_000)],
        vec![n(600_000_000), n(500_000_000)],
        Cost::Distance,
    )
    .unwrap();
    let cost = ds.cost(&model, Loss::Linear).unwrap();
    assert_eq!(cost.len(), 2);
    assert_eq!(model.dew_calls.get(), 0);
}

#[test]
fn distance_step_on_curve_directly() {
    let step = distance_step(
        n(400_000_000),
        n(1_600_000_000),
        n(400_000_000),
        n(100_000),
        n(1_600_000_000),
        n(1_234_567),
    );
    assert_eq!(step.residual.raw(), 0);
    assert!(step.converged);
    assert!(!step.diverged);
    assert_eq!(step.shift.raw(), 0);
}

#[test]
fn damping_schedule() {
    assert_eq!(damping_factor(0, n(ONE)).raw(), 750_000_000);
    assert_eq!(damping_factor(2, n(0)).raw(), 750_000_000);
    assert_eq!(damping_factor(5, n(ONE)).raw(), ONE);
    assert_eq!(damping_factor(9, n(5_000)).raw(), 500_000_000);
    assert_eq!(damping_factor(9, n(-5_000)).raw(), 500_000_000);
    assert_eq!(damping_factor(26, n(ONE)).raw(), 250_000_000);
}

#[test]
fn tpy_distance_fits_the_dew_curve() {
    // The experimental point lies exactly on the dew line p = 2 - y.
    let model = LinearVleModel::new(2 * ONE, ONE);
    let ds = BinaryTPy::new(
        vec![n(ONE)],
        vec![n(1_600_000_000)],
        vec![n(400_000_000)],
        Cost::Distance,
    )
    .unwrap();
    let cost = ds.cost(&model, Loss::Linear).unwrap();
    assert_eq!(cost, vec![Residual::Finite(n(0))]);
    assert_eq!(model.dew_calls.get(), 2);
    assert_eq!(model.bubble_calls.get(), 0);
}

#[test]
fn tpxy_chemical_potential_failure_aborts() {
    let mut model = LinearVleModel::new(ONE, 0);
    model.mu_fails = true;
    let ds = BinaryTPxy::new(
        vec![n(ONE)],
        vec![n(2 * ONE)],
        vec![n(400_000_000)],
        vec![n(600_000_000)],
        Cost::ChemicalPotential,
    )
    .unwrap();
    assert_eq!(ds.cost(&model, Loss::Linear), Err(EstimatorError::ModelError));
}

#[test]
fn failure_penalty_is_ten() {
    assert_eq!(failure_penalty().raw(), 10 * ONE);
}
