use std::cell::Cell;
use estimator::num::{Num, Residual};
use estimator::model::{CriticalPoint, ModelError, Phase, PureEquilibrium, ThermoModel};
use estimator::vapor_pressure::{critical_penalty, VaporPressure};
use estimator::liquid_density::{extrapolated_density, EquilibriumLiquidDensity, LiquidDensity};
use estimator::{DataSet, EstimatorError, Loss};

fn n(units: i128) -> Num {
    Num::new(units)
}

const ONE: i128 = 1_000_000_000;

/// A pure-component model with fixed answers and call counters.
struct PureModel {
    tc: i128,
    rho_c: i128,
    vapor_pressure: i128,
    liquid_density: i128,
    critical_fails: bool,
    equilibrium_fails: bool,
    equilibrium_calls: Cell<u32>,
}

impl PureModel {
    fn new(tc: i128, vapor_pressure: i128, liquid_density: i128) -> PureModel {
        PureModel {
            tc,
            rho_c: ONE,
            vapor_pressure,
            liquid_density,
            critical_fails: false,
            equilibrium_fails: false,
            equilibrium_calls: Cell::new(0),
        }
    }
}

impl ThermoModel for PureModel {
    fn critical_point(&self, _max_temperature: Num) -> Result<CriticalPoint, ModelError> {
        if self.critical_fails {
            Err(ModelError)
        } else {
            Ok(CriticalPoint { temperature: n(self.tc), mass_density: n(self.rho_c) })
        }
    }

    fn pure_equilibrium(
        &self,
        _temperature: Num,
        _pressure_hint: Option<Num>,
    ) -> Result<PureEquilibrium, ModelError> {
        self.equilibrium_calls.set(self.equilibrium_calls.get() + 1);
        if self.equilibrium_fails {
            Err(ModelError)
        } else {
            Ok(PureEquilibrium {
                vapor_pressure: n(self.vapor_pressure),
                liquid_mass_density: n(self.liquid_density),
            })
        }
    }

    fn mass_density(
        &self,
        _temperature: Num,
        _pressure: Num,
        _phase: Phase,
    ) -> Result<Num, ModelError> {
        if self.equilibrium_fails {
            Err(ModelError)
        } else {
            Ok(n(self.liquid_density))
        }
    }

    fn chemical_potential(
        &self,
        _temperature: Num,
        _pressure: Num,
        _molefrac: Num,
        _phase: Phase,
    ) -> Result<(Num, Num), ModelError> {
        Err(ModelError)
    }

    fn bubble_point(
        &self,
        _temperature: Num,
        _liquid_molefrac: Num,
        _pressure_hint: Option<Num>,
        _vapor_molefrac_hint: Option<Num>,
    ) -> Result<Num, ModelError> {
        Err(ModelError)
    }

    fn dew_point(
        &self,
        _temperature: Num,
        _vapor_molefrac: Num,
        _pressure_hint: Option<Num>,
        _liquid_molefrac_hint: Option<Num>,
    ) -> Result<Num, ModelError> {
        Err(ModelError)
    }
}

#[test]
fn critical_penalty_is_five_times_excess() {
    assert_eq!(critical_penalty(n(3 * ONE), n(ONE)).raw(), 10 * ONE);
    assert_eq!(critical_penalty(n(ONE + 1), n(ONE)).raw(), 5);
}

#[test]
fn vapor_pressure_above_critical_gets_penalty_without_query() {
    // T = Tc + 2 in reduced units: the residual is exactly 5 * 2 = 10 and no
    // equilibrium query is attempted.
    let model = PureModel::new(ONE, ONE, ONE);
    let ds = VaporPressure::new(vec![n(2 * ONE)], vec![n(3 * ONE)], vec![]).unwrap();
    let cost = ds.cost(&model, Loss::Linear).unwrap();
    assert_eq!(cost, vec![Residual::Finite(n(10 * ONE))]);
    assert_eq!(model.equilibrium_calls.get(), 0);
}

#[test]
fn vapor_pressure_relative_deviation() {
    // measured 2, predicted 1: (2 - 1) / 2 = 0.5.
    let model = PureModel::new(ONE, ONE, ONE);
    let ds = VaporPressure::new(vec![n(2 * ONE)], vec![n(800_000_000)], vec![]).unwrap();
    let cost = ds.cost(&model, Loss::Linear).unwrap();
    assert_eq!(cost, vec![Residual::Finite(n(500_000_000))]);
    assert_eq!(model.equilibrium_calls.get(), 1);
}

#[test]
fn vapor_pressure_divides_by_datapoints() {
    let model = PureModel::new(ONE, ONE, ONE);
    let ds = VaporPressure::new(
        vec![n(2 * ONE), n(2 * ONE)],
        vec![n(3 * ONE), n(800_000_000)],
        vec![],
    )
    .unwrap();
    let cost = ds.cost(&model, Loss::Linear).unwrap();
    assert_eq!(
        cost,
        vec![Residual::Finite(n(5 * ONE)), Residual::Finite(n(250_000_000))]
    );
}

#[test]
fn vapor_pressure_critical_failure_aborts() {
    let mut model = PureModel::new(ONE, ONE, ONE);
    model.critical_fails = true;
    let ds = VaporPressure::new(vec![n(2 * ONE)], vec![n(ONE)], vec![]).unwrap();
    assert_eq!(ds.cost(&model, Loss::Linear), Err(EstimatorError::ModelError));
}

#[test]
fn vapor_pressure_equilibrium_failure_aborts() {
    let mut model = PureModel::new(ONE, ONE, ONE);
    model.equilibrium_fails = true;
    let ds = VaporPressure::new(vec![n(2 * ONE)], vec![n(800_000_000)], vec![]).unwrap();
    assert_eq!(ds.cost(&model, Loss::Linear), Err(EstimatorError::ModelError));
}

#[test]
fn vapor_pressure_rejects_bad_input() {
    assert_eq!(
        VaporPressure::new(vec![n(ONE)], vec![], vec![]).err(),
        Some(EstimatorError::IncompatibleInput)
    );
    assert_eq!(
        VaporPressure::new(vec![], vec![], vec![]).err(),
        Some(EstimatorError::IncompatibleInput)
    );
}

#[test]
fn liquid_density_relative_deviation() {
    // target 2, predicted 3: (3 - 2) / 2 = 0.5.
    let model = PureModel::new(ONE, ONE, 3 * ONE);
    let ds = LiquidDensity::new(vec![n(2 * ONE)], vec![n(ONE)], vec![n(ONE)]).unwrap();
    let cost = ds.cost(&model, Loss::Linear).unwrap();
    assert_eq!(cost, vec![Residual::Finite(n(500_000_000))]);
}

#[test]
fn liquid_density_failed_state_aborts() {
    // A failed single-phase state is no designed recovery point: the whole
    // evaluation fails.
    let mut model = PureModel::new(ONE, ONE, 3 * ONE);
    model.equilibrium_fails = true;
    let ds = LiquidDensity::new(vec![n(2 * ONE)], vec![n(ONE)], vec![n(ONE)]).unwrap();
    assert_eq!(ds.cost(&model, Loss::Linear), Err(EstimatorError::ModelError));
}

#[test]
fn liquid_density_getters_round_trip() {
    let ds = LiquidDensity::new(vec![n(2 * ONE)], vec![n(3)], vec![n(4)]).unwrap();
    assert_eq!(ds.target(), vec![n(2 * ONE)]);
    assert_eq!(ds.temperature(), vec![n(3)]);
    assert_eq!(ds.pressure(), vec![n(4)]);
    assert_eq!(ds.datapoints(), 1);
    assert_eq!(ds.target_str(), "liquid density");
    assert_eq!(ds.input_str(), vec!["temperature", "pressure"]);
    let input = ds.get_input();
    assert_eq!(input.get("temperature"), Some(&vec![n(3)]));
    assert_eq!(input.get("pressure"), Some(&vec![n(4)]));
}

#[test]
fn liquid_density_rejects_mismatched_lengths() {
    assert_eq!(
        LiquidDensity::new(vec![n(ONE)], vec![n(ONE)], vec![]).err(),
        Some(EstimatorError::IncompatibleInput)
    );
}

#[test]
fn equilibrium_density_reads_liquid_branch() {
    let model = PureModel::new(ONE, ONE, 3 * ONE);
    let ds = EquilibriumLiquidDensity::new(vec![n(2 * ONE)], vec![n(ONE)], false).unwrap();
    let cost = ds.cost(&model, Loss::Linear).unwrap();
    assert_eq!(cost, vec![Residual::Finite(n(500_000_000))]);
}

#[test]
fn equilibrium_density_without_extrapolation_is_invalid() {
    // Above the true critical point with extrapolation off, the residual is
    // the invalid marker.
    let mut model = PureModel::new(ONE, ONE, 3 * ONE);
    model.equilibrium_fails = true;
    let ds = EquilibriumLiquidDensity::new(vec![n(2 * ONE)], vec![n(3 * ONE)], false).unwrap();
    let cost = ds.cost(&model, Loss::Linear).unwrap();
    assert_eq!(cost, vec![Residual::Invalid]);
}

#[test]
fn equilibrium_density_extrapolates_flat_branch() {
    // tr = 0.5 >= 1/e: the prediction is rho_c * 0.62; with target 0.31 the
    // residual is exactly 1.
    let mut model = PureModel::new(ONE, ONE, 3 * ONE);
    model.equilibrium_fails = true;
    let ds =
        EquilibriumLiquidDensity::new(vec![n(310_000_000)], vec![n(1_500_000_000)], true).unwrap();
    let cost = ds.cost(&model, Loss::Linear).unwrap();
    assert_eq!(cost, vec![Residual::Finite(n(ONE))]);
}

#[test]
fn extrapolated_density_follows_log_formula() {
    // tr = 0.135335283 < 1/e: the prediction follows rho_c * (1 + tr*ln tr).
    let tr = 0.135335283f64;
    let out = extrapolated_density(n(1_135_335_283), n(ONE), n(ONE));
    match out {
        Residual::Finite(v) => {
            let got = v.raw() as f64 / 1e9;
            let expect = 1.0 + tr * tr.ln();
            assert!((got - expect).abs() < 1e-6, "got {got}, expected {expect}");
        },
        Residual::Invalid => panic!("expected a finite extrapolation"),
    }
}

#[test]
fn extrapolated_density_invalid_at_or_below_critical() {
    assert_eq!(extrapolated_density(n(ONE), n(ONE), n(ONE)), Residual::Invalid);
    assert_eq!(extrapolated_density(n(900_000_000), n(ONE), n(ONE)), Residual::Invalid);
}

#[test]
fn equilibrium_density_rejects_bad_input() {
    assert_eq!(
        EquilibriumLiquidDensity::new(vec![], vec![], true).err(),
        Some(EstimatorError::IncompatibleInput)
    );
    assert_eq!(
        EquilibriumLiquidDensity::new(vec![n(ONE)], vec![n(ONE), n(ONE)], true).err(),
        Some(EstimatorError::IncompatibleInput)
    );
}

#[test]
fn dataset_enum_dispatches() {
    let model = PureModel::new(ONE, ONE, 3 * ONE);
    let ds = DataSet::LiquidDensity(
        LiquidDensity::new(vec![n(2 * ONE)], vec![n(ONE)], vec![n(ONE)]).unwrap(),
    );
    assert_eq!(ds.datapoints(), 1);
    let cost = ds.cost(&model, Loss::Linear).unwrap();
    assert_eq!(cost.len(), 1);
}

#[test]
fn error_messages_name_the_failure() {
    assert_eq!(
        EstimatorError::IncompatibleInput.message(),
        "input has not the same amount of data as the target"
    );
}
