//! The contract the cost functions require from the thermodynamic model.
//!
//! The equation-of-state solver itself is an external collaborator: the
//! library states here which operations it needs, hands in plain reduced
//! values, and consumes plain reduced values back.  Nothing is assumed about
//! the results — every cost function is verified for every value a model can
//! return, and a model failure is either propagated or replaced by a
//! documented penalty.
use vstd::prelude::*;
use crate::num::Num;

verus! {

/// The phase a single-phase state is initialized in.
#[derive(Clone, Copy, Debug, PartialEq, Eq, Structural)]
pub enum Phase {
    Liquid,
    Vapor,
}

/// A failure signalled by the thermodynamic model; opaque to the library.
#[derive(Clone, Copy, Debug, PartialEq, Eq, Structural)]
pub struct ModelError;

/// The model's critical point: temperature and mass density, as plain
/// reduced values.
#[derive(Clone, Copy, Debug)]
pub struct CriticalPoint {
    pub temperature: Num,
    pub mass_density: Num,
}

/// A pure-component phase equilibrium at fixed temperature; the library
/// reads the vapor-phase pressure and the liquid branch's mass density.
#[derive(Clone, Copy, Debug)]
pub struct PureEquilibrium {
    pub vapor_pressure: Num,
    pub liquid_mass_density: Num,
}

/// The capability a thermodynamic model must offer.  All quantities are
/// plain values reduced to the model's reference units.  Binary compositions
/// are passed as the first component's mole fraction; the second component's
/// fraction is one minus it.  Every operation may fail with a model-defined
/// error.
pub trait ThermoModel {
    /// Search for the critical point, bounded by the given temperature.
    fn critical_point(&self, max_temperature: Num) -> Result<CriticalPoint, ModelError>;

    /// Pure-component phase equilibrium at the given temperature, optionally
    /// seeded with a pressure estimate.
    fn pure_equilibrium(&self, temperature: Num, pressure_hint: Option<Num>) -> Result<
        PureEquilibrium,
        ModelError,
    >;

    /// Mass density of a pure-component single-phase state at the given
    /// temperature and pressure, initialized in the given phase.
    fn mass_density(&self, temperature: Num, pressure: Num, phase: Phase) -> Result<
        Num,
        ModelError,
    >;

    /// Chemical potentials of the two components of a binary single-phase
    /// state at the given temperature, pressure and composition, initialized
    /// in the given phase, reduced to the reference molar energy.
    fn chemical_potential(
        &self,
        temperature: Num,
        pressure: Num,
        molefrac: Num,
        phase: Phase,
    ) -> Result<(Num, Num), ModelError>;

    /// Pressure of the vapor phase coexisting with a liquid of the given
    /// composition at the given temperature, optionally seeded with a
    /// pressure estimate and the conjugate vapor composition.
    fn bubble_point(
        &self,
        temperature: Num,
        liquid_molefrac: Num,
        pressure_hint: Option<Num>,
        vapor_molefrac_hint: Option<Num>,
    ) -> Result<Num, ModelError>;

    /// Pressure of the vapor phase of the equilibrium that holds a vapor of
    /// the given composition, symmetric to `bubble_point`.
    fn dew_point(
        &self,
        temperature: Num,
        vapor_molefrac: Num,
        pressure_hint: Option<Num>,
        liquid_molefrac_hint: Option<Num>,
    ) -> Result<Num, ModelError>;
}

} // verus!
