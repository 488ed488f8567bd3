//! Cost-function framework for fitting a parameterized thermodynamic model
//! against experimental measurements.
//!
//! A [`DataSet`] turns one experimental series into a residual vector for a
//! given model, a [`Loss`] robustifies residuals against outliers, and an
//! [`Estimator`] aggregates several weighted data sets into one flat residual
//! vector for an external optimizer.  All numeric work is done on the exact
//! fixed-point scalar [`Num`]; the thermodynamic model itself is reached only
//! through the [`ThermoModel`] trait, which the user of the library
//! implements.
use vstd::prelude::*;

pub mod num;
pub mod loss;
pub mod model;
pub mod dataset;
pub mod vapor_pressure;
pub mod liquid_density;
pub mod distance;
pub mod binary_vle;
pub mod estimator;

pub use crate::num::Num;
pub use crate::num::Residual;
pub use crate::loss::Loss;
pub use crate::model::ThermoModel;
pub use crate::dataset::DataSet;
pub use crate::estimator::Estimator;
pub use crate::binary_vle::Cost;

verus! {

/// Everything that can go wrong while a residual vector is assembled.
#[derive(Clone, Copy, Debug, PartialEq, Eq, Structural)]
pub enum EstimatorError {
    /// Input arrays disagree in length, or a cost selector is invalid for the
    /// data-set variant it was given to.
    IncompatibleInput,
    /// Residual-vector assembly failed.
    ShapeError,
    /// A malformed numeric literal was met in upstream input.
    ParseError,
    /// A dimension mismatch was met while reducing a quantity.
    QuantityError,
    /// The thermodynamic model signalled a failure.
    ModelError,
}

impl EstimatorError {
    /// A short human-readable description of the error.
    pub fn message(&self) -> (r: &'static str)
        ensures
            *self == EstimatorError::IncompatibleInput ==> r@ =~= "input has not the same amount of data as the target"@,
    {
        match self {
            EstimatorError::IncompatibleInput => "input has not the same amount of data as the target",
            EstimatorError::ShapeError => "residual vector assembly failed",
            EstimatorError::ParseError => "malformed numeric input",
            EstimatorError::QuantityError => "quantity dimension mismatch",
            EstimatorError::ModelError => "the thermodynamic model reported a failure",
        }
    }
}

} // verus!
