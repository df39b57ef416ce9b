//! Parameters of the barrier optimizer.

pub mod limits;

use vstd::prelude::*;

use crate::constants::{CPXPARAM_Barrier_Algorithm, CPXPARAM_Barrier_ColNonzeros,
    CPXPARAM_Barrier_ConvergeTol, CPXPARAM_Barrier_Crossover, CPXPARAM_Barrier_Display,
    CPXPARAM_Barrier_QCPConvergeTol, CPXPARAM_Barrier_StartAlg};
use crate::errors::{Error, Input};
use crate::numeric::Real;
use crate::parameters::{Parameter, ParameterValue};
use crate::Result;

verus! {

/// Barrier algorithm choice.
#[derive(Copy, Clone, Debug, PartialEq, Eq, Structural)]
pub enum Algorithm {
    Default,
    InfeasibilityEstimateStart,
    InfeasibilityConstantStart,
    StandardBarrier,
}

impl Parameter for Algorithm {
    open spec fn spec_value(&self) -> ParameterValue {
        match self {
            Algorithm::Default => ParameterValue::Integer(0),
            Algorithm::InfeasibilityEstimateStart => ParameterValue::Integer(1),
            Algorithm::InfeasibilityConstantStart => ParameterValue::Integer(2),
            Algorithm::StandardBarrier => ParameterValue::Integer(3),
        }
    }

    open spec fn spec_id(&self) -> u32 {
        CPXPARAM_Barrier_Algorithm
    }

    fn value(&self) -> ParameterValue {
        match self {
            Algorithm::Default => ParameterValue::Integer(0),
            Algorithm::InfeasibilityEstimateStart => ParameterValue::Integer(1),
            Algorithm::InfeasibilityConstantStart => ParameterValue::Integer(2),
            Algorithm::StandardBarrier => ParameterValue::Integer(3),
        }
    }

    fn id(&self) -> u32 {
        CPXPARAM_Barrier_Algorithm
    }
}

/// Barrier column nonzeros: the density threshold for treating a column as
/// dense.
#[derive(Copy, Clone, Debug, PartialEq, Eq, Structural)]
pub struct ColNonzeros(pub u32);

impl Parameter for ColNonzeros {
    open spec fn spec_value(&self) -> ParameterValue {
        ParameterValue::Integer(self.0 as i32)
    }

    open spec fn spec_id(&self) -> u32 {
        CPXPARAM_Barrier_ColNonzeros
    }

    fn value(&self) -> ParameterValue {
        ParameterValue::Integer(#[verifier::truncate] (self.0 as i32))
    }

    fn id(&self) -> u32 {
        CPXPARAM_Barrier_ColNonzeros
    }
}

/// Barrier crossover algorithm.
#[derive(Copy, Clone, Debug, PartialEq, Eq, Structural)]
pub enum Crossover {
    Automatic,
    PrimalCrossover,
    DualCrossover,
}

impl Parameter for Crossover {
    open spec fn spec_value(&self) -> ParameterValue {
        match self {
            Crossover::Automatic => ParameterValue::Integer(0),
            Crossover::PrimalCrossover => ParameterValue::Integer(1),
            Crossover::DualCrossover => ParameterValue::Integer(2),
        }
    }

    open spec fn spec_id(&self) -> u32 {
        CPXPARAM_Barrier_Crossover
    }

    fn value(&self) -> ParameterValue {
        match self {
            Crossover::Automatic => ParameterValue::Integer(0),
            Crossover::PrimalCrossover => ParameterValue::Integer(1),
            Crossover::DualCrossover => ParameterValue::Integer(2),
        }
    }

    fn id(&self) -> u32 {
        CPXPARAM_Barrier_Crossover
    }
}

/// Barrier progress display level.
#[derive(Copy, Clone, Debug, PartialEq, Eq, Structural)]
pub enum Display {
    Off,
    NormalSetupAndIteration,
    Diagnostic,
}

impl Parameter for Display {
    open spec fn spec_value(&self) -> ParameterValue {
        match self {
            Display::Off => ParameterValue::Integer(0),
            Display::NormalSetupAndIteration => ParameterValue::Integer(1),
            Display::Diagnostic => ParameterValue::Integer(2),
        }
    }

    open spec fn spec_id(&self) -> u32 {
        CPXPARAM_Barrier_Display
    }

    fn value(&self) -> ParameterValue {
        match self {
            Display::Off => ParameterValue::Integer(0),
            Display::NormalSetupAndIteration => ParameterValue::Integer(1),
            Display::Diagnostic => ParameterValue::Integer(2),
        }
    }

    fn id(&self) -> u32 {
        CPXPARAM_Barrier_Display
    }
}

/// Convergence tolerance for LP and QP problems; never negative.
#[derive(Copy, Clone, Debug, PartialEq, Eq, Structural)]
pub struct ConvergeTol(Real);

impl ConvergeTol {
    pub closed spec fn spec_raw(&self) -> Real {
        self.0
    }

    /// Accept any tolerance that does not compare below zero; a negative
    /// value is rejected as an input error.
    pub fn new(value: Real) -> (r: Result<Self>)
        ensures
            value.spec_lt_zero() ==> (r matches Err(e) && e is Input),
            !value.spec_lt_zero() ==> (r matches Ok(t) && t.spec_raw() == value),
    {
        if value.lt_zero() {
            return Err(
                Error::Input(
                    Input::from_message("CPXPARAM_Barrier_ConvergeTol cannot be < 0.0".to_owned()),
                ),
            );
        }
        Ok(ConvergeTol(value))
    }
}

impl Parameter for ConvergeTol {
    open spec fn spec_value(&self) -> ParameterValue {
        ParameterValue::Double(self.spec_raw())
    }

    open spec fn spec_id(&self) -> u32 {
        CPXPARAM_Barrier_ConvergeTol
    }

    fn value(&self) -> ParameterValue {
        ParameterValue::Double(self.0)
    }

    fn id(&self) -> u32 {
        CPXPARAM_Barrier_ConvergeTol
    }
}

/// Convergence tolerance for quadratically constrained problems; never
/// negative.
#[derive(Copy, Clone, Debug, PartialEq, Eq, Structural)]
pub struct QCPConvergeTol(Real);

impl QCPConvergeTol {
    pub closed spec fn spec_raw(&self) -> Real {
        self.0
    }

    /// Accept any tolerance that does not compare below zero; a negative
    /// value is rejected as an input error.
    pub fn new(value: Real) -> (r: Result<Self>)
        ensures
            value.spec_lt_zero() ==> (r matches Err(e) && e is Input),
            !value.spec_lt_zero() ==> (r matches Ok(t) && t.spec_raw() == value),
    {
        if value.lt_zero() {
            return Err(
                Error::Input(
                    Input::from_message(
                        "CPXPARAM_Barrier_QCPConvergeTol cannot be < 0.0".to_owned(),
                    ),
                ),
            );
        }
        Ok(QCPConvergeTol(value))
    }
}

impl Parameter for QCPConvergeTol {
    open spec fn spec_value(&self) -> ParameterValue {
        ParameterValue::Double(self.spec_raw())
    }

    open spec fn spec_id(&self) -> u32 {
        CPXPARAM_Barrier_QCPConvergeTol
    }

    fn value(&self) -> ParameterValue {
        ParameterValue::Double(self.0)
    }

    fn id(&self) -> u32 {
        CPXPARAM_Barrier_QCPConvergeTol
    }
}

/// Barrier starting-point algorithm.
#[derive(Copy, Clone, Debug, PartialEq, Eq, Structural)]
pub enum StartAlg {
    DualIs0,
    EstimateDual,
    AverageOfPrimalEstimateDualIs0,
    AverageOfPrimalEstimateEstimateDual,
}

impl Parameter for StartAlg {
    open spec fn spec_value(&self) -> ParameterValue {
        match self {
            StartAlg::DualIs0 => ParameterValue::Integer(1),
            StartAlg::EstimateDual => ParameterValue::Integer(2),
            StartAlg::AverageOfPrimalEstimateDualIs0 => ParameterValue::Integer(3),
            StartAlg::AverageOfPrimalEstimateEstimateDual => ParameterValue::Integer(4),
        }
    }

    open spec fn spec_id(&self) -> u32 {
        CPXPARAM_Barrier_StartAlg
    }

    fn value(&self) -> ParameterValue {
        match self {
            StartAlg::DualIs0 => ParameterValue::Integer(1),
            StartAlg::EstimateDual => ParameterValue::Integer(2),
            StartAlg::AverageOfPrimalEstimateDualIs0 => ParameterValue::Integer(3),
            StartAlg::AverageOfPrimalEstimateEstimateDual => ParameterValue::Integer(4),
        }
    }

    fn id(&self) -> u32 {
        CPXPARAM_Barrier_StartAlg
    }
}

} // verus!
