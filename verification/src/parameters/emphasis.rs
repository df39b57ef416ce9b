//! Emphasis parameters: where the optimizer should spend its effort.

use vstd::prelude::*;

use crate::constants::CPXPARAM_Emphasis_MIP;
use crate::parameters::{Parameter, ParameterValue};

verus! {

/// MIP emphasis switch.
#[derive(Copy, Clone, Debug, PartialEq, Eq, Structural)]
pub enum MIP {
    Balanced,
    Feasibility,
    Optimality,
    BestBound,
    HiddenFeas,
    Heuristic,
}

impl Parameter for MIP {
    open spec fn spec_value(&self) -> ParameterValue {
        match self {
            MIP::Balanced => ParameterValue::Integer(0),
            MIP::Feasibility => ParameterValue::Integer(1),
            MIP::Optimality => ParameterValue::Integer(2),
            MIP::BestBound => ParameterValue::Integer(3),
            MIP::HiddenFeas => ParameterValue::Integer(4),
            MIP::Heuristic => ParameterValue::Integer(5),
        }
    }

    open spec fn spec_id(&self) -> u32 {
        CPXPARAM_Emphasis_MIP
    }

    fn value(&self) -> ParameterValue {
        match self {
            MIP::Balanced => ParameterValue::Integer(0),
            MIP::Feasibility => ParameterValue::Integer(1),
            MIP::Optimality => ParameterValue::Integer(2),
            MIP::BestBound => ParameterValue::Integer(3),
            MIP::HiddenFeas => ParameterValue::Integer(4),
            MIP::Heuristic => ParameterValue::Integer(5),
        }
    }

    fn id(&self) -> u32 {
        CPXPARAM_Emphasis_MIP
    }
}

} // verus!
