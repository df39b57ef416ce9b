//! Preprocessing parameters.

use vstd::prelude::*;

use crate::constants::{CPXPARAM_Preprocessing_Aggregator, CPXPARAM_Preprocessing_Fill};
use crate::parameters::{Parameter, ParameterValue};

verus! {

/// Preprocessing aggregator fill limit.
#[derive(Copy, Clone, Debug, PartialEq, Eq, Structural)]
pub struct Fill(pub u32);

impl Parameter for Fill {
    open spec fn spec_value(&self) -> ParameterValue {
        ParameterValue::Integer(self.0 as i32)
    }

    open spec fn spec_id(&self) -> u32 {
        CPXPARAM_Preprocessing_Fill
    }

    fn value(&self) -> ParameterValue {
        ParameterValue::Integer(#[verifier::truncate] (self.0 as i32))
    }

    fn id(&self) -> u32 {
        CPXPARAM_Preprocessing_Fill
    }
}

/// Preprocessing aggregator application limit: automatic, or a fixed
/// number of applications.
#[derive(Copy, Clone, Debug, PartialEq, Eq, Structural)]
pub enum Aggregator {
    Automatic,
    NbOfTimesToApply(u32),
}

impl Parameter for Aggregator {
    open spec fn spec_value(&self) -> ParameterValue {
        match self {
            Aggregator::Automatic => ParameterValue::Integer(-1i32),
            Aggregator::NbOfTimesToApply(times) => ParameterValue::Integer(times as i32),
        }
    }

    open spec fn spec_id(&self) -> u32 {
        CPXPARAM_Preprocessing_Aggregator
    }

    fn value(&self) -> ParameterValue {
        match self {
            Aggregator::Automatic => ParameterValue::Integer(-1i32),
            Aggregator::NbOfTimesToApply(times) => ParameterValue::Integer(#[verifier::truncate] (*times as i32)),
        }
    }

    fn id(&self) -> u32 {
        CPXPARAM_Preprocessing_Aggregator
    }
}

} // verus!
