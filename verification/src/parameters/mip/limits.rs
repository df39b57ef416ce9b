//! Limit parameters of the mixed-integer optimizer.

use vstd::prelude::*;

use crate::constants::{CPXPARAM_MIP_Limits_AggForCut, CPXPARAM_MIP_Limits_Nodes,
    CPXPARAM_MIP_Limits_Solutions};
use crate::errors::{Error, Input};
use crate::parameters::{Parameter, ParameterValue};
use crate::Result;

verus! {

/// Constraint aggregation limit for cut generation.
#[derive(Copy, Clone, Debug, PartialEq, Eq, Structural)]
pub struct AggForCut(pub u32);

impl Parameter for AggForCut {
    open spec fn spec_value(&self) -> ParameterValue {
        ParameterValue::Integer(self.0 as i32)
    }

    open spec fn spec_id(&self) -> u32 {
        CPXPARAM_MIP_Limits_AggForCut
    }

    fn value(&self) -> ParameterValue {
        ParameterValue::Integer(#[verifier::truncate] (self.0 as i32))
    }

    fn id(&self) -> u32 {
        CPXPARAM_MIP_Limits_AggForCut
    }
}

/// MIP integer-solution limit: stop after this many incumbents; at least
/// one.
#[derive(Copy, Clone, Debug, PartialEq, Eq, Structural)]
pub struct Solutions(u64);

impl Solutions {
    pub closed spec fn spec_raw(&self) -> u64 {
        self.0
    }

    /// Accept any positive count; zero is rejected as an input error.
    pub fn new(value: u64) -> (r: Result<Self>)
        ensures
            value == 0 ==> (r matches Err(e) && e is Input),
            value != 0 ==> (r matches Ok(s) && s.spec_raw() == value),
    {
        if value == 0 {
            return Err(
                Error::Input(
                    Input::from_message("CPXPARAM_MIP_Limits_Solutions cannot be == 0".to_owned()),
                ),
            );
        }
        Ok(Solutions(value))
    }
}

impl Parameter for Solutions {
    open spec fn spec_value(&self) -> ParameterValue {
        ParameterValue::Long(self.spec_raw() as i64)
    }

    open spec fn spec_id(&self) -> u32 {
        CPXPARAM_MIP_Limits_Solutions
    }

    fn value(&self) -> ParameterValue {
        ParameterValue::Long(#[verifier::truncate] (self.0 as i64))
    }

    fn id(&self) -> u32 {
        CPXPARAM_MIP_Limits_Solutions
    }
}

/// MIP node limit.
#[derive(Copy, Clone, Debug, PartialEq, Eq, Structural)]
pub struct Nodes(pub u64);

impl Parameter for Nodes {
    open spec fn spec_value(&self) -> ParameterValue {
        ParameterValue::Long(self.0 as i64)
    }

    open spec fn spec_id(&self) -> u32 {
        CPXPARAM_MIP_Limits_Nodes
    }

    fn value(&self) -> ParameterValue {
        ParameterValue::Long(#[verifier::truncate] (self.0 as i64))
    }

    fn id(&self) -> u32 {
        CPXPARAM_MIP_Limits_Nodes
    }
}

} // verus!
