//! Tolerance parameters of the mixed-integer optimizer.

use vstd::prelude::*;

use crate::constants::{CPXPARAM_MIP_Tolerances_AbsMIPGap, CPXPARAM_MIP_Tolerances_MIPGap};
use crate::errors::{Error, Input};
use crate::numeric::Real;
use crate::parameters::{Parameter, ParameterValue};
use crate::Result;

verus! {

/// Relative MIP gap tolerance; a fraction between zero and one.
#[derive(Copy, Clone, Debug, PartialEq, Eq, Structural)]
pub struct MIPGap(Real);

impl MIPGap {
    pub closed spec fn spec_raw(&self) -> Real {
        self.0
    }

    /// Accept any gap inside the unit interval; everything else — negative
    /// values, values above one, and values comparable to neither bound —
    /// is rejected as an input error.
    pub fn new(value: Real) -> (r: Result<Self>)
        ensures
            !value.spec_in_unit_interval() ==> (r matches Err(e) && e is Input),
            value.spec_in_unit_interval() ==> (r matches Ok(g) && g.spec_raw() == value),
    {
        if !value.in_unit_interval() {
            return Err(
                Error::Input(
                    Input::from_message(
                        "CPXPARAM_MIP_Tolerances_MIPGap cannot be < 0.0 or > 1.0".to_owned(),
                    ),
                ),
            );
        }
        Ok(MIPGap(value))
    }
}

impl Parameter for MIPGap {
    open spec fn spec_value(&self) -> ParameterValue {
        ParameterValue::Double(self.spec_raw())
    }

    open spec fn spec_id(&self) -> u32 {
        CPXPARAM_MIP_Tolerances_MIPGap
    }

    fn value(&self) -> ParameterValue {
        ParameterValue::Double(self.0)
    }

    fn id(&self) -> u32 {
        CPXPARAM_MIP_Tolerances_MIPGap
    }
}

/// Absolute MIP gap tolerance; never negative.
#[derive(Copy, Clone, Debug, PartialEq, Eq, Structural)]
pub struct AbsMIPGap(Real);

impl AbsMIPGap {
    pub closed spec fn spec_raw(&self) -> Real {
        self.0
    }

    /// Accept any gap that does not compare below zero; a negative value is
    /// rejected as an input error.
    pub fn new(value: Real) -> (r: Result<Self>)
        ensures
            value.spec_lt_zero() ==> (r matches Err(e) && e is Input),
            !value.spec_lt_zero() ==> (r matches Ok(g) && g.spec_raw() == value),
    {
        if value.lt_zero() {
            return Err(
                Error::Input(
                    Input::from_message(
                        "CPXPARAM_MIP_Tolerances_AbsMIPGap cannot be < 0.0".to_owned(),
                    ),
                ),
            );
        }
        Ok(AbsMIPGap(value))
    }
}

impl Parameter for AbsMIPGap {
    open spec fn spec_value(&self) -> ParameterValue {
        ParameterValue::Double(self.spec_raw())
    }

    open spec fn spec_id(&self) -> u32 {
        CPXPARAM_MIP_Tolerances_AbsMIPGap
    }

    fn value(&self) -> ParameterValue {
        ParameterValue::Double(self.0)
    }

    fn id(&self) -> u32 {
        CPXPARAM_MIP_Tolerances_AbsMIPGap
    }
}

} // verus!
