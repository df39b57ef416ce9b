//! Limit parameters of the barrier optimizer.

use vstd::prelude::*;

use crate::constants::{CPXPARAM_Barrier_Limits_Corrections, CPXPARAM_Barrier_Limits_Growth,
    CPXPARAM_Barrier_Limits_Iteration, CPXPARAM_Barrier_Limits_ObjRange, CPXPARAM_Barrier_Ordering};
use crate::errors::{Error, Input};
use crate::numeric::Real;
use crate::parameters::{Parameter, ParameterValue};
use crate::Result;

verus! {

/// Barrier growth limit: the factor by which an element may grow before
/// the problem counts as ill-conditioned; never below one.
#[derive(Copy, Clone, Debug, PartialEq, Eq, Structural)]
pub struct Growth(Real);

impl Growth {
    pub closed spec fn spec_raw(&self) -> Real {
        self.0
    }

    /// Accept any limit that does not compare below one; a smaller value is
    /// rejected as an input error.
    pub fn new(value: Real) -> (r: Result<Self>)
        ensures
            value.spec_lt_one() ==> (r matches Err(e) && e is Input),
            !value.spec_lt_one() ==> (r matches Ok(g) && g.spec_raw() == value),
    {
        if value.lt_one() {
            return Err(
                Error::Input(
                    Input::from_message("CPXPARAM_Barrier_Limits_Growth cannot be < 1.0".to_owned()),
                ),
            );
        }
        Ok(Growth(value))
    }
}

impl Parameter for Growth {
    open spec fn spec_value(&self) -> ParameterValue {
        ParameterValue::Double(self.spec_raw())
    }

    open spec fn spec_id(&self) -> u32 {
        CPXPARAM_Barrier_Limits_Growth
    }

    fn value(&self) -> ParameterValue {
        ParameterValue::Double(self.0)
    }

    fn id(&self) -> u32 {
        CPXPARAM_Barrier_Limits_Growth
    }
}

/// Barrier iteration limit.
#[derive(Copy, Clone, Debug, PartialEq, Eq, Structural)]
pub struct Iteration(pub u64);

impl Parameter for Iteration {
    open spec fn spec_value(&self) -> ParameterValue {
        ParameterValue::Long(self.0 as i64)
    }

    open spec fn spec_id(&self) -> u32 {
        CPXPARAM_Barrier_Limits_Iteration
    }

    fn value(&self) -> ParameterValue {
        ParameterValue::Long(#[verifier::truncate] (self.0 as i64))
    }

    fn id(&self) -> u32 {
        CPXPARAM_Barrier_Limits_Iteration
    }
}

/// Barrier maximum correction limit: automatic, or a fixed count.
#[derive(Copy, Clone, Debug, PartialEq, Eq, Structural)]
pub enum Corrections {
    Automatic,
    Number(u64),
}

impl Parameter for Corrections {
    open spec fn spec_value(&self) -> ParameterValue {
        match self {
            Corrections::Automatic => ParameterValue::Long(-1i64),
            Corrections::Number(n) => ParameterValue::Long(n as i64),
        }
    }

    open spec fn spec_id(&self) -> u32 {
        CPXPARAM_Barrier_Limits_Corrections
    }

    fn value(&self) -> ParameterValue {
        match self {
            Corrections::Automatic => ParameterValue::Long(-1i64),
            Corrections::Number(n) => ParameterValue::Long(#[verifier::truncate] (*n as i64)),
        }
    }

    fn id(&self) -> u32 {
        CPXPARAM_Barrier_Limits_Corrections
    }
}

/// Barrier objective range: the maximum absolute objective value; never
/// negative.
#[derive(Copy, Clone, Debug, PartialEq, Eq, Structural)]
pub struct ObjRange(Real);

impl ObjRange {
    pub closed spec fn spec_raw(&self) -> Real {
        self.0
    }

    /// Accept any range that does not compare below zero; a negative value
    /// is rejected as an input error.
    pub fn new(value: Real) -> (r: Result<Self>)
        ensures
            value.spec_lt_zero() ==> (r matches Err(e) && e is Input),
            !value.spec_lt_zero() ==> (r matches Ok(o) && o.spec_raw() == value),
    {
        if value.lt_zero() {
            return Err(
                Error::Input(
                    Input::from_message(
                        "CPXPARAM_Barrier_Limits_ObjRange cannot be < 0.0".to_owned(),
                    ),
                ),
            );
        }
        Ok(ObjRange(value))
    }
}

impl Parameter for ObjRange {
    open spec fn spec_value(&self) -> ParameterValue {
        ParameterValue::Double(self.spec_raw())
    }

    open spec fn spec_id(&self) -> u32 {
        CPXPARAM_Barrier_Limits_ObjRange
    }

    fn value(&self) -> ParameterValue {
        ParameterValue::Double(self.0)
    }

    fn id(&self) -> u32 {
        CPXPARAM_Barrier_Limits_ObjRange
    }
}

/// Barrier ordering algorithm.
#[derive(Copy, Clone, Debug, PartialEq, Eq, Structural)]
pub enum Ordering {
    Automatic,
    ApproximateMinimumDegree,
    ApproximateMinimumFill,
    NestedDissection,
}

impl Parameter for Ordering {
    open spec fn spec_value(&self) -> ParameterValue {
        match self {
            Ordering::Automatic => ParameterValue::Integer(0),
            Ordering::ApproximateMinimumDegree => ParameterValue::Integer(1),
            Ordering::ApproximateMinimumFill => ParameterValue::Integer(2),
            Ordering::NestedDissection => ParameterValue::Integer(3),
        }
    }

    open spec fn spec_id(&self) -> u32 {
        CPXPARAM_Barrier_Ordering
    }

    fn value(&self) -> ParameterValue {
        match self {
            Ordering::Automatic => ParameterValue::Integer(0),
            Ordering::ApproximateMinimumDegree => ParameterValue::Integer(1),
            Ordering::ApproximateMinimumFill => ParameterValue::Integer(2),
            Ordering::NestedDissection => ParameterValue::Integer(3),
        }
    }

    fn id(&self) -> u32 {
        CPXPARAM_Barrier_Ordering
    }
}

} // verus!
