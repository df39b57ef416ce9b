//! The typed configuration surface of the solver.
//!
//! Each parameter is a distinct value type implementing [`Parameter`],
//! which exposes the vendor-defined numeric identifier and the value
//! already coerced into one of the four kinds the weakly-typed native
//! setter interface accepts. Bounded parameters validate their range at
//! construction and fail with an input error; the rest accept any value of
//! their native type.

pub mod barrier;
pub mod emphasis;
pub mod mip;
pub mod preprocessing;
pub mod read;
pub mod tolerances;

use vstd::prelude::*;

use crate::constants::{CPXPARAM_Advance, CPXPARAM_Parallel, CPXPARAM_RandomSeed,
    CPXPARAM_ScreenOutput, CPXPARAM_Threads, CPXPARAM_TimeLimit};
use crate::numeric::Real;

verus! {

/// A parameter value in one of the four kinds the native setter interface
/// accepts. Double-precision values are carried as bit patterns, as
/// everywhere in this crate.
#[derive(Copy, Clone, Debug, PartialEq, Eq)]
pub enum ParameterValue {
    Integer(i32),
    Long(i64),
    Double(Real),
    Text(&'static str),
}

/// A typed solver parameter: its vendor identifier and its value coerced to
/// one of the accepted kinds. A raw count wider than its native kind is
/// truncated, as the weakly-typed setter interface itself would take it.
pub trait Parameter {
    spec fn spec_value(&self) -> ParameterValue;

    spec fn spec_id(&self) -> u32;

    fn value(&self) -> (r: ParameterValue)
        ensures
            r == self.spec_value(),
    ;

    fn id(&self) -> (r: u32)
        ensures
            r == self.spec_id(),
    ;
}

/// Advanced start switch: whether a solve may start from advanced basis
/// information or a starting vector.
#[derive(Copy, Clone, Debug, PartialEq, Eq, Structural)]
pub enum Advance {
    Unused,
    AdvancedBasis,
    AdvancedBasisOrStartingVector,
}

impl Parameter for Advance {
    open spec fn spec_value(&self) -> ParameterValue {
        match self {
            Advance::Unused => ParameterValue::Integer(0),
            Advance::AdvancedBasis => ParameterValue::Integer(1),
            Advance::AdvancedBasisOrStartingVector => ParameterValue::Integer(2),
        }
    }

    open spec fn spec_id(&self) -> u32 {
        CPXPARAM_Advance
    }

    fn value(&self) -> ParameterValue {
        match self {
            Advance::Unused => ParameterValue::Integer(0),
            Advance::AdvancedBasis => ParameterValue::Integer(1),
            Advance::AdvancedBasisOrStartingVector => ParameterValue::Integer(2),
        }
    }

    fn id(&self) -> u32 {
        CPXPARAM_Advance
    }
}

/// Parallel mode switch.
#[derive(Copy, Clone, Debug, PartialEq, Eq, Structural)]
pub enum ParallelMode {
    Opportunistic,
    Auto,
    Deterministic,
}

impl Parameter for ParallelMode {
    open spec fn spec_value(&self) -> ParameterValue {
        match self {
            ParallelMode::Opportunistic => ParameterValue::Integer(-1i32),
            ParallelMode::Auto => ParameterValue::Integer(0),
            ParallelMode::Deterministic => ParameterValue::Integer(1),
        }
    }

    open spec fn spec_id(&self) -> u32 {
        CPXPARAM_Parallel
    }

    fn value(&self) -> ParameterValue {
        match self {
            ParallelMode::Opportunistic => ParameterValue::Integer(-1i32),
            ParallelMode::Auto => ParameterValue::Integer(0),
            ParallelMode::Deterministic => ParameterValue::Integer(1),
        }
    }

    fn id(&self) -> u32 {
        CPXPARAM_Parallel
    }
}

/// Global thread count.
#[derive(Copy, Clone, Debug, PartialEq, Eq, Structural)]
pub struct Threads(pub u32);

impl Parameter for Threads {
    open spec fn spec_value(&self) -> ParameterValue {
        ParameterValue::Integer(self.0 as i32)
    }

    open spec fn spec_id(&self) -> u32 {
        CPXPARAM_Threads
    }

    fn value(&self) -> ParameterValue {
        ParameterValue::Integer(#[verifier::truncate] (self.0 as i32))
    }

    fn id(&self) -> u32 {
        CPXPARAM_Threads
    }
}

/// Messages-to-screen switch.
#[derive(Copy, Clone, Debug, PartialEq, Eq, Structural)]
pub struct ScreenOutput(pub bool);

impl Parameter for ScreenOutput {
    open spec fn spec_value(&self) -> ParameterValue {
        if self.0 {
            ParameterValue::Integer(1)
        } else {
            ParameterValue::Integer(0)
        }
    }

    open spec fn spec_id(&self) -> u32 {
        CPXPARAM_ScreenOutput
    }

    fn value(&self) -> ParameterValue {
        if self.0 {
            ParameterValue::Integer(1)
        } else {
            ParameterValue::Integer(0)
        }
    }

    fn id(&self) -> u32 {
        CPXPARAM_ScreenOutput
    }
}

/// Random seed.
#[derive(Copy, Clone, Debug, PartialEq, Eq, Structural)]
pub struct RandomSeed(pub u32);

impl Parameter for RandomSeed {
    open spec fn spec_value(&self) -> ParameterValue {
        ParameterValue::Integer(self.0 as i32)
    }

    open spec fn spec_id(&self) -> u32 {
        CPXPARAM_RandomSeed
    }

    fn value(&self) -> ParameterValue {
        ParameterValue::Integer(#[verifier::truncate] (self.0 as i32))
    }

    fn id(&self) -> u32 {
        CPXPARAM_RandomSeed
    }
}

/// Optimizer time limit: a duration in seconds, as a double-precision bit
/// pattern.
#[derive(Copy, Clone, Debug, PartialEq, Eq, Structural)]
pub struct TimeLimit(pub Real);

impl Parameter for TimeLimit {
    open spec fn spec_value(&self) -> ParameterValue {
        ParameterValue::Double(self.0)
    }

    open spec fn spec_id(&self) -> u32 {
        CPXPARAM_TimeLimit
    }

    fn value(&self) -> ParameterValue {
        ParameterValue::Double(self.0)
    }

    fn id(&self) -> u32 {
        CPXPARAM_TimeLimit
    }
}

} // verus!
