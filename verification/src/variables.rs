//! Columns of the model: typed, bounded, weighted, named variables.

use vstd::prelude::*;

use crate::constants::{CPX_BINARY, CPX_CONTINUOUS, CPX_INTEGER, CPX_SEMICONT, CPX_SEMIINT};
use crate::numeric::Real;

verus! {

/// The kind of a variable, deciding how the solver treats its column.
#[derive(Copy, Clone, Debug, PartialEq, Eq, Structural)]
pub enum VariableType {
    Continuous,
    Binary,
    Integer,
    SemiContinuous,
    SemiInteger,
}

impl VariableType {
    /// The one-letter column-type code the native interface expects.
    pub open spec fn spec_into_raw(self) -> u8 {
        match self {
            VariableType::Continuous => CPX_CONTINUOUS,
            VariableType::Binary => CPX_BINARY,
            VariableType::Integer => CPX_INTEGER,
            VariableType::SemiContinuous => CPX_SEMICONT,
            VariableType::SemiInteger => CPX_SEMIINT,
        }
    }

    pub fn into_raw(self) -> (r: u8)
        ensures
            r == self.spec_into_raw(),
    {
        match self {
            VariableType::Continuous => CPX_CONTINUOUS,
            VariableType::Binary => CPX_BINARY,
            VariableType::Integer => CPX_INTEGER,
            VariableType::SemiContinuous => CPX_SEMICONT,
            VariableType::SemiInteger => CPX_SEMIINT,
        }
    }
}

/// One variable of the model: its type, its objective weight, its bounds
/// and its name, exactly as supplied at construction.
#[derive(Clone, Debug)]
pub struct Variable {
    type_: VariableType,
    weight: Real,
    lower_bound: Real,
    upper_bound: Real,
    name: String,
}

impl Variable {
    pub closed spec fn spec_type(&self) -> VariableType {
        self.type_
    }

    pub closed spec fn spec_weight(&self) -> Real {
        self.weight
    }

    pub closed spec fn spec_lower_bound(&self) -> Real {
        self.lower_bound
    }

    pub closed spec fn spec_upper_bound(&self) -> Real {
        self.upper_bound
    }

    pub closed spec fn spec_name(&self) -> Seq<char> {
        self.name@
    }

    /// Build a variable; every field is recoverable unchanged through the
    /// getters below.
    pub fn new(ty: VariableType, obj: Real, lb: Real, ub: Real, name: &str) -> (r: Variable)
        ensures
            r.spec_type() == ty,
            r.spec_weight() == obj,
            r.spec_lower_bound() == lb,
            r.spec_upper_bound() == ub,
            r.spec_name() == name@,
    {
        Variable { type_: ty, weight: obj, lower_bound: lb, upper_bound: ub, name: name.to_owned() }
    }

    pub fn name(&self) -> (r: &str)
        ensures
            r@ == self.spec_name(),
    {
        self.name.as_str()
    }

    pub fn upper_bound(&self) -> (r: Real)
        ensures
            r == self.spec_upper_bound(),
    {
        self.upper_bound
    }

    pub fn lower_bound(&self) -> (r: Real)
        ensures
            r == self.spec_lower_bound(),
    {
        self.lower_bound
    }

    pub fn weight(&self) -> (r: Real)
        ensures
            r == self.spec_weight(),
    {
        self.weight
    }

    pub fn type_(&self) -> (r: VariableType)
        ensures
            r == self.spec_type(),
    {
        self.type_
    }
}

} // verus!
