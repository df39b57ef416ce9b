//! Rows of the model: linear constraints over the variables.

use vstd::prelude::*;

use crate::constants::{CPX_SENSE_EQ, CPX_SENSE_GE, CPX_SENSE_LE};
use crate::numeric::Real;
use crate::VariableId;

verus! {

/// The relational type of a constraint.
#[derive(Copy, Clone, Debug, PartialEq, Eq, Structural)]
pub enum ConstraintType {
    LessThanEq,
    Eq,
    GreaterThanEq,
}

impl ConstraintType {
    /// The one-letter row-sense code the native interface expects.
    pub open spec fn spec_into_raw(self) -> u8 {
        match self {
            ConstraintType::LessThanEq => CPX_SENSE_LE,
            ConstraintType::Eq => CPX_SENSE_EQ,
            ConstraintType::GreaterThanEq => CPX_SENSE_GE,
        }
    }

    pub fn into_raw(self) -> (r: u8)
        ensures
            r == self.spec_into_raw(),
    {
        match self {
            ConstraintType::LessThanEq => CPX_SENSE_LE,
            ConstraintType::Eq => CPX_SENSE_EQ,
            ConstraintType::GreaterThanEq => CPX_SENSE_GE,
        }
    }
}

/// One constraint of the model: an ordered list of variable-coefficient
/// pairs (a variable left out has coefficient zero), a relational type, a
/// right-hand side, and an optional name.
#[derive(Clone, Debug)]
pub struct Constraint {
    weights: Vec<(VariableId, Real)>,
    type_: ConstraintType,
    rhs: Real,
    name: Option<String>,
}

impl Constraint {
    pub closed spec fn spec_weights(&self) -> Seq<(VariableId, Real)> {
        self.weights@
    }

    pub closed spec fn spec_type(&self) -> ConstraintType {
        self.type_
    }

    pub closed spec fn spec_rhs(&self) -> Real {
        self.rhs
    }

    pub closed spec fn spec_name(&self) -> Option<String> {
        self.name
    }

    /// Build a constraint; every field is recoverable unchanged through the
    /// getters below.
    pub fn new(ty: ConstraintType, rhs: Real, name: Option<String>, vars: Vec<(VariableId, Real)>) -> (r:
        Constraint)
        ensures
            r.spec_type() == ty,
            r.spec_rhs() == rhs,
            r.spec_name() == name,
            r.spec_weights() == vars@,
    {
        Constraint { weights: vars, type_: ty, rhs, name }
    }

    pub fn name(&self) -> (r: &Option<String>)
        ensures
            r == self.spec_name(),
    {
        &self.name
    }

    pub fn weights(&self) -> (r: &Vec<(VariableId, Real)>)
        ensures
            r@ == self.spec_weights(),
    {
        &self.weights
    }

    pub fn rhs(&self) -> (r: Real)
        ensures
            r == self.spec_rhs(),
    {
        self.rhs
    }

    pub fn type_(&self) -> (r: ConstraintType)
        ensures
            r == self.spec_type(),
    {
        self.type_
    }
}

} // verus!
