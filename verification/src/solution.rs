//! The result of a successful solve: the objective value, the raw value of
//! each variable in identifier order, and the variable records themselves,
//! carried over unchanged so callers can recover what they declared.

use vstd::prelude::*;

use crate::numeric::Real;
use crate::variables::Variable;

verus! {

#[derive(Clone, Debug)]
pub struct Solution {
    objective_value: Real,
    variable_values: Vec<Real>,
    variables: Vec<Variable>,
}

impl Solution {
    pub closed spec fn spec_objective_value(&self) -> Real {
        self.objective_value
    }

    pub closed spec fn spec_variable_values(&self) -> Seq<Real> {
        self.variable_values@
    }

    pub closed spec fn spec_variables(&self) -> Seq<Variable> {
        self.variables@
    }

    /// Assemble a solution from what the solver reported; every field is
    /// recoverable unchanged through the getters below.
    pub fn new(variables: Vec<Variable>, variable_values: Vec<Real>, objective_value: Real) -> (r:
        Solution)
        ensures
            r.spec_variables() == variables@,
            r.spec_variable_values() == variable_values@,
            r.spec_objective_value() == objective_value,
    {
        Solution { objective_value, variable_values, variables }
    }

    pub fn objective_value(&self) -> (r: Real)
        ensures
            r == self.spec_objective_value(),
    {
        self.objective_value
    }

    /// The variables of the solved problem, in identifier order.
    pub fn variables(&self) -> (r: &Vec<Variable>)
        ensures
            r@ == self.spec_variables(),
    {
        &self.variables
    }

    /// The value assigned to each variable, in identifier order.
    pub fn variable_values(&self) -> (r: &Vec<Real>)
        ensures
            r@ == self.spec_variable_values(),
    {
        &self.variable_values
    }
}

} // verus!
