//! A memory-safe modelling layer for the CPLEX mathematical-programming
//! solver.
//!
//! The solver itself is a closed native library reached over a C interface;
//! this crate holds everything on the near side of that boundary: the
//! problem model (variables, constraints, objective), the validation of
//! caller input, the payload arrays handed to the native bulk-insert calls,
//! the typed parameter surface, and the translation of solver status codes
//! into categorized errors. Each public operation states in its contract
//! exactly what it records, what it returns, and on which inputs it is
//! rejected.

pub mod constants;
pub mod constraints;
pub mod errors;
pub mod logging;
pub mod names;
pub mod numeric;
pub mod parameters;
pub mod payload;

pub mod solution;
pub mod variables;

pub use constraints::Constraint;
pub use constraints::ConstraintType;
pub use errors::Error;
pub use errors::Result;
pub use numeric::Real;
pub use solution::Solution;
pub use variables::Variable;
pub use variables::VariableType;

use vstd::prelude::*;

use crate::errors::Input;
use crate::names::has_nul;
use crate::names::spec_has_nul;

verus! {

/// A variable identifier, unique with respect to a given problem instance:
/// the position of the variable's column in the model.
#[derive(Clone, Copy, Debug, PartialEq, Eq, Structural)]
pub struct VariableId(usize);

impl VariableId {
    pub closed spec fn spec_inner(self) -> usize {
        self.0
    }

    pub fn into_inner(self) -> (r: usize)
        ensures
            r == self.spec_inner(),
    {
        self.0
    }
}

/// A constraint identifier, unique with respect to a given problem
/// instance: the position of the constraint's row in the model.
#[derive(Clone, Copy, Debug, PartialEq, Eq, Structural)]
pub struct ConstraintId(usize);

impl ConstraintId {
    pub closed spec fn spec_inner(self) -> usize {
        self.0
    }

    pub fn into_inner(self) -> (r: usize)
        ensures
            r == self.spec_inner(),
    {
        self.0
    }
}

/// The sense of the objective.
#[derive(Copy, Clone, Debug, PartialEq, Eq, Structural)]
pub enum ObjectiveType {
    Maximize,
    Minimize,
}

impl ObjectiveType {
    /// The sense code the native interface expects.
    pub open spec fn spec_into_raw(self) -> i32 {
        match self {
            ObjectiveType::Minimize => constants::CPX_MIN,
            ObjectiveType::Maximize => constants::CPX_MAX,
        }
    }

    pub fn into_raw(self) -> (r: i32)
        ensures
            r == self.spec_into_raw(),
    {
        match self {
            ObjectiveType::Minimize => constants::CPX_MIN,
            ObjectiveType::Maximize => constants::CPX_MAX,
        }
    }
}

/// The formulation a model is solved as.
#[derive(Copy, Clone, Debug, PartialEq, Eq, Structural)]
pub enum ProblemType {
    Linear,
    MixedInteger,
}

impl ProblemType {
    /// The problem-type code the native interface expects.
    pub open spec fn spec_into_raw(self) -> i32 {
        match self {
            ProblemType::Linear => constants::CPXPROB_LP,
            ProblemType::MixedInteger => constants::CPXPROB_MILP,
        }
    }

    pub fn into_raw(self) -> (r: i32)
        ensures
            r == self.spec_into_raw(),
    {
        match self {
            ProblemType::Linear => constants::CPXPROB_LP,
            ProblemType::MixedInteger => constants::CPXPROB_MILP,
        }
    }
}

/// The objective weight of each variable in order.
pub open spec fn weights_of(vars: Seq<Variable>) -> Seq<Real> {
    vars.map_values(|v: Variable| v.spec_weight())
}

/// Whether some variable in the sequence carries a name with an embedded
/// nul, which no foreign call could transmit.
pub open spec fn some_variable_name_has_nul(vars: Seq<Variable>) -> bool {
    exists|i: int| 0 <= i < vars.len() && spec_has_nul(vars[i].spec_name())
}

/// Whether the constraint's (optional) name carries an embedded nul.
pub open spec fn constraint_name_has_nul(c: Constraint) -> bool {
    match c.spec_name() {
        Some(n) => spec_has_nul(n@),
        None => false,
    }
}

/// Whether some constraint in the sequence carries a name with an embedded
/// nul.
pub open spec fn some_constraint_name_has_nul(cons: Seq<Constraint>) -> bool {
    exists|i: int| 0 <= i < cons.len() && constraint_name_has_nul(cons[i])
}

/// The objective weight vector after applying the first `n` overrides of
/// `obj` in order: later entries for the same variable win, as they do in
/// the native call this models.
pub open spec fn apply_objective(ow: Seq<Real>, obj: Seq<(VariableId, Real)>, n: int) -> Seq<Real>
    decreases n,
{
    if n <= 0 {
        ow
    } else {
        apply_objective(ow, obj, n - 1).update(obj[n - 1].0.spec_inner() as int, obj[n - 1].1)
    }
}

/// A problem instance under construction: the model mirror of the native
/// column/row arrays. Variables and constraints are append-only, and their
/// identifiers are their positions, so the stored records stay aligned with
/// the native model's ordering.
#[derive(Clone, Debug)]
pub struct Problem {
    name: String,
    variables: Vec<Variable>,
    constraints: Vec<Constraint>,
    objective_type: ObjectiveType,
    objective_weights: Vec<Real>,
}

/// Whether two problem states agree on everything but their variable
/// columns (and the objective weights that track them).
pub open spec fn same_rows(a: Problem, b: Problem) -> bool {
    a.spec_constraints() == b.spec_constraints() && a.spec_name() == b.spec_name()
        && a.spec_objective_type() == b.spec_objective_type()
}

/// Whether two problem states agree on everything but their constraint
/// rows.
pub open spec fn same_columns(a: Problem, b: Problem) -> bool {
    a.spec_variables() == b.spec_variables() && a.spec_name() == b.spec_name()
        && a.spec_objective_type() == b.spec_objective_type()
        && a.spec_objective_weights() == b.spec_objective_weights()
}

/// Whether two problem states agree on everything but the objective (its
/// sense and its weight vector).
pub open spec fn same_model(a: Problem, b: Problem) -> bool {
    a.spec_variables() == b.spec_variables() && a.spec_constraints() == b.spec_constraints()
        && a.spec_name() == b.spec_name()
}

impl Problem {
    pub closed spec fn spec_name(&self) -> Seq<char> {
        self.name@
    }

    pub closed spec fn spec_variables(&self) -> Seq<Variable> {
        self.variables@
    }

    pub closed spec fn spec_constraints(&self) -> Seq<Constraint> {
        self.constraints@
    }

    pub closed spec fn spec_objective_type(&self) -> ObjectiveType {
        self.objective_type
    }

    pub closed spec fn spec_objective_weights(&self) -> Seq<Real> {
        self.objective_weights@
    }

    /// The objective vector tracks one weight per variable.
    pub open spec fn wf(&self) -> bool {
        self.spec_objective_weights().len() == self.spec_variables().len()
    }

    /// Create an empty problem. The name is rejected as an input error if it
    /// holds an embedded nul; otherwise the model starts with no variables,
    /// no constraints, and a minimizing objective.
    pub fn new(name: &str) -> (r: Result<Problem>)
        ensures
            spec_has_nul(name@) ==> (r matches Err(e) && e is Input),
            !spec_has_nul(name@) ==> (r matches Ok(p)
                && p.wf()
                && p.spec_name() == name@
                && p.spec_variables() =~= Seq::<Variable>::empty()
                && p.spec_constraints() =~= Seq::<Constraint>::empty()
                && p.spec_objective_type() == ObjectiveType::Minimize
                && p.spec_objective_weights() =~= Seq::<Real>::empty()),
    {
        if has_nul(name) {
            Err(Error::Input(Input::from_message("problem name holds an embedded nul".to_owned())))
        } else {
            Ok(
                Problem {
                    name: name.to_owned(),
                    variables: Vec::new(),
                    constraints: Vec::new(),
                    objective_type: ObjectiveType::Minimize,
                    objective_weights: Vec::new(),
                },
            )
        }
    }

    pub fn name(&self) -> (r: &str)
        ensures
            r@ == self.spec_name(),
    {
        self.name.as_str()
    }

    /// The variables added so far, in order of their identifiers.
    pub fn variables(&self) -> (r: &Vec<Variable>)
        ensures
            r@ == self.spec_variables(),
    {
        &self.variables
    }

    /// The constraints added so far, in order of their identifiers.
    pub fn constraints(&self) -> (r: &Vec<Constraint>)
        ensures
            r@ == self.spec_constraints(),
    {
        &self.constraints
    }

    pub fn objective_type(&self) -> (r: ObjectiveType)
        ensures
            r == self.spec_objective_type(),
    {
        self.objective_type
    }

    /// The objective weight currently in force for each variable: the weight
    /// given at construction, as overridden by `set_objective`.
    pub fn objective_weights(&self) -> (r: &Vec<Real>)
        ensures
            r@ == self.spec_objective_weights(),
    {
        &self.objective_weights
    }

    /// Add one variable. Its identifier — its position in the model — is
    /// returned; a name with an embedded nul is rejected as an input error
    /// and the model is left unchanged.
    pub fn add_variable(&mut self, var: Variable) -> (r: Result<VariableId>)
        requires
            old(self).wf(),
        ensures
            final(self).wf(),
            spec_has_nul(var.spec_name()) ==> (r matches Err(e) && e is Input
                && *final(self) == *old(self)),
            !spec_has_nul(var.spec_name()) ==> (r matches Ok(id)
                && id.spec_inner() == old(self).spec_variables().len()
                && final(self).spec_variables() == old(self).spec_variables().push(var)
                && final(self).spec_objective_weights()
                    == old(self).spec_objective_weights().push(var.spec_weight())
                && same_rows(*final(self), *old(self))),
    {
        if has_nul(var.name()) {
            return Err(
                Error::Input(Input::from_message("variable name holds an embedded nul".to_owned())),
            );
        }
        let index = self.variables.len();
        let weight = var.weight();
        self.variables.push(var);
        self.objective_weights.push(weight);
        Ok(VariableId(index))
    }

    /// Add a batch of variables. Their identifiers — consecutive positions
    /// starting right after the existing variables — are returned in input
    /// order; if any name holds an embedded nul the whole batch is rejected
    /// as an input error and the model is left unchanged.
    pub fn add_variables(&mut self, vars: Vec<Variable>) -> (r: Result<Vec<VariableId>>)
        requires
            old(self).wf(),
        ensures
            final(self).wf(),
            some_variable_name_has_nul(vars@) ==> (r matches Err(e) && e is Input
                && *final(self) == *old(self)),
            !some_variable_name_has_nul(vars@) ==> (r matches Ok(ids)
                && ids@.len() == vars@.len()
                && (forall|i: int| 0 <= i < vars@.len()
                    ==> (#[trigger] ids@[i]).spec_inner() == old(self).spec_variables().len() + i)
                && final(self).spec_variables() == old(self).spec_variables() + vars@
                && final(self).spec_objective_weights()
                    == old(self).spec_objective_weights() + weights_of(vars@)
                && same_rows(*final(self), *old(self))),
    {
        let k = vars.len();
        let mut i: usize = 0;
        while i < k
            invariant
                old(self).wf(),
                *self == *old(self),
                k == vars@.len(),
                i <= k,
                forall|j: int| 0 <= j < i ==> !spec_has_nul((#[trigger] vars@[j]).spec_name()),
            decreases k - i,
        {
            if has_nul(vars[i].name()) {
                return Err(
                    Error::Input(
                        Input::from_message("variable name holds an embedded nul".to_owned()),
                    ),
                );
            }
            i += 1;
        }
        let n = self.variables.len();
        let mut moved = vars;
        self.variables.append(&mut moved);
        let total = self.variables.len();
        let mut ids: Vec<VariableId> = Vec::new();
        let mut j: usize = 0;
        while j < k
            invariant
                n + k == total,
                j <= k,
                ids@.len() == j,
                forall|m: int| 0 <= m < j ==> (#[trigger] ids@[m]).spec_inner() == n + m,
            decreases k - j,
        {
            ids.push(VariableId(n + j));
            j += 1;
        }
        let mut m: usize = 0;
        while m < k
            invariant
                old(self).wf(),
                k == vars@.len(),
                self.variables@ == old(self).spec_variables() + vars@,
                self.constraints@ == old(self).spec_constraints(),
                self.name@ == old(self).spec_name(),
                self.objective_type == old(self).spec_objective_type(),
                n == old(self).spec_variables().len(),
                n + k <= usize::MAX,
                m <= k,
                self.objective_weights@
                    == old(self).spec_objective_weights() + weights_of(vars@.take(m as int)),
            decreases k - m,
        {
            let w = self.variables[n + m].weight();
            self.objective_weights.push(w);
            proof {
                assert(vars@.take(m + 1) == vars@.take(m as int).push(vars@[m as int]));
                assert(weights_of(vars@.take(m + 1))
                    =~= weights_of(vars@.take(m as int)).push(vars@[m as int].spec_weight()));
            }
            m += 1;
        }
        proof {
            assert(vars@.take(k as int) == vars@);
        }
        Ok(ids)
    }

    /// Add one constraint. Its identifier — its position in the model — is
    /// returned; a name with an embedded nul is rejected as an input error
    /// and the model is left unchanged.
    pub fn add_constraint(&mut self, constraint: Constraint) -> (r: Result<ConstraintId>)
        requires
            old(self).wf(),
        ensures
            final(self).wf(),
            constraint_name_has_nul(constraint) ==> (r matches Err(e) && e is Input
                && *final(self) == *old(self)),
            !constraint_name_has_nul(constraint) ==> (r matches Ok(id)
                && id.spec_inner() == old(self).spec_constraints().len()
                && final(self).spec_constraints()
                    == old(self).spec_constraints().push(constraint)
                && same_columns(*final(self), *old(self))),
    {
        let named_nul = match constraint.name() {
            Some(n) => has_nul(n.as_str()),
            None => false,
        };
        if named_nul {
            return Err(
                Error::Input(
                    Input::from_message("constraint name holds an embedded nul".to_owned()),
                ),
            );
        }
        let index = self.constraints.len();
        self.constraints.push(constraint);
        Ok(ConstraintId(index))
    }

    /// Add a batch of constraints. Their identifiers — consecutive positions
    /// starting right after the existing constraints — are returned in input
    /// order. An empty batch, or any name with an embedded nul, is rejected
    /// as an input error and the model is left unchanged.
    pub fn add_constraints(&mut self, con: Vec<Constraint>) -> (r: Result<Vec<ConstraintId>>)
        requires
            old(self).wf(),
        ensures
            final(self).wf(),
            con@.len() == 0 ==> (r matches Err(e) && e is Input && *final(self) == *old(self)),
            con@.len() > 0 && some_constraint_name_has_nul(con@) ==> (r matches Err(e)
                && e is Input && *final(self) == *old(self)),
            con@.len() > 0 && !some_constraint_name_has_nul(con@) ==> (r matches Ok(ids)
                && ids@.len() == con@.len()
                && (forall|i: int| 0 <= i < con@.len()
                    ==> (#[trigger] ids@[i]).spec_inner() == old(self).spec_constraints().len() + i)
                && final(self).spec_constraints() == old(self).spec_constraints() + con@
                && same_columns(*final(self), *old(self))),
    {
        if con.len() == 0 {
            return Err(
                Error::Input(
                    Input::from_message("called add_constraints with 0 constraints".to_owned()),
                ),
            );
        }
        let k = con.len();
        let mut i: usize = 0;
        while i < k
            invariant
                old(self).wf(),
                *self == *old(self),
                k == con@.len(),
                i <= k,
                forall|j: int| 0 <= j < i ==> !constraint_name_has_nul(#[trigger] con@[j]),
            decreases k - i,
        {
            let named_nul = match con[i].name() {
                Some(n) => has_nul(n.as_str()),
                None => false,
            };
            if named_nul {
                return Err(
                    Error::Input(
                        Input::from_message("constraint name holds an embedded nul".to_owned()),
                    ),
                );
            }
            i += 1;
        }
        let n = self.constraints.len();
        let mut moved = con;
        self.constraints.append(&mut moved);
        let total = self.constraints.len();
        let mut ids: Vec<ConstraintId> = Vec::new();
        let mut j: usize = 0;
        while j < k
            invariant
                n + k == total,
                j <= k,
                ids@.len() == j,
                forall|m: int| 0 <= m < j ==> (#[trigger] ids@[m]).spec_inner() == n + m,
            decreases k - j,
        {
            ids.push(ConstraintId(n + j));
            j += 1;
        }
        Ok(ids)
    }

    /// Validate an initial solution: the variable and value arrays must have
    /// matching lengths. A mismatch is rejected as an input error here,
    /// before anything could reach the native layer.
    pub fn add_initial_soln(&self, vars: &[VariableId], values: &[Real]) -> (r: Result<()>)
        ensures
            vars@.len() != values@.len() ==> (r matches Err(e) && e is Input),
            vars@.len() == values@.len() ==> r is Ok,
    {
        if values.len() != vars.len() {
            return Err(
                Error::Input(
                    Input::from_message(
                        "number of solution variables and values does not match".to_owned(),
                    ),
                ),
            );
        }
        Ok(())
    }

    /// Replace the objective weights of the named variables, applying the
    /// overrides in order, and set the objective sense. An override naming a
    /// variable the model does not hold is rejected as an input error.
    pub fn set_objective(self, ty: ObjectiveType, obj: Vec<(VariableId, Real)>) -> (r: Result<
        Problem,
    >)
        requires
            self.wf(),
        ensures
            (exists|i: int| 0 <= i < obj@.len()
                && (#[trigger] obj@[i]).0.spec_inner() >= self.spec_variables().len())
                ==> (r matches Err(e) && e is Input),
            (forall|i: int| 0 <= i < obj@.len()
                ==> (#[trigger] obj@[i]).0.spec_inner() < self.spec_variables().len())
                ==> (r matches Ok(p)
                && p.wf()
                && p.spec_objective_weights()
                    == apply_objective(self.spec_objective_weights(), obj@, obj@.len() as int)
                && p.spec_objective_type() == ty
                && same_model(p, self)),
    {
        let k = obj.len();
        let n = self.variables.len();
        let mut i: usize = 0;
        while i < k
            invariant
                k == obj@.len(),
                n == self.spec_variables().len(),
                i <= k,
                forall|j: int| 0 <= j < i ==> (#[trigger] obj@[j]).0.spec_inner() < n,
            decreases k - i,
        {
            if obj[i].0.into_inner() >= n {
                return Err(
                    Error::Input(
                        Input::from_message(
                            "objective entry names a variable the model does not hold".to_owned(),
                        ),
                    ),
                );
            }
            i += 1;
        }
        let mut p = self;
        let ghost initial = p;
        let mut m: usize = 0;
        while m < k
            invariant
                k == obj@.len(),
                p.wf(),
                n == p.spec_variables().len(),
                forall|j: int| 0 <= j < k ==> (#[trigger] obj@[j]).0.spec_inner() < n,
                m <= k,
                p.objective_weights@
                    == apply_objective(initial.spec_objective_weights(), obj@, m as int),
                p.spec_variables() == initial.spec_variables(),
                p.spec_constraints() == initial.spec_constraints(),
                p.spec_name() == initial.spec_name(),
                p.spec_objective_type() == initial.spec_objective_type(),
            decreases k - m,
        {
            let (id, w) = obj[m];
            let idx = id.into_inner();
            p.objective_weights[idx] = w;
            m += 1;
        }
        p.set_objective_type(ty)
    }

    /// Set the objective sense; everything else in the model is unchanged.
    /// The model starts out minimizing.
    pub fn set_objective_type(self, ty: ObjectiveType) -> (r: Result<Problem>)
        requires
            self.wf(),
        ensures
            r matches Ok(p)
                && p.wf()
                && p.spec_objective_type() == ty
                && p.spec_objective_weights() == self.spec_objective_weights()
                && same_model(p, self),
    {
        let mut p = self;
        p.objective_type = ty;
        Ok(p)
    }
}

/// The variable list that results from adding `vars` one at a time to a
/// model already holding `base`: each call pushes one variable, exactly as
/// `add_variable` records it.
pub open spec fn sequential_extend(base: Seq<Variable>, vars: Seq<Variable>) -> Seq<Variable>
    decreases vars.len(),
{
    if vars.len() == 0 {
        base
    } else {
        sequential_extend(base.push(vars[0]), vars.drop_first())
    }
}

/// The identifiers assigned by adding `vars` one at a time to a model
/// already holding `base`: each call returns the length before its push,
/// exactly as `add_variable` does.
pub open spec fn sequential_ids(base: Seq<Variable>, vars: Seq<Variable>) -> Seq<nat>
    decreases vars.len(),
{
    if vars.len() == 0 {
        Seq::empty()
    } else {
        seq![base.len()] + sequential_ids(base.push(vars[0]), vars.drop_first())
    }
}

/// Adding variables one at a time and adding them in one batch agree: the
/// one-at-a-time route — whose single step is what `add_variable` promises —
/// leaves the same variable list that `add_variables` promises for the whole
/// batch, and assigns the same consecutive identifiers, starting right
/// after the variables already present. Identical models follow, so either
/// route hands the solver the same columns.
pub proof fn lemma_batch_matches_sequential(base: Seq<Variable>, vars: Seq<Variable>)
    ensures
        sequential_extend(base, vars) == base + vars,
        sequential_ids(base, vars).len() == vars.len(),
        forall|i: int|
            0 <= i < vars.len() ==> #[trigger] sequential_ids(base, vars)[i] == base.len() + i,
    decreases vars.len(),
{
    if vars.len() == 0 {
        assert(sequential_extend(base, vars) =~= base + vars);
    } else {
        lemma_batch_matches_sequential(base.push(vars[0]), vars.drop_first());
        assert(base.push(vars[0]) + vars.drop_first() =~= base + vars);
        assert forall|i: int| 0 <= i < vars.len() implies #[trigger] sequential_ids(base, vars)[i]
            == base.len() + i by {
            if i > 0 {
                assert(sequential_ids(base, vars)[i] == sequential_ids(
                    base.push(vars[0]),
                    vars.drop_first(),
                )[i - 1]);
            }
        }
    }
}

/// Round trip: the type, objective weight, bounds and name supplied when a
/// variable was constructed are recovered unchanged from the stored
/// variable list, at the position that was assigned to the variable when
/// its batch was added.
pub proof fn lemma_variable_round_trip(base: Seq<Variable>, vars: Seq<Variable>, i: int)
    requires
        0 <= i < vars.len(),
    ensures
        (base + vars)[base.len() + i] == vars[i],
        (base + vars)[base.len() + i].spec_type() == vars[i].spec_type(),
        (base + vars)[base.len() + i].spec_weight() == vars[i].spec_weight(),
        (base + vars)[base.len() + i].spec_lower_bound() == vars[i].spec_lower_bound(),
        (base + vars)[base.len() + i].spec_upper_bound() == vars[i].spec_upper_bound(),
        (base + vars)[base.len() + i].spec_name() == vars[i].spec_name(),
{
}

} // verus!
