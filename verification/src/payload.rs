//! The flat arrays the native bulk-insert calls consume.
//!
//! Variables become parallel column arrays (objective weight, bounds, type
//! code, name), and constraints become a compressed sparse row form: one
//! flat list of (column, coefficient) entries, with a start offset per row.
//! Coefficients equal to zero are elided before transmission — they are
//! implicit in the sparse form — and the start offsets count the entries
//! that remain, so the offsets and the flat lists stay consistent.

use vstd::prelude::*;

use crate::constraints::Constraint;
use crate::numeric::Real;
use crate::variables::Variable;
use crate::weights_of;
use crate::VariableId;

verus! {

/// The entries of a weight list that survive zero-elision, keeping their
/// order: those among the first `n` whose coefficient is not zero.
pub open spec fn nonzero_prefix(ws: Seq<(VariableId, Real)>, n: int) -> Seq<(VariableId, Real)>
    decreases n,
{
    if n <= 0 {
        Seq::empty()
    } else if ws[n - 1].1.spec_is_zero() {
        nonzero_prefix(ws, n - 1)
    } else {
        nonzero_prefix(ws, n - 1).push(ws[n - 1])
    }
}

/// The entries of a weight list that survive zero-elision.
pub open spec fn nonzero_entries(ws: Seq<(VariableId, Real)>) -> Seq<(VariableId, Real)> {
    nonzero_prefix(ws, ws.len() as int)
}

/// The flat entry list of the first `n` constraints: each row's surviving
/// entries, concatenated in row order.
pub open spec fn row_entries(cons: Seq<Constraint>, n: int) -> Seq<(VariableId, Real)>
    decreases n,
{
    if n <= 0 {
        Seq::empty()
    } else {
        row_entries(cons, n - 1) + nonzero_entries(cons[n - 1].spec_weights())
    }
}

/// The column position of each entry.
pub open spec fn entry_columns(es: Seq<(VariableId, Real)>) -> Seq<usize> {
    es.map_values(|e: (VariableId, Real)| e.0.spec_inner())
}

/// The coefficient of each entry.
pub open spec fn entry_coefficients(es: Seq<(VariableId, Real)>) -> Seq<Real> {
    es.map_values(|e: (VariableId, Real)| e.1)
}

proof fn lemma_entry_maps_push(es: Seq<(VariableId, Real)>, e: (VariableId, Real))
    ensures
        entry_columns(es.push(e)) == entry_columns(es).push(e.0.spec_inner()),
        entry_coefficients(es.push(e)) == entry_coefficients(es).push(e.1),
{
    assert(entry_columns(es.push(e)) =~= entry_columns(es).push(e.0.spec_inner()));
    assert(entry_coefficients(es.push(e)) =~= entry_coefficients(es).push(e.1));
}

/// The parallel column arrays for a batch of variables, in the shape the
/// native column-insert call consumes.
pub struct ColumnPayload {
    pub objs: Vec<Real>,
    pub lower_bounds: Vec<Real>,
    pub upper_bounds: Vec<Real>,
    pub ctypes: Vec<u8>,
    pub names: Vec<String>,
}

impl ColumnPayload {
    /// Spread a batch of variables into parallel arrays: position `i` of
    /// every array describes variable `i`.
    pub fn build(vars: &Vec<Variable>) -> (r: ColumnPayload)
        ensures
            r.objs@ == weights_of(vars@),
            r.lower_bounds@.len() == vars@.len(),
            r.upper_bounds@.len() == vars@.len(),
            r.ctypes@.len() == vars@.len(),
            r.names@.len() == vars@.len(),
            forall|i: int| 0 <= i < vars@.len()
                ==> r.lower_bounds@[i] == (#[trigger] vars@[i]).spec_lower_bound(),
            forall|i: int| 0 <= i < vars@.len()
                ==> r.upper_bounds@[i] == (#[trigger] vars@[i]).spec_upper_bound(),
            forall|i: int| 0 <= i < vars@.len()
                ==> r.ctypes@[i] == (#[trigger] vars@[i]).spec_type().spec_into_raw(),
            forall|i: int| 0 <= i < vars@.len()
                ==> r.names@[i]@ == (#[trigger] vars@[i]).spec_name(),
    {
        let n = vars.len();
        let mut objs: Vec<Real> = Vec::new();
        let mut lower_bounds: Vec<Real> = Vec::new();
        let mut upper_bounds: Vec<Real> = Vec::new();
        let mut ctypes: Vec<u8> = Vec::new();
        let mut names: Vec<String> = Vec::new();
        let mut i: usize = 0;
        while i < n
            invariant
                n == vars@.len(),
                i <= n,
                objs@.len() == i,
                lower_bounds@.len() == i,
                upper_bounds@.len() == i,
                ctypes@.len() == i,
                names@.len() == i,
                forall|a: int| 0 <= a < i ==> objs@[a] == (#[trigger] vars@[a]).spec_weight(),
                forall|a: int| 0 <= a < i
                    ==> lower_bounds@[a] == (#[trigger] vars@[a]).spec_lower_bound(),
                forall|a: int| 0 <= a < i
                    ==> upper_bounds@[a] == (#[trigger] vars@[a]).spec_upper_bound(),
                forall|a: int| 0 <= a < i
                    ==> ctypes@[a] == (#[trigger] vars@[a]).spec_type().spec_into_raw(),
                forall|a: int| 0 <= a < i ==> names@[a]@ == (#[trigger] vars@[a]).spec_name(),
            decreases n - i,
        {
            let v = &vars[i];
            objs.push(v.weight());
            lower_bounds.push(v.lower_bound());
            upper_bounds.push(v.upper_bound());
            ctypes.push(v.type_().into_raw());
            names.push(v.name().to_owned());
            i += 1;
        }
        proof {
            assert(objs@ =~= weights_of(vars@));
        }
        ColumnPayload { objs, lower_bounds, upper_bounds, ctypes, names }
    }
}

/// The compressed sparse row arrays for a batch of constraints, in the
/// shape the native row-insert call consumes.
pub struct RowPayload {
    pub row_starts: Vec<usize>,
    pub column_indices: Vec<usize>,
    pub coefficients: Vec<Real>,
    pub rhs_values: Vec<Real>,
    pub senses: Vec<u8>,
    pub names: Vec<Option<String>>,
}

impl RowPayload {
    /// Flatten a batch of constraints into sparse row form. Zero
    /// coefficients are elided; row `i`'s surviving entries sit in the flat
    /// lists from offset `row_starts[i]`, and position `i` of the per-row
    /// arrays describes constraint `i`.
    pub fn build(cons: &Vec<Constraint>) -> (r: RowPayload)
        ensures
            r.row_starts@.len() == cons@.len(),
            forall|i: int| 0 <= i < cons@.len()
                ==> r.row_starts@[i] == row_entries(cons@, i).len(),
            r.column_indices@ == entry_columns(row_entries(cons@, cons@.len() as int)),
            r.coefficients@ == entry_coefficients(row_entries(cons@, cons@.len() as int)),
            r.rhs_values@.len() == cons@.len(),
            r.senses@.len() == cons@.len(),
            r.names@.len() == cons@.len(),
            forall|i: int| 0 <= i < cons@.len()
                ==> r.rhs_values@[i] == (#[trigger] cons@[i]).spec_rhs(),
            forall|i: int| 0 <= i < cons@.len()
                ==> r.senses@[i] == (#[trigger] cons@[i]).spec_type().spec_into_raw(),
            forall|i: int| 0 <= i < cons@.len()
                ==> r.names@[i] == (#[trigger] cons@[i]).spec_name(),
    {
        let n = cons.len();
        let mut row_starts: Vec<usize> = Vec::new();
        let mut column_indices: Vec<usize> = Vec::new();
        let mut coefficients: Vec<Real> = Vec::new();
        let mut rhs_values: Vec<Real> = Vec::new();
        let mut senses: Vec<u8> = Vec::new();
        let mut names: Vec<Option<String>> = Vec::new();
        let mut i: usize = 0;
        while i < n
            invariant
                n == cons@.len(),
                i <= n,
                row_starts@.len() == i,
                forall|a: int| 0 <= a < i ==> row_starts@[a] == row_entries(cons@, a).len(),
                column_indices@ == entry_columns(row_entries(cons@, i as int)),
                coefficients@ == entry_coefficients(row_entries(cons@, i as int)),
                rhs_values@.len() == i,
                senses@.len() == i,
                names@.len() == i,
                forall|a: int| 0 <= a < i ==> rhs_values@[a] == (#[trigger] cons@[a]).spec_rhs(),
                forall|a: int| 0 <= a < i
                    ==> senses@[a] == (#[trigger] cons@[a]).spec_type().spec_into_raw(),
                forall|a: int| 0 <= a < i ==> names@[a] == (#[trigger] cons@[a]).spec_name(),
            decreases n - i,
        {
            row_starts.push(column_indices.len());
            let c = &cons[i];
            let ws = c.weights();
            let k = ws.len();
            let mut j: usize = 0;
            while j < k
                invariant
                    n == cons@.len(),
                    i < n,
                    k == c.spec_weights().len(),
                    ws@ == c.spec_weights(),
                    c == cons@[i as int],
                    j <= k,
                    column_indices@ == entry_columns(
                        row_entries(cons@, i as int) + nonzero_prefix(c.spec_weights(), j as int),
                    ),
                    coefficients@ == entry_coefficients(
                        row_entries(cons@, i as int) + nonzero_prefix(c.spec_weights(), j as int),
                    ),
                decreases k - j,
            {
                let e = ws[j];
                if !e.1.is_zero() {
                    column_indices.push(e.0.into_inner());
                    coefficients.push(e.1);
                    proof {
                        let pre = row_entries(cons@, i as int);
                        let ws_spec = c.spec_weights();
                        lemma_entry_maps_push(pre + nonzero_prefix(ws_spec, j as int), ws_spec[j as int]);
                        assert(nonzero_prefix(ws_spec, j + 1)
                            == nonzero_prefix(ws_spec, j as int).push(ws_spec[j as int]));
                        assert(pre + nonzero_prefix(ws_spec, j + 1)
                            =~= (pre + nonzero_prefix(ws_spec, j as int)).push(ws_spec[j as int]));
                    }
                } else {
                    proof {
                        let ws_spec = c.spec_weights();
                        assert(nonzero_prefix(ws_spec, j + 1) == nonzero_prefix(ws_spec, j as int));
                    }
                }
                j += 1;
            }
            rhs_values.push(c.rhs());
            senses.push(c.type_().into_raw());
            let nm: Option<String> = match c.name() {
                Some(s) => Some(s.clone()),
                None => None,
            };
            names.push(nm);
            proof {
                assert(row_entries(cons@, i + 1)
                    == row_entries(cons@, i as int) + nonzero_entries(cons@[i as int].spec_weights()));
            }
            i += 1;
        }
        RowPayload { row_starts, column_indices, coefficients, rhs_values, senses, names }
    }
}

} // verus!
