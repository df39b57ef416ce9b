//! Error values surfaced by this layer.
//!
//! Two kinds exist. An [`Input`] error means a caller-supplied value was
//! rejected here, before anything reached the native solver: an embedded nul
//! byte in a name, mismatched array lengths, an empty constraint batch, an
//! out-of-range tolerance. A [`Cplex`] error carries a nonzero status code
//! reported by the solver, subclassified as unbounded, unfeasible or other;
//! callers rely on that distinction, so it is never collapsed.

use vstd::prelude::*;

use crate::constants::{CPXMIP_UNBOUNDED, CPX_STAT_INForUNBD, CPX_STAT_INFEASIBLE,
    CPX_STAT_UNBOUNDED};

verus! {

pub type Result<T> = core::result::Result<T, Error>;

/// A nonzero status reported by the native solver, with the code and the
/// solver-supplied message, classified by what the solver's own probes said
/// about the model.
#[derive(Clone, Debug, PartialEq, Eq)]
pub enum Cplex {
    Unbounded { code: i32, message: String },
    Unfeasible { code: i32, message: String },
    Other { code: i32, message: String },
}

/// A caller-supplied value rejected before any call into the native solver.
#[derive(Clone, Debug, PartialEq, Eq)]
pub struct Input {
    pub message: String,
}

/// Any error surfaced by this layer.
#[derive(Clone, Debug, PartialEq, Eq)]
pub enum Error {
    Cplex(Cplex),
    Input(Input),
}

impl Input {
    pub fn from_message(message: String) -> (r: Input)
        ensures
            r.message == message,
    {
        Input { message }
    }
}

impl Cplex {
    /// Classify a nonzero status by the outcome of the solver's two
    /// introspection probes: an infeasibility report takes precedence over
    /// an unboundedness report, and a model both probes cleared is `Other`.
    pub fn from_probes(code: i32, message: String, feasible: bool, bounded: bool) -> (r: Cplex)
        ensures
            !feasible ==> r == (Cplex::Unfeasible { code, message }),
            feasible && !bounded ==> r == (Cplex::Unbounded { code, message }),
            feasible && bounded ==> r == (Cplex::Other { code, message }),
    {
        if !feasible {
            Cplex::Unfeasible { code, message }
        } else if !bounded {
            Cplex::Unbounded { code, message }
        } else {
            Cplex::Other { code, message }
        }
    }

    /// The error for a failure while opening the solver context itself:
    /// there is no model to probe, so the status is never subclassified.
    pub fn env_error(code: i32) -> (r: Cplex)
        ensures
            r matches Cplex::Other { code: c, message: m } && c == code && m@
                == "Error encountered when constructing CPLEX env"@,
    {
        Cplex::Other { code, message: "Error encountered when constructing CPLEX env".to_owned() }
    }
}

/// The decision behind the solver's unboundedness probe, which asks for the
/// index of a diverging variable: probe status zero with no diverging index
/// means the model is bounded. If the probe itself fails, the model is
/// assumed bounded, a deliberate bias against over-reporting.
pub fn bounded_from_ray_probe(probe_status: i32, diverging_index: i32) -> (r: bool)
    ensures
        r == (probe_status != 0 || diverging_index == -1),
{
    if probe_status == 0 {
        diverging_index == -1
    } else {
        true
    }
}

/// The decision behind the solver's feasibility probe, which reports a
/// primal-feasibility indicator: probe status zero with a zero indicator
/// means the model is unfeasible. If the probe itself fails, the model is
/// assumed feasible, a deliberate bias against over-reporting.
pub fn feasible_from_soln_probe(probe_status: i32, primal_feasible: i32) -> (r: bool)
    ensures
        r == (probe_status != 0 || primal_feasible != 0),
{
    if probe_status == 0 {
        primal_feasible != 0
    } else {
        true
    }
}

/// Whether the byte holds the C-string terminator.
pub open spec fn spec_is_nul(b: u8) -> bool {
    b == 0
}

/// Extract the message bytes from a buffer the solver's error-string call
/// filled: accepted only when the buffer carries exactly one nul, at its
/// very end, in which case the bytes before it are the message. Anything
/// else — an empty buffer, a missing terminator, or an interior nul — is
/// rejected, and the caller falls back to a fixed message.
pub fn message_prefix(buf: &Vec<u8>) -> (r: Option<Vec<u8>>)
    ensures
        match r {
            Some(msg) => buf@.len() > 0 && spec_is_nul(buf@.last()) && msg@ == buf@.drop_last()
                && (forall|i: int| 0 <= i < buf@.len() - 1 ==> !spec_is_nul(#[trigger] buf@[i])),
            None => buf@.len() == 0 || !spec_is_nul(buf@.last()) || (exists|i: int|
                0 <= i < buf@.len() - 1 && spec_is_nul(#[trigger] buf@[i])),
        },
{
    let n = buf.len();
    if n == 0 || buf[n - 1] != 0 {
        return None;
    }
    let mut msg: Vec<u8> = Vec::new();
    let mut i: usize = 0;
    while i < n - 1
        invariant
            n == buf@.len(),
            n > 0,
            i <= n - 1,
            msg@ == buf@.take(i as int),
            forall|j: int| 0 <= j < i ==> !spec_is_nul(#[trigger] buf@[j]),
        decreases n - 1 - i,
    {
        if buf[i] == 0 {
            return None;
        }
        msg.push(buf[i]);
        proof {
            assert(buf@.take(i + 1) == buf@.take(i as int).push(buf@[i as int]));
        }
        i += 1;
    }
    proof {
        assert(buf@.take(n - 1) == buf@.drop_last());
    }
    Some(msg)
}

/// Whether the status code reports a provably infeasible model (outright,
/// or the combined infeasible-or-unbounded verdict, which is treated the
/// same way).
pub open spec fn status_is_unfeasible(code: i32) -> bool {
    code == CPX_STAT_INFEASIBLE || code == CPX_STAT_INForUNBD
}

/// Whether the status code reports a provably unbounded model, from the
/// continuous or the mixed-integer optimizer.
pub open spec fn status_is_unbounded(code: i32) -> bool {
    code == CPX_STAT_UNBOUNDED || code == CPXMIP_UNBOUNDED
}

/// Classify the terminal status of a solve. An infeasibility status becomes
/// an `Unfeasible` error and an unboundedness status an `Unbounded` error,
/// each carrying the code; infeasibility is tested first, so the combined
/// infeasible-or-unbounded verdict counts as unfeasible. Any other status
/// means the solution values may be read back.
pub fn classify_solve_status(code: i32) -> (r: Option<Cplex>)
    ensures
        status_is_unfeasible(code) ==> (r matches Some(c)
            && c matches Cplex::Unfeasible { code: rc, message: m }
            && rc == code && m@ == "Unfeasible problem"@),
        !status_is_unfeasible(code) && status_is_unbounded(code) ==> (r matches Some(c)
            && c matches Cplex::Unbounded { code: rc, message: m }
            && rc == code && m@ == "Unbounded problem"@),
        !status_is_unfeasible(code) && !status_is_unbounded(code) ==> r is None,
{
    if code == CPX_STAT_INFEASIBLE || code == CPX_STAT_INForUNBD {
        Some(Cplex::Unfeasible { code, message: "Unfeasible problem".to_owned() })
    } else if code == CPX_STAT_UNBOUNDED || code == CPXMIP_UNBOUNDED {
        Some(Cplex::Unbounded { code, message: "Unbounded problem".to_owned() })
    } else {
        None
    }
}

impl From<Cplex> for Error {
    fn from(e: Cplex) -> (r: Error) {
        Error::Cplex(e)
    }
}

impl vstd::std_specs::convert::FromSpecImpl<Cplex> for Error {
    open spec fn obeys_from_spec() -> bool {
        true
    }

    open spec fn from_spec(e: Cplex) -> Error {
        Error::Cplex(e)
    }
}

impl From<Input> for Error {
    fn from(e: Input) -> (r: Error) {
        Error::Input(e)
    }
}

impl vstd::std_specs::convert::FromSpecImpl<Input> for Error {
    open spec fn obeys_from_spec() -> bool {
        true
    }

    open spec fn from_spec(e: Input) -> Error {
        Error::Input(e)
    }
}

} // verus!
