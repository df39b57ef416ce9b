//! The solver's four message streams. The callback machinery that forwards
//! native message lines to caller closures lives outside this crate; here
//! stands the stable part: which stream sits at which index in the table of
//! registered closures, matching the order in which the native interface
//! hands its channels out.

use vstd::prelude::*;

verus! {

pub const RESULTS_STREAM_IDX: usize = 0;
pub const WARNING_STREAM_IDX: usize = 1;
pub const ERROR_STREAM_IDX: usize = 2;
pub const LOG_STREAM_IDX: usize = 3;

/// One of the solver's message streams.
#[derive(Clone, Copy, Debug, PartialEq, Eq, Structural)]
pub enum StreamType {
    Results,
    Warning,
    Error,
    Log,
}

impl StreamType {
    /// The stream's position in the closure table, and in the channel list
    /// the native interface returns.
    pub open spec fn spec_as_index(&self) -> usize {
        match self {
            StreamType::Results => RESULTS_STREAM_IDX,
            StreamType::Warning => WARNING_STREAM_IDX,
            StreamType::Error => ERROR_STREAM_IDX,
            StreamType::Log => LOG_STREAM_IDX,
        }
    }

    pub fn as_index(&self) -> (r: usize)
        ensures
            r == self.spec_as_index(),
            r < 4,
    {
        match self {
            StreamType::Results => RESULTS_STREAM_IDX,
            StreamType::Warning => WARNING_STREAM_IDX,
            StreamType::Error => ERROR_STREAM_IDX,
            StreamType::Log => LOG_STREAM_IDX,
        }
    }
}

} // verus!
