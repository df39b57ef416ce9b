//! Numeric constants fixed by the solver's C interface: status codes,
//! objective senses, problem-type and column-type codes, and the identifiers
//! of the configuration parameters this crate exposes.

#![allow(non_upper_case_globals)]

use vstd::prelude::*;

verus! {

/// Bit pattern of the bound the solver treats as infinite (`1.0e20`).
pub const CPX_INFBOUND_PATTERN: u64 = 0x4415_AF1D_78B5_8C40;

// Objective senses.
pub const CPX_MIN: i32 = 1;
pub const CPX_MAX: i32 = -1;

// Problem-type codes.
pub const CPXPROB_LP: i32 = 0;
pub const CPXPROB_MILP: i32 = 1;

// Column-type codes: one ASCII letter per variable kind.
pub const CPX_CONTINUOUS: u8 = 67;
pub const CPX_BINARY: u8 = 66;
pub const CPX_INTEGER: u8 = 73;
pub const CPX_SEMICONT: u8 = 83;
pub const CPX_SEMIINT: u8 = 78;

// Row-sense codes: one ASCII letter per relational type.
pub const CPX_SENSE_LE: u8 = 76;
pub const CPX_SENSE_EQ: u8 = 69;
pub const CPX_SENSE_GE: u8 = 71;

// Terminal solution status codes.
pub const CPX_STAT_UNBOUNDED: i32 = 2;
pub const CPX_STAT_INFEASIBLE: i32 = 3;
pub const CPX_STAT_INForUNBD: i32 = 4;
pub const CPXMIP_UNBOUNDED: i32 = 118;

// Parameter identifiers.
pub const CPXPARAM_Advance: u32 = 1001;
pub const CPXPARAM_Preprocessing_Fill: u32 = 1002;
pub const CPXPARAM_Preprocessing_Aggregator: u32 = 1003;
pub const CPXPARAM_ScreenOutput: u32 = 1035;
pub const CPXPARAM_TimeLimit: u32 = 1039;
pub const CPXPARAM_Read_DataCheck: u32 = 1056;
pub const CPXPARAM_Threads: u32 = 1067;
pub const CPXPARAM_Parallel: u32 = 1109;
pub const CPXPARAM_RandomSeed: u32 = 1124;
pub const CPXPARAM_Read_APIEncoding: u32 = 1130;
pub const CPXPARAM_MIP_Tolerances_AbsMIPGap: u32 = 2008;
pub const CPXPARAM_MIP_Tolerances_MIPGap: u32 = 2009;
pub const CPXPARAM_MIP_Limits_Solutions: u32 = 2015;
pub const CPXPARAM_MIP_Limits_Nodes: u32 = 2017;
pub const CPXPARAM_MIP_Limits_AggForCut: u32 = 2054;
pub const CPXPARAM_Emphasis_MIP: u32 = 2058;
pub const CPXPARAM_Barrier_ConvergeTol: u32 = 3002;
pub const CPXPARAM_Barrier_Limits_Growth: u32 = 3003;
pub const CPXPARAM_Barrier_Limits_ObjRange: u32 = 3004;
pub const CPXPARAM_Barrier_Algorithm: u32 = 3007;
pub const CPXPARAM_Barrier_ColNonzeros: u32 = 3009;
pub const CPXPARAM_Barrier_Display: u32 = 3010;
pub const CPXPARAM_Barrier_Limits_Iteration: u32 = 3012;
pub const CPXPARAM_Barrier_Limits_Corrections: u32 = 3013;
pub const CPXPARAM_Barrier_Ordering: u32 = 3014;
pub const CPXPARAM_Barrier_StartAlg: u32 = 3017;
pub const CPXPARAM_Barrier_Crossover: u32 = 3018;
pub const CPXPARAM_Barrier_QCPConvergeTol: u32 = 4062;

} // verus!
