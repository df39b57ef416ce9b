//! Parameters of the mixed-integer optimizer.

pub mod limits;
