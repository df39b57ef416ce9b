//! Data-reading and checking parameters.

use vstd::prelude::*;

use crate::constants::{CPXPARAM_Read_APIEncoding, CPXPARAM_Read_DataCheck};
use crate::parameters::{Parameter, ParameterValue};

verus! {

/// API string encoding switch.
#[derive(Copy, Clone, Debug, PartialEq, Eq)]
pub struct APIEncoding(pub &'static str);

impl Parameter for APIEncoding {
    open spec fn spec_value(&self) -> ParameterValue {
        ParameterValue::Text(self.0)
    }

    open spec fn spec_id(&self) -> u32 {
        CPXPARAM_Read_APIEncoding
    }

    fn value(&self) -> ParameterValue {
        ParameterValue::Text(self.0)
    }

    fn id(&self) -> u32 {
        CPXPARAM_Read_APIEncoding
    }
}

/// Data consistency checking and modelling assistance.
#[derive(Copy, Clone, Debug, PartialEq, Eq, Structural)]
pub enum DataCheck {
    Off,
    Warning,
    Assist,
}

impl Parameter for DataCheck {
    open spec fn spec_value(&self) -> ParameterValue {
        match self {
            DataCheck::Off => ParameterValue::Integer(0),
            DataCheck::Warning => ParameterValue::Integer(1),
            DataCheck::Assist => ParameterValue::Integer(2),
        }
    }

    open spec fn spec_id(&self) -> u32 {
        CPXPARAM_Read_DataCheck
    }

    fn value(&self) -> ParameterValue {
        match self {
            DataCheck::Off => ParameterValue::Integer(0),
            DataCheck::Warning => ParameterValue::Integer(1),
            DataCheck::Assist => ParameterValue::Integer(2),
        }
    }

    fn id(&self) -> u32 {
        CPXPARAM_Read_DataCheck
    }
}

} // verus!
