//! The lens flare itself: its parameters and the passes that draw it.

use vstd::prelude::*;

pub mod effect;
pub mod flare;
pub mod ghost;
pub mod shader_lib;

verus! {

/// Why a parameter of the effect was refused.
#[derive(Debug, Clone, PartialEq, Eq)]
pub enum LfgError {
    /// The named parameter was given a value it cannot take.
    InvalidEffectValue(String),
}

impl View for LfgError {
    type V = Seq<char>;

    /// Name of the parameter.
    open spec fn view(&self) -> Seq<char> {
        match self {
            LfgError::InvalidEffectValue(parameter) => parameter@,
        }
    }
}

impl LfgError {
    /// The message that goes with the error.
    pub fn to_string(&self) -> (message: String)
        ensures
            message@ == "Invalid value for parameter "@ + self@,
    {
        match self {
            LfgError::InvalidEffectValue(parameter) => {
                let mut message = String::from_str("Invalid value for parameter ");
                message.append(parameter.as_str());
                message
            },
        }
    }
}

} // verus!
