//! Error categories of the store layer's own recording path.

use vstd::prelude::*;

verus! {

/// Category of an error recorded by the store layer itself.
#[derive(Clone, Copy, Debug, PartialEq, Eq, Structural)]
pub enum ErrorType {
    SerializeError,
}

impl ErrorType {
    /// The numeric code stored beside a durably recorded error.
    pub fn code(&self) -> (r: i32)
        ensures
            r == 100,
    {
        match self {
            ErrorType::SerializeError => 100,
        }
    }

    /// Short name of the broader group an error category belongs to.
    pub fn category(&self) -> (r: &'static str)
        ensures
            r@ == "InternalParsing"@,
    {
        match self {
            ErrorType::SerializeError => "InternalParsing",
        }
    }
}

} // verus!
