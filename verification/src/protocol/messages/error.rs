//! The error that checked conversions and builders report.

use vstd::prelude::*;

verus! {

/// Why a value could not become a schema type, or why a builder could not
/// become a message.
#[derive(Clone, Debug, PartialEq, Eq)]
pub struct ConversionError(pub String);

impl ConversionError {
    /// The text of the error.
    pub fn message(&self) -> (r: &str)
        ensures
            r@ == self.0@,
    {
        self.0.as_str()
    }
}

/// A conversion's result with the error taken by its text.
pub open spec fn outcome<T>(r: Result<T, ConversionError>) -> Result<T, Seq<char>> {
    match r {
        Ok(v) => Ok(v),
        Err(e) => Err(e.0@),
    }
}

} // verus!
