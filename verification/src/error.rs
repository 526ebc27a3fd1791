//! The error of the constructors that take a slice.
use vstd::prelude::*;

verus! {

/// A slice handed to a constructor did not hold as many elements as the
/// vector or matrix has.
#[derive(Debug, Clone, Copy, PartialEq, Eq, Structural)]
pub struct DimensionMismatch {
    /// The number of elements of the type that was asked for.
    pub expected: usize,
    /// The number of elements that were given.
    pub found: usize,
}

impl DimensionMismatch {
    /// The mismatch in words.
    pub fn message(&self) -> (text: String)
        ensures
            text@ == "Incorrect number of elements for dimension"@,
    {
        "Incorrect number of elements for dimension".to_string()
    }
}

} // verus!
