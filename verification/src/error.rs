use vstd::prelude::*;

verus! {

/// A fatal extraction error: the upstream payload broke its contract in a
/// way that must abort the whole batch rather than drop a single entry.
#[derive(Debug, Clone, Copy, PartialEq, Eq, Structural)]
pub enum ExtractError {
    /// A node carried a status string outside the known vocabulary.
    InvalidState,
    /// A node carried an `updatedAt` string that is not a valid RFC 3339
    /// timestamp (a missing field is tolerated; a corrupt one is not).
    InvalidTimestamp,
}

impl ExtractError {
    /// A human-readable description of the error, for the caller to print.
    pub fn message(&self) -> (r: &'static str)
        ensures
            *self == ExtractError::InvalidState ==> r@ == "invalid state in response"@,
            *self == ExtractError::InvalidTimestamp ==> r@ == "unable to parse date"@,
    {
        match self {
            ExtractError::InvalidState => "invalid state in response",
            ExtractError::InvalidTimestamp => "unable to parse date",
        }
    }
}

} // verus!
