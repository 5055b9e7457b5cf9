use vstd::prelude::*;
use vstd::string::StringExecFns;
use crate::error::ExtractError;

verus! {

/// Anything that can report whether it is still open.
pub trait Closeable {
    /// What "open" means for the implementing type.
    spec fn spec_open(&self) -> bool;

    /// Returns whether the value is open.
    fn is_open(&self) -> (r: bool)
        ensures
            r == self.spec_open(),
    ;
}

/// The open/closed classification of a work item.
#[derive(Debug, Clone, Copy, PartialEq, Eq, Structural)]
pub enum State {
    Open,
    Closed,
}

/// What classifying a raw status string yields: `Open`, `Closed`, the
/// unknown/absent value (for the literal string `"null"`), or a fatal
/// error for anything outside that vocabulary.
pub open spec fn spec_classify(s: Seq<char>) -> Result<Option<State>, ExtractError> {
    if s == "OPEN"@ {
        Ok(Some(State::Open))
    } else if s == "CLOSED"@ {
        Ok(Some(State::Closed))
    } else if s == "null"@ {
        Ok(None)
    } else {
        Err(ExtractError::InvalidState)
    }
}

impl State {
    /// Classifies a raw status string. `"OPEN"` and `"CLOSED"` map to the
    /// two variants; the literal string `"null"` is the unknown/absent
    /// value; any other input is a fatal invalid-data error.
    pub fn from_string(s: &String) -> (r: Result<Option<State>, ExtractError>)
        ensures
            r == spec_classify(s@),
    {
        if *s == String::from_str("OPEN") {
            Ok(Some(State::Open))
        } else if *s == String::from_str("CLOSED") {
            Ok(Some(State::Closed))
        } else if *s == String::from_str("null") {
            Ok(None)
        } else {
            Err(ExtractError::InvalidState)
        }
    }
}

/// Whether a (possibly unknown) state counts as open: only the `Open`
/// variant does; `Closed` and the unknown/absent value do not. This is
/// the single source of truth for "should this item be shown".
pub open spec fn spec_is_open(state: Option<State>) -> bool {
    state == Some(State::Open)
}

/// Returns whether a classified state is the `Open` variant.
pub fn is_open(state: &Option<State>) -> (r: bool)
    ensures
        r == spec_is_open(*state),
{
    match state {
        Some(State::Open) => true,
        Some(State::Closed) => false,
        None => false,
    }
}

/// Of all raw strings that classify to a known state, exactly `"OPEN"`
/// yields a state that counts as open.
pub proof fn lemma_open_only_for_open(s: Seq<char>)
    requires
        spec_classify(s) matches Ok(st) && st is Some,
    ensures
        spec_is_open(spec_classify(s).unwrap()) <==> s == "OPEN"@,
{
}

} // verus!
