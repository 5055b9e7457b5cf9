use gdash::error::ExtractError;
use gdash::state::{is_open, State};

#[test]
fn classify_open() {
    assert_eq!(State::from_string(&String::from("OPEN")), Ok(Some(State::Open)));
}

#[test]
fn classify_closed() {
    assert_eq!(State::from_string(&String::from("CLOSED")), Ok(Some(State::Closed)));
}

#[test]
fn classify_null_is_unknown() {
    assert_eq!(State::from_string(&String::from("null")), Ok(None));
}

#[test]
fn classify_unknown_word_is_fatal() {
    assert_eq!(State::from_string(&String::from("FOO")), Err(ExtractError::InvalidState));
}

#[test]
fn classify_empty_is_fatal() {
    assert_eq!(State::from_string(&String::from("")), Err(ExtractError::InvalidState));
}

#[test]
fn only_open_counts_as_open() {
    assert!(is_open(&Some(State::Open)));
    assert!(!is_open(&Some(State::Closed)));
    assert!(!is_open(&None));
}

#[test]
fn classified_states_open_only_for_open() {
    let open = State::from_string(&String::from("OPEN")).unwrap();
    let closed = State::from_string(&String::from("CLOSED")).unwrap();
    let unknown = State::from_string(&String::from("null")).unwrap();
    assert!(is_open(&open));
    assert!(!is_open(&closed));
    assert!(!is_open(&unknown));
}

#[test]
fn error_messages() {
    assert_eq!(ExtractError::InvalidState.message(), "invalid state in response");
    assert_eq!(ExtractError::InvalidTimestamp.message(), "unable to parse date");
}
