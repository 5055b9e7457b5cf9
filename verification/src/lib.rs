//! A personal dashboard library: ranks GitHub issues, pull requests and
//! review requests by how urgently they need attention.
//!
//! The library is pure: it takes an already-deserialized GraphQL response
//! (as a [`json::Json`] tree) together with the current time in seconds
//! since the Unix epoch, and produces a ranked list of work items.
//! Network transport, credentials and clock reads live with the caller.

pub mod args;
pub mod error;
pub mod issue;
pub mod query;
pub mod json;
pub mod rfc3339;
pub mod state;
