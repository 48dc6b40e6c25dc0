//! Keeps a Flutter SDK checkout in step with the version a project asks for.
//!
//! The library holds the decisions: reading probe output, building the
//! status snapshot, choosing the target version, planning the commands that
//! move the checkout, and the state machine that drives a whole session.
//! Running commands and reading files is left to the caller.
pub mod text;
pub mod platform;
pub mod manifest;
pub mod probe;
pub mod status;
pub mod plan;
pub mod engine;
pub mod laws;
