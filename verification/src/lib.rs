//! Project workspace engine for a directory-backed content project.
//!
//! The engine scans a project directory into a deterministic, filtered,
//! ordered tree snapshot, keeps a project manifest consistent with the
//! on-disk tree, and plans structural mutations (create, delete, rename,
//! move) together with the ordered progress events they emit.

pub mod classify;
pub mod errors;
pub mod events;
pub mod manifest;
pub mod node;
pub mod ops;
pub mod order;
pub mod scan;
pub mod text;

use vstd::prelude::*;

verus! {

/// Relies on uuid::Uuid::new_v4 and its hyphenated `Display` form: a
/// freshly generated identifier always renders as 36 characters. Nothing
/// more is promised of a random value. The call aborts the process if the
/// operating system's randomness source fails; that depends on the
/// environment alone, not on any input.
#[verifier::external_body]
pub fn fresh_project_id() -> (r: String)
    ensures
        r@.len() == 36,
{
    uuid::Uuid::new_v4().to_string()
}

/// Renders an error as its display message, for callers that report
/// errors as plain text.
pub fn to_string_error<E: std::error::Error>(err: E) -> String {
    err.to_string()
}

} // verus!
