//! The engine's error kinds. Every fallible operation reports one of
//! these to its immediate caller; nothing retries automatically.

use vstd::prelude::*;

verus! {

/// Why a workspace operation failed.
#[derive(Debug)]
pub enum WsError {
    /// A filesystem operation failed: permission, disk, or a transient
    /// race. Carries the failing operation's message.
    IoError(String),
    /// An expected manifest file or path is absent.
    NotFound,
    /// The manifest failed to deserialize or failed version validation.
    ParseError(String),
    /// The destination of a create, rename or move already exists.
    AlreadyExists,
    /// A malformed or parentless path was supplied by the caller.
    InvalidPath,
}

} // verus!
