//! Progress events: one-way, ordered notifications from the engine to
//! the presentation layer, used for status only, never for control flow.

use vstd::prelude::*;

verus! {

/// Severity tag of a workspace event.
#[derive(Clone, Copy, PartialEq, Eq, Structural, Debug)]
pub enum EventKind {
    Info,
    Success,
    Error,
}

/// An immutable notification. Every event belongs to the single `action`
/// category; its order of emission is its only timestamp.
pub struct WorkspaceEvent {
    pub kind: EventKind,
    pub message: String,
}

/// Builds an informational event with this message.
pub fn info_event(message: String) -> (e: WorkspaceEvent)
    ensures
        e.kind == EventKind::Info,
        e.message@ == message@,
{
    WorkspaceEvent { kind: EventKind::Info, message }
}

/// Builds a success event with this message.
pub fn success_event(message: String) -> (e: WorkspaceEvent)
    ensures
        e.kind == EventKind::Success,
        e.message@ == message@,
{
    WorkspaceEvent { kind: EventKind::Success, message }
}

} // verus!
