//! The event model: the closed set of semantic events the dispatcher routes,
//! and the normalization of raw filesystem notifications into it.

use vstd::prelude::*;

verus! {

/// A semantic event concerning one watched file, identified by its path.
/// `Created` and `Chunk` flow from the notification source to the dispatcher;
/// `Done` and `Failed` flow from a worker back to the dispatcher.
#[derive(Debug, Clone, PartialEq, Eq)]
pub enum DocEvent {
    Created(String),
    Chunk(String),
    Done(String),
    Failed(String),
}

impl DocEvent {
    /// The path this event concerns.
    pub open spec fn path(self) -> Seq<char> {
        match self {
            DocEvent::Created(p) => p@,
            DocEvent::Chunk(p) => p@,
            DocEvent::Done(p) => p@,
            DocEvent::Failed(p) => p@,
        }
    }
}

/// The shape of a raw filesystem notification, as the notification source
/// reports it: an entry was created, an entry was modified, or anything else.
#[derive(Debug, Clone, Copy, PartialEq, Eq, Structural)]
pub enum RawKind {
    EntryCreated,
    EntryModified,
    Other,
}

/// Normalize one raw notification into the event model: a creation becomes
/// `Created`, a modification becomes `Chunk`, every other kind is discarded.
pub fn normalize(kind: RawKind, path: String) -> (r: Option<DocEvent>)
    ensures
        kind == RawKind::EntryCreated ==> r == Some(DocEvent::Created(path)),
        kind == RawKind::EntryModified ==> r == Some(DocEvent::Chunk(path)),
        kind == RawKind::Other ==> r is None,
{
    match kind {
        RawKind::EntryCreated => Some(DocEvent::Created(path)),
        RawKind::EntryModified => Some(DocEvent::Chunk(path)),
        RawKind::Other => None,
    }
}

} // verus!
