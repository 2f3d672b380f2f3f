//! Classification of file-system events seen by the shader-file monitor.
//!
//! The monitor holds a non-recursive watch on the shader source path and must
//! push exactly one reload signal for every event that reports the file being
//! renamed into place — the pattern editors use for an atomic save — while
//! ignoring every other kind of change. Only the kind of the event matters to
//! that decision, so the library models the kinds it distinguishes as a plain
//! enum; the thread that owns the watch converts and forwards.

use vstd::prelude::*;

verus! {

/// The kind of change a file-system event reports about the watched path.
#[derive(Clone, Copy, Debug, PartialEq, Eq, Structural)]
pub enum WatchEventKind {
    /// The path was renamed, or a file was renamed onto it (an atomic save).
    NameModify,
    /// The file's contents were written in place.
    DataModify,
    /// Only metadata (permissions, timestamps) changed.
    MetadataModify,
    /// A modify event of no further known kind.
    OtherModify,
    /// The file was created.
    Create,
    /// The file was removed.
    Remove,
    /// The file was accessed without being changed.
    Access,
    /// Anything else the platform reports.
    Other,
}

/// Decides whether one watch event makes the monitor push a reload signal:
/// exactly the rename-style modifications do, one signal per event, and no
/// other kind does.
pub fn emits_reload(kind: &WatchEventKind) -> (r: bool)
    ensures
        r == (kind is NameModify),
{
    match kind {
        WatchEventKind::NameModify => true,
        _ => false,
    }
}

} // verus!
