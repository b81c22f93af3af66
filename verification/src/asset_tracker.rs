//! The filesystem watcher adapter: which native change notifications count as
//! a change of the watched tree.
//!
//! The operating system's watcher and the queue behind it belong to the
//! host. The host describes each notification with the types of this
//! module and enqueues what [`on_watch_event`] returns.

use vstd::prelude::*;

verus! {

/// The one signal this system propagates: something under the watched
/// directory changed. It carries no payload.
#[derive(Clone, Copy, Debug, PartialEq, Eq, Structural)]
pub enum ReloadEvent {
    FileChange,
}

/// Capacity of the bounded queue between the watcher callback and the
/// change aggregator.
pub const ASSET_TRACKER_BUFFER_SIZE: usize = 128;

/// What was created.
#[derive(Clone, Copy, Debug, PartialEq, Eq, Structural)]
pub enum CreateKind {
    Any,
    File,
    Folder,
    Other,
}

/// What changed in a file's data.
#[derive(Clone, Copy, Debug, PartialEq, Eq, Structural)]
pub enum DataChange {
    Any,
    Size,
    Content,
    Other,
}

/// Which piece of metadata changed.
#[derive(Clone, Copy, Debug, PartialEq, Eq, Structural)]
pub enum MetadataKind {
    Any,
    AccessTime,
    WriteTime,
    Permissions,
    Ownership,
    Extended,
    Other,
}

/// Which side of a rename was seen.
#[derive(Clone, Copy, Debug, PartialEq, Eq, Structural)]
pub enum RenameMode {
    Any,
    To,
    From,
    Both,
    Other,
}

/// What was modified.
#[derive(Clone, Copy, Debug, PartialEq, Eq, Structural)]
pub enum ModifyKind {
    Any,
    Data(DataChange),
    Metadata(MetadataKind),
    Name(RenameMode),
    Other,
}

/// What was removed.
#[derive(Clone, Copy, Debug, PartialEq, Eq, Structural)]
pub enum RemoveKind {
    Any,
    File,
    Folder,
    Other,
}

/// The kind of a native filesystem notification.
#[derive(Clone, Copy, Debug, PartialEq, Eq, Structural)]
pub enum EventKind {
    Any,
    Access,
    Create(CreateKind),
    Modify(ModifyKind),
    Remove(RemoveKind),
    Other,
}

/// The native watcher reported an error instead of an event.
#[derive(Clone, Copy, Debug, PartialEq, Eq, Structural)]
pub struct WatchError;

/// The notifications that change what is served: a file was created, a
/// file's data changed, something was renamed, or something was removed.
/// Metadata changes, accesses, new folders and unclassified notifications do
/// not.
pub open spec fn is_modification(kind: EventKind) -> bool {
    ||| kind == EventKind::Create(CreateKind::File)
    ||| kind matches EventKind::Modify(ModifyKind::Data(_))
    ||| kind matches EventKind::Modify(ModifyKind::Name(_))
    ||| kind is Remove
}

/// What the watcher callback puts on the queue for one notification: one
/// signal for an accepted event, nothing for any other event and nothing
/// for an error, after which watching goes on.
pub open spec fn enqueued(notification: Result<EventKind, WatchError>) -> Option<ReloadEvent> {
    match notification {
        Ok(kind) => if is_modification(kind) {
            Some(ReloadEvent::FileChange)
        } else {
            None
        },
        Err(_) => None,
    }
}

/// Whether a notification of this kind is accepted as a change.
pub fn is_modification_even(kind: EventKind) -> (accepted: bool)
    ensures
        accepted == is_modification(kind),
{
    match kind {
        EventKind::Create(CreateKind::File) => true,
        EventKind::Modify(ModifyKind::Data(_)) => true,
        EventKind::Modify(ModifyKind::Name(_)) => true,
        EventKind::Remove(_) => true,
        _ => false,
    }
}

/// The decision of the watcher callback: the signal to enqueue, if any.
pub fn on_watch_event(notification: Result<EventKind, WatchError>) -> (signal: Option<ReloadEvent>)
    ensures
        signal == enqueued(notification),
{
    match notification {
        Ok(kind) => {
            if is_modification_even(kind) {
                Some(ReloadEvent::FileChange)
            } else {
                None
            }
        },
        Err(_) => None,
    }
}

/// Filter correctness. A metadata change of any sort, a change of
/// permissions among them, puts nothing on the queue, and neither does a
/// watcher error. Creating a file, changing a file's data, renaming and
/// removing each put exactly one signal there.
pub proof fn lemma_filter_correctness(
    metadata: MetadataKind,
    data: DataChange,
    rename: RenameMode,
    remove: RemoveKind,
    error: WatchError,
)
    ensures
        enqueued(Ok(EventKind::Modify(ModifyKind::Metadata(metadata)))) is None,
        enqueued(Err(error)) is None,
        enqueued(Ok(EventKind::Create(CreateKind::File))) == Some(ReloadEvent::FileChange),
        enqueued(Ok(EventKind::Modify(ModifyKind::Data(data)))) == Some(ReloadEvent::FileChange),
        enqueued(Ok(EventKind::Modify(ModifyKind::Name(rename)))) == Some(ReloadEvent::FileChange),
        enqueued(Ok(EventKind::Remove(remove))) == Some(ReloadEvent::FileChange),
{
}

} // verus!
