use resrv::asset_tracker::{
    is_modification_even, on_watch_event, CreateKind, DataChange, EventKind, MetadataKind,
    ModifyKind, ReloadEvent, RemoveKind, RenameMode, WatchError, ASSET_TRACKER_BUFFER_SIZE,
};

fn all_kinds() -> Vec<EventKind> {
    let mut kinds = vec![EventKind::Any, EventKind::Access, EventKind::Other];
    for create in [CreateKind::Any, CreateKind::File, CreateKind::Folder, CreateKind::Other] {
        kinds.push(EventKind::Create(create));
    }
    kinds.push(EventKind::Modify(ModifyKind::Any));
    kinds.push(EventKind::Modify(ModifyKind::Other));
    for data in [DataChange::Any, DataChange::Size, DataChange::Content, DataChange::Other] {
        kinds.push(EventKind::Modify(ModifyKind::Data(data)));
    }
    for metadata in [
        MetadataKind::Any,
        MetadataKind::AccessTime,
        MetadataKind::WriteTime,
        MetadataKind::Permissions,
        MetadataKind::Ownership,
        MetadataKind::Extended,
        MetadataKind::Other,
    ] {
        kinds.push(EventKind::Modify(ModifyKind::Metadata(metadata)));
    }
    for rename in [
        RenameMode::Any,
        RenameMode::To,
        RenameMode::From,
        RenameMode::Both,
        RenameMode::Other,
    ] {
        kinds.push(EventKind::Modify(ModifyKind::Name(rename)));
    }
    for remove in [RemoveKind::Any, RemoveKind::File, RemoveKind::Folder, RemoveKind::Other] {
        kinds.push(EventKind::Remove(remove));
    }
    kinds
}

#[test]
fn permission_change_enqueues_nothing() {
    let kind = EventKind::Modify(ModifyKind::Metadata(MetadataKind::Permissions));
    assert!(!is_modification_even(kind));
    assert_eq!(on_watch_event(Ok(kind)), None);
}

#[test]
fn every_metadata_change_enqueues_nothing() {
    for metadata in [
        MetadataKind::Any,
        MetadataKind::AccessTime,
        MetadataKind::WriteTime,
        MetadataKind::Permissions,
        MetadataKind::Ownership,
        MetadataKind::Extended,
        MetadataKind::Other,
    ] {
        assert_eq!(on_watch_event(Ok(EventKind::Modify(ModifyKind::Metadata(metadata)))), None);
    }
}

#[test]
fn file_creation_enqueues_one_signal() {
    assert_eq!(
        on_watch_event(Ok(EventKind::Create(CreateKind::File))),
        Some(ReloadEvent::FileChange)
    );
}

#[test]
fn content_change_enqueues_one_signal() {
    assert_eq!(
        on_watch_event(Ok(EventKind::Modify(ModifyKind::Data(DataChange::Content)))),
        Some(ReloadEvent::FileChange)
    );
    assert_eq!(
        on_watch_event(Ok(EventKind::Modify(ModifyKind::Data(DataChange::Size)))),
        Some(ReloadEvent::FileChange)
    );
}

#[test]
fn rename_enqueues_one_signal() {
    for rename in [
        RenameMode::Any,
        RenameMode::To,
        RenameMode::From,
        RenameMode::Both,
        RenameMode::Other,
    ] {
        assert_eq!(
            on_watch_event(Ok(EventKind::Modify(ModifyKind::Name(rename)))),
            Some(ReloadEvent::FileChange)
        );
    }
}

#[test]
fn removal_enqueues_one_signal() {
    for remove in [RemoveKind::Any, RemoveKind::File, RemoveKind::Folder, RemoveKind::Other] {
        assert_eq!(on_watch_event(Ok(EventKind::Remove(remove))), Some(ReloadEvent::FileChange));
    }
}

#[test]
fn housekeeping_events_enqueue_nothing() {
    for kind in [
        EventKind::Any,
        EventKind::Access,
        EventKind::Other,
        EventKind::Create(CreateKind::Any),
        EventKind::Create(CreateKind::Folder),
        EventKind::Create(CreateKind::Other),
        EventKind::Modify(ModifyKind::Any),
        EventKind::Modify(ModifyKind::Other),
    ] {
        assert!(!is_modification_even(kind));
        assert_eq!(on_watch_event(Ok(kind)), None);
    }
}

#[test]
fn watcher_error_enqueues_nothing() {
    assert_eq!(on_watch_event(Err(WatchError)), None);
}

#[test]
fn accepted_kinds_are_counted() {
    let kinds = all_kinds();
    assert_eq!(kinds.len(), 29);
    let accepted = kinds.iter().filter(|kind| is_modification_even(**kind)).count();
    // one file creation, four data changes, five renames, four removals
    assert_eq!(accepted, 14);
}

#[test]
fn callback_agrees_with_filter_on_every_kind() {
    for kind in all_kinds() {
        let expected = if is_modification_even(kind) { Some(ReloadEvent::FileChange) } else { None };
        assert_eq!(on_watch_event(Ok(kind)), expected);
    }
}

#[test]
fn queue_holds_128_signals() {
    assert_eq!(ASSET_TRACKER_BUFFER_SIZE, 128);
}
