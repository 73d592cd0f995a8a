use inotify_toolkit::events::{
    AccessMode, AccessType, DataChangeType, EventType, MetadataType, ModifyType, ObjectType,
    RenameType,
};
use inotify_toolkit::notification::{
    Notification, RawAccessKind, RawAccessMode, RawCreateKind, RawDataChange, RawEventKind,
    RawMetadataKind, RawModifyKind, RawRemoveKind, RawRenameMode,
};
use inotify_toolkit::watcher::{
    create_event, dispatch_step, dispatch_step_at, normalize, ChannelPoll, DispatchAction,
};

fn normalized_type(kind: RawEventKind) -> EventType {
    normalize(String::from("/tmp/watched"), kind, 7).event_type
}

#[test]
fn create_file_maps_to_create_with_file_object() {
    let event = normalize(
        String::from("/tmp/watched/a.txt"),
        RawEventKind::Create(RawCreateKind::File),
        42,
    );
    assert_eq!(
        event.event_type,
        EventType::Create {
            object_type: Some(ObjectType::File)
        }
    );
    assert_eq!(event.detected_at_ns, 42);
    assert_eq!(event.path, "/tmp/watched/a.txt");
    assert_eq!(event.attributes.tracker, None);
}

#[test]
fn create_folder_maps_to_dir_object() {
    assert_eq!(
        normalized_type(RawEventKind::Create(RawCreateKind::Folder)),
        EventType::Create {
            object_type: Some(ObjectType::Dir)
        }
    );
}

#[test]
fn remove_kinds_map_one_to_one() {
    assert_eq!(
        normalized_type(RawEventKind::Remove(RawRemoveKind::File)),
        EventType::Remove {
            object_type: Some(ObjectType::File)
        }
    );
    assert_eq!(
        normalized_type(RawEventKind::Remove(RawRemoveKind::Folder)),
        EventType::Remove {
            object_type: Some(ObjectType::Dir)
        }
    );
    assert_eq!(
        normalized_type(RawEventKind::Remove(RawRemoveKind::Other)),
        EventType::Remove {
            object_type: Some(ObjectType::Other)
        }
    );
}

#[test]
fn access_open_and_close_carry_a_mode() {
    assert_eq!(
        normalized_type(RawEventKind::Access(RawAccessKind::Open(RawAccessMode::Write))),
        EventType::Access {
            access_type: Some(AccessType::Open),
            access_mode: Some(AccessMode::Write)
        }
    );
    assert_eq!(
        normalized_type(RawEventKind::Access(RawAccessKind::Close(
            RawAccessMode::Execute
        ))),
        EventType::Access {
            access_type: Some(AccessType::Close),
            access_mode: Some(AccessMode::Execute)
        }
    );
}

#[test]
fn access_read_and_other_carry_no_mode() {
    assert_eq!(
        normalized_type(RawEventKind::Access(RawAccessKind::Read)),
        EventType::Access {
            access_type: Some(AccessType::Read),
            access_mode: None
        }
    );
    assert_eq!(
        normalized_type(RawEventKind::Access(RawAccessKind::Other)),
        EventType::Access {
            access_type: Some(AccessType::Other),
            access_mode: None
        }
    );
}

#[test]
fn modify_kinds_branch_three_ways() {
    assert_eq!(
        normalized_type(RawEventKind::Modify(RawModifyKind::Metadata(
            RawMetadataKind::Permissions
        ))),
        EventType::ModifyMetadata {
            metadata_type: Some(MetadataType::Permissions)
        }
    );
    assert_eq!(
        normalized_type(RawEventKind::Modify(RawModifyKind::Data(
            RawDataChange::Content
        ))),
        EventType::ModifyData {
            change_type: Some(DataChangeType::Content)
        }
    );
    assert_eq!(
        normalized_type(RawEventKind::Modify(RawModifyKind::Name(RawRenameMode::From))),
        EventType::ModifyRename {
            rename_type: Some(RenameType::From)
        }
    );
    assert_eq!(
        normalized_type(RawEventKind::Modify(RawModifyKind::Name(RawRenameMode::Both))),
        EventType::ModifyRename {
            rename_type: Some(RenameType::Both)
        }
    );
    assert_eq!(
        normalized_type(RawEventKind::Modify(RawModifyKind::Other)),
        EventType::ModifyOther {
            modify_type: Some(ModifyType::Other)
        }
    );
}

#[test]
fn top_level_other_and_any_map_to_other_and_unknown() {
    assert_eq!(normalized_type(RawEventKind::Other), EventType::Other);
    assert_eq!(normalized_type(RawEventKind::Any), EventType::Unknown);
}

#[test]
fn unclassified_subkinds_map_to_none_fields() {
    assert_eq!(
        normalized_type(RawEventKind::Create(RawCreateKind::Any)),
        EventType::Create { object_type: None }
    );
    assert_eq!(
        normalized_type(RawEventKind::Remove(RawRemoveKind::Any)),
        EventType::Remove { object_type: None }
    );
    assert_eq!(
        normalized_type(RawEventKind::Access(RawAccessKind::Any)),
        EventType::Access {
            access_type: None,
            access_mode: None
        }
    );
    assert_eq!(
        normalized_type(RawEventKind::Access(RawAccessKind::Open(RawAccessMode::Any))),
        EventType::Access {
            access_type: Some(AccessType::Open),
            access_mode: None
        }
    );
    assert_eq!(
        normalized_type(RawEventKind::Modify(RawModifyKind::Any)),
        EventType::ModifyOther { modify_type: None }
    );
    assert_eq!(
        normalized_type(RawEventKind::Modify(RawModifyKind::Metadata(
            RawMetadataKind::Any
        ))),
        EventType::ModifyMetadata {
            metadata_type: None
        }
    );
    assert_eq!(
        normalized_type(RawEventKind::Modify(RawModifyKind::Data(RawDataChange::Any))),
        EventType::ModifyData { change_type: None }
    );
    assert_eq!(
        normalized_type(RawEventKind::Modify(RawModifyKind::Name(RawRenameMode::Any))),
        EventType::ModifyRename { rename_type: None }
    );
}

#[test]
fn normalization_is_deterministic() {
    let kind = RawEventKind::Modify(RawModifyKind::Data(RawDataChange::Size));
    let a = normalize(String::from("/p"), kind, 5);
    let b = normalize(String::from("/p"), kind, 5);
    assert_eq!(a, b);
}

#[test]
fn dispatch_forwards_operations_in_arrival_order() {
    let polls = vec![
        ChannelPoll::Notification(Notification {
            kind: RawEventKind::Create(RawCreateKind::File),
            first_path: Some(String::from("/tmp/watched/a")),
        }),
        ChannelPoll::Timeout,
        ChannelPoll::Notification(Notification {
            kind: RawEventKind::Modify(RawModifyKind::Data(RawDataChange::Content)),
            first_path: Some(String::from("/tmp/watched/a")),
        }),
        ChannelPoll::NotificationError {
            message: String::from("transient"),
        },
        ChannelPoll::Notification(Notification {
            kind: RawEventKind::Remove(RawRemoveKind::File),
            first_path: Some(String::from("/tmp/watched/a")),
        }),
    ];

    let mut emitted = Vec::new();
    for (i, poll) in polls.into_iter().enumerate() {
        if let DispatchAction::Emit(event) = dispatch_step_at(poll, i as u128) {
            emitted.push(event.event_type);
        }
    }

    assert_eq!(
        emitted,
        vec![
            EventType::Create {
                object_type: Some(ObjectType::File)
            },
            EventType::ModifyData {
                change_type: Some(DataChangeType::Content)
            },
            EventType::Remove {
                object_type: Some(ObjectType::File)
            },
        ]
    );
}

#[test]
fn quiet_polls_forward_nothing() {
    let polls = vec![
        ChannelPoll::Timeout,
        ChannelPoll::Disconnected,
        ChannelPoll::NotificationError {
            message: String::from("transient"),
        },
        ChannelPoll::Notification(Notification {
            kind: RawEventKind::Create(RawCreateKind::File),
            first_path: None,
        }),
    ];
    for poll in polls {
        assert_eq!(dispatch_step_at(poll, 9), DispatchAction::Skip);
    }
}

#[test]
fn create_event_stamps_the_clock_and_pins_everything_else() {
    let event = create_event(
        String::from("/tmp/watched/b"),
        RawEventKind::Remove(RawRemoveKind::Folder),
    );
    assert_eq!(
        event.event_type,
        EventType::Remove {
            object_type: Some(ObjectType::Dir)
        }
    );
    assert_eq!(event.path, "/tmp/watched/b");
    assert_eq!(event.attributes.tracker, None);
    assert!(event.detected_at_ns > 0);
}

#[test]
fn clock_stamped_dispatch_forwards_the_same_event_shape() {
    let poll = ChannelPoll::Notification(Notification {
        kind: RawEventKind::Create(RawCreateKind::File),
        first_path: Some(String::from("/tmp/watched/c")),
    });
    match dispatch_step(poll) {
        DispatchAction::Emit(event) => {
            assert_eq!(
                event.event_type,
                EventType::Create {
                    object_type: Some(ObjectType::File)
                }
            );
            assert_eq!(event.path, "/tmp/watched/c");
        }
        DispatchAction::Skip => panic!("a notification with a usable path must emit"),
    }
    assert_eq!(dispatch_step(ChannelPoll::Timeout), DispatchAction::Skip);
}

#[test]
fn dispatched_event_keeps_path_and_has_no_tracker() {
    let poll = ChannelPoll::Notification(Notification {
        kind: RawEventKind::Create(RawCreateKind::Folder),
        first_path: Some(String::from("/tmp/watched/dir")),
    });
    match dispatch_step_at(poll, 11) {
        DispatchAction::Emit(event) => {
            assert_eq!(event.path, "/tmp/watched/dir");
            assert_eq!(event.detected_at_ns, 11);
            assert_eq!(event.attributes.tracker, None);
        }
        DispatchAction::Skip => panic!("a notification with a usable path must emit"),
    }
}
