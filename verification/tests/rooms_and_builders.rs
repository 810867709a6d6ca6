use sliding_sync::{
    RoomUpdatePayload, SlidingSyncBuilder, SlidingSyncError, SlidingSyncRoom, TimelineSignal,
    TimelineSignalAction, UnreadNotificationsCount,
};

fn sample_room() -> SlidingSyncRoom {
    SlidingSyncRoom::from_update(&RoomUpdatePayload {
        room_id: "!a:x".to_owned(),
        name: None,
        is_dm: None,
        is_initial: None,
        is_loading_more: true,
        highlight_count: None,
        notification_count: Some(2),
    })
}

#[test]
fn unread_counters_coerce_best_effort() {
    let c = UnreadNotificationsCount::from_server_counts(Some(7), Some(1 << 40));
    assert_eq!(c.highlight_count(), 7);
    assert_eq!(c.notification_count(), 0);
    assert!(c.has_notifications());

    let c = UnreadNotificationsCount::from_server_counts(None, None);
    assert_eq!(c.highlight_count(), 0);
    assert_eq!(c.notification_count(), 0);
    assert!(!c.has_notifications());

    let c = UnreadNotificationsCount::from_server_counts(Some(u32::MAX as u64), None);
    assert_eq!(c.highlight_count(), u32::MAX);
}

#[test]
fn room_getters_reflect_the_payload() {
    let room = sample_room();
    assert_eq!(room.room_id(), "!a:x");
    assert_eq!(room.name(), None);
    assert_eq!(room.is_dm(), None);
    assert_eq!(room.is_initial(), None);
    assert!(room.is_loading_more());
    assert!(room.has_unread_notifications());
}

#[test]
fn attaching_a_listener_installs_the_resolved_timeline_once() {
    let mut room = sample_room();
    let r = room.add_timeline_listener(None);
    assert!(matches!(r, Err(SlidingSyncError::Unknown { .. })));

    let result = room
        .add_timeline_listener(Some(vec!["item-1".to_owned()]))
        .unwrap();
    assert_eq!(result.items, vec!["item-1".to_owned()]);
    assert!(!result.task_handle.is_finished());

    let result = room
        .add_timeline_listener(Some(vec!["other".to_owned()]))
        .unwrap();
    assert_eq!(result.items, vec!["item-1".to_owned()]);
}

#[test]
fn non_content_signals_clear_the_timeline() {
    let mut room = sample_room();
    room.add_timeline_listener(Some(vec!["item-1".to_owned()])).unwrap();

    let action = room.apply_timeline_signal(TimelineSignal::ContentDiff);
    assert_eq!(action, TimelineSignalAction::ForwardToListener);
    assert_eq!(room.timeline, Some(vec!["item-1".to_owned()]));

    for signal in [
        TimelineSignal::FullResyncRequested,
        TimelineSignal::GapDetected,
        TimelineSignal::IgnoredUsersChanged,
    ] {
        let action = room.apply_timeline_signal(signal);
        assert_eq!(action, TimelineSignalAction::ClearTimeline);
        assert_eq!(room.timeline, Some(Vec::new()));
    }
}

#[test]
fn homeserver_url_is_parsed_and_normalized() {
    let builder = SlidingSyncBuilder::new()
        .homeserver("HTTPS://EXAMPLE.com".to_owned())
        .unwrap();
    assert_eq!(builder.homeserver, Some("https://example.com/".to_owned()));
}

#[test]
fn an_unparsable_homeserver_url_is_rejected() {
    let r = SlidingSyncBuilder::new().homeserver("not a url".to_owned());
    assert!(matches!(r, Err(SlidingSyncError::Unknown { .. })));
}

#[test]
fn engine_builder_carries_its_configuration_into_the_engine() {
    let list = sliding_sync::SlidingSyncListBuilder::new()
        .name("all".to_owned())
        .build()
        .unwrap();
    let engine = SlidingSyncBuilder::new()
        .homeserver("https://example.com/sync".to_owned())
        .unwrap()
        .storage_key(Some("cache".to_owned()))
        .add_list(list)
        .with_common_extensions()
        .without_e2ee_extension()
        .build();
    assert_eq!(engine.homeserver, Some("https://example.com/sync".to_owned()));
    assert_eq!(engine.storage_key, Some("cache".to_owned()));
    assert_eq!(engine.lists.len(), 1);
    assert!(engine.subscriptions.is_empty());
    assert!(engine.rooms.is_empty());
    assert!(engine.extensions.to_device);
    assert!(!engine.extensions.e2ee);
    assert!(engine.extensions.account_data);
    assert!(!engine.extensions.receipt);
    assert!(!engine.extensions.typing);
}

#[test]
fn all_extensions_can_be_requested_and_pruned() {
    let builder = SlidingSyncBuilder::new()
        .with_all_extensions()
        .without_typing_extension()
        .without_receipt_extension()
        .without_to_device_extension()
        .without_account_data_extension();
    let engine = builder.build();
    assert!(engine.extensions.e2ee);
    assert!(!engine.extensions.typing);
    assert!(!engine.extensions.receipt);
    assert!(!engine.extensions.to_device);
    assert!(!engine.extensions.account_data);
}

#[test]
fn a_list_builder_replaces_an_earlier_list_with_the_same_name() {
    let first = sliding_sync::SlidingSyncListBuilder::new()
        .name("all".to_owned())
        .add_range(0, 9)
        .build()
        .unwrap();
    let second = sliding_sync::SlidingSyncListBuilder::new()
        .name("all".to_owned())
        .add_range(3, 4)
        .build()
        .unwrap();
    let engine = SlidingSyncBuilder::new().add_list(first).add_list(second).build();
    assert_eq!(engine.lists.len(), 1);
    assert_eq!((engine.lists[0].ranges[0].start, engine.lists[0].ranges[0].end), (3, 4));
}
