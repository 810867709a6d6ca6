use sliding_sync::{
    FinalizerAction, ListUpdatePayload, LoopCtrl, RoomListEntry, RoomUpdatePayload, SlidingSync,
    SlidingSyncBuilder, SlidingSyncError, SlidingSyncListBuilder, SlidingSyncState, SyncLoopEvent,
    SyncLoopStep, SyncResponse, UpdateSummary,
};

fn engine_with_list(name: &str, ranges: &[(u32, u32)]) -> SlidingSync {
    let mut builder = SlidingSyncListBuilder::new().name(name.to_owned());
    for (from, to) in ranges {
        builder = builder.add_range(*from, *to);
    }
    SlidingSyncBuilder::new().add_list(builder.build().unwrap()).build()
}

fn room_payload(room_id: &str, name: &str) -> RoomUpdatePayload {
    RoomUpdatePayload {
        room_id: room_id.to_owned(),
        name: Some(name.to_owned()),
        is_dm: Some(false),
        is_initial: Some(true),
        is_loading_more: false,
        highlight_count: Some(1),
        notification_count: Some(3),
    }
}

fn filled_writes(count: u32) -> Vec<(u32, RoomListEntry)> {
    (0..count)
        .map(|i| (i, RoomListEntry::Filled { room_id: format!("!room{i}:x") }))
        .collect()
}

#[test]
fn selective_response_fills_the_window_and_reports_the_count() {
    let mut engine = engine_with_list("all", &[(0, 9)]);
    assert_eq!(engine.lists[0].state, SlidingSyncState::NotLoaded);

    let request = engine.next_request();
    assert_eq!(request.lists.len(), 1);
    assert_eq!(request.lists[0].name, "all");
    assert_eq!(
        (request.lists[0].ranges[0].start, request.lists[0].ranges[0].end),
        (0, 9)
    );

    let response = SyncResponse {
        lists: vec![ListUpdatePayload {
            name: "all".to_owned(),
            count: 42,
            writes: filled_writes(10),
        }],
        rooms: Vec::new(),
    };
    let summary = engine.apply_response(&response).unwrap();
    assert_eq!(summary.lists, vec!["all".to_owned()]);

    let list = engine.get_list(&"all".to_owned()).unwrap();
    assert_eq!(list.current_room_count(), Some(42));
    assert_eq!(list.state, SlidingSyncState::PartiallyLoaded);
    let projection = list.current_room_list();
    assert_eq!(projection.len(), 42);
    for i in 0..10 {
        assert_eq!(
            projection[i],
            RoomListEntry::Filled { room_id: format!("!room{i}:x") }
        );
    }
    assert_eq!(projection[10], RoomListEntry::Empty);
}

#[test]
fn response_for_an_unknown_list_is_a_bad_response() {
    let mut engine = engine_with_list("all", &[(0, 9)]);
    engine.next_request();
    let response = SyncResponse {
        lists: vec![ListUpdatePayload {
            name: "other".to_owned(),
            count: 1,
            writes: Vec::new(),
        }],
        rooms: Vec::new(),
    };
    let r = engine.apply_response(&response);
    assert!(matches!(r, Err(SlidingSyncError::BadResponse { .. })));
}

#[test]
fn response_updates_rooms_and_names_them_in_the_summary() {
    let mut engine = engine_with_list("all", &[(0, 9)]);
    engine.next_request();
    let response = SyncResponse {
        lists: Vec::new(),
        rooms: vec![room_payload("!a:x", "alpha"), room_payload("!b:x", "beta")],
    };
    let summary = engine.apply_response(&response).unwrap();
    assert_eq!(summary.rooms, vec!["!a:x".to_owned(), "!b:x".to_owned()]);

    let room = engine.get_room(&"!a:x".to_owned()).unwrap();
    assert_eq!(room.name(), Some("alpha".to_owned()));
    assert_eq!(room.is_dm(), Some(false));
    assert!(room.has_unread_notifications());
    assert_eq!(room.unread_notifications().highlight_count(), 1);
    assert_eq!(room.unread_notifications().notification_count(), 3);

    let rooms = engine.get_rooms(&vec!["!b:x".to_owned(), "!missing:x".to_owned()]);
    assert!(rooms[0].is_some());
    assert!(rooms[1].is_none());
    assert!(engine.get_room(&"!missing:x".to_owned()).is_none());
}

#[test]
fn add_list_with_a_reused_name_returns_the_old_list_and_requests_anew() {
    let mut engine = engine_with_list("all", &[(0, 9)]);
    let replacement = SlidingSyncListBuilder::new()
        .name("all".to_owned())
        .add_range(5, 6)
        .build()
        .unwrap();
    let previous = engine.add_list(replacement).unwrap();
    assert_eq!((previous.ranges[0].start, previous.ranges[0].end), (0, 9));
    assert_eq!(engine.lists.len(), 1);

    let request = engine.next_request();
    assert_eq!(request.lists.len(), 1);
    assert_eq!(request.lists[0].ranges.len(), 1);
    assert_eq!(
        (request.lists[0].ranges[0].start, request.lists[0].ranges[0].end),
        (5, 6)
    );
}

#[test]
fn add_list_under_a_fresh_name_returns_nothing() {
    let mut engine = engine_with_list("all", &[(0, 9)]);
    let other = SlidingSyncListBuilder::new().name("dms".to_owned()).build().unwrap();
    assert!(engine.add_list(other).is_none());
    assert_eq!(engine.lists.len(), 2);
}

#[test]
fn pop_list_detaches_and_returns_the_named_list() {
    let mut engine = engine_with_list("all", &[(0, 9)]);
    assert!(engine.pop_list(&"missing".to_owned()).is_none());
    let popped = engine.pop_list(&"all".to_owned()).unwrap();
    assert_eq!(popped.name, "all");
    assert!(engine.lists.is_empty());
    assert!(engine.get_list(&"all".to_owned()).is_none());
}

#[test]
fn reset_lists_forces_not_loaded_and_keeps_ranges() {
    let mut engine = engine_with_list("all", &[(0, 9)]);
    engine.next_request();
    let response = SyncResponse {
        lists: vec![ListUpdatePayload {
            name: "all".to_owned(),
            count: 10,
            writes: filled_writes(10),
        }],
        rooms: Vec::new(),
    };
    engine.apply_response(&response).unwrap();
    assert_eq!(engine.lists[0].state, SlidingSyncState::FullyLoaded);

    engine.reset_lists();
    assert_eq!(engine.lists[0].state, SlidingSyncState::NotLoaded);
    assert_eq!(
        (engine.lists[0].ranges[0].start, engine.lists[0].ranges[0].end),
        (0, 9)
    );
    assert_eq!(engine.lists[0].current_room_list().len(), 10);
}

#[test]
fn subscriptions_travel_with_the_next_request() {
    let mut engine = engine_with_list("all", &[(0, 9)]);
    engine.subscribe("!a:x".to_owned(), None);
    engine.subscribe("!b:x".to_owned(), None);
    engine.subscribe("!a:x".to_owned(), None);
    let request = engine.next_request();
    assert_eq!(
        request.room_subscriptions,
        vec!["!a:x".to_owned(), "!b:x".to_owned()]
    );

    engine.unsubscribe(&"!a:x".to_owned());
    let request = engine.next_request();
    assert_eq!(request.room_subscriptions, vec!["!b:x".to_owned()]);
}

#[test]
fn canceling_a_task_twice_runs_the_finalizer_exactly_once() {
    let mut handle = sliding_sync::TaskHandle::new();
    handle.set_finalizer(FinalizerAction::Unsubscribe { room_id: "!a:x".to_owned() });
    let first = handle.cancel();
    assert_eq!(
        first,
        Some(FinalizerAction::Unsubscribe { room_id: "!a:x".to_owned() })
    );
    let second = handle.cancel();
    assert_eq!(second, None);
}

#[test]
fn canceling_the_listener_task_unsubscribes_the_room_exactly_once() {
    let mut engine = engine_with_list("all", &[(0, 9)]);
    engine.next_request();
    let response = SyncResponse {
        lists: Vec::new(),
        rooms: vec![room_payload("!a:x", "alpha")],
    };
    engine.apply_response(&response).unwrap();

    let items = vec!["item-1".to_owned(), "item-2".to_owned()];
    let mut result = engine
        .subscribe_and_add_timeline_listener("!a:x".to_owned(), Some(items.clone()), None)
        .unwrap();
    assert_eq!(result.items, items);
    assert_eq!(engine.subscriptions.len(), 1);

    let mut unsubscribes = 0;
    for _ in 0..2 {
        if let Some(FinalizerAction::Unsubscribe { room_id }) = result.task_handle.cancel() {
            engine.unsubscribe(&room_id);
            unsubscribes += 1;
        }
    }
    assert_eq!(unsubscribes, 1);
    assert!(engine.subscriptions.is_empty());
}

#[test]
fn attaching_a_listener_to_an_unknown_room_fails() {
    let mut engine = engine_with_list("all", &[(0, 9)]);
    let r = engine.subscribe_and_add_timeline_listener("!a:x".to_owned(), None, None);
    assert!(matches!(r, Err(SlidingSyncError::Unknown { .. })));
    assert!(engine.subscriptions.is_empty());
}

#[test]
fn the_timeline_is_created_at_most_once_per_room() {
    let mut engine = engine_with_list("all", &[(0, 9)]);
    engine.next_request();
    let response = SyncResponse {
        lists: Vec::new(),
        rooms: vec![room_payload("!a:x", "alpha")],
    };
    engine.apply_response(&response).unwrap();

    let first_items = vec!["item-1".to_owned()];
    engine
        .subscribe_and_add_timeline_listener("!a:x".to_owned(), Some(first_items.clone()), None)
        .unwrap();
    // A later attach reuses the winner's timeline and ignores what the
    // session would now resolve.
    let result = engine
        .subscribe_and_add_timeline_listener(
            "!a:x".to_owned(),
            Some(vec!["other".to_owned()]),
            None,
        )
        .unwrap();
    assert_eq!(result.items, first_items);
}

#[test]
fn the_loop_survives_continue_errors_and_delivers_the_next_summary() {
    for _ in 0..3 {
        let step = sliding_sync::process_sync_event(
            SyncLoopEvent::Failure { ctrl: LoopCtrl::Continue },
            true,
        );
        assert_eq!(step, SyncLoopStep::Skip);
    }
    let summary = UpdateSummary { lists: vec!["all".to_owned()], rooms: Vec::new() };
    let step = sliding_sync::process_sync_event(
        SyncLoopEvent::Update { summary: summary.clone() },
        true,
    );
    assert_eq!(step, SyncLoopStep::Deliver { summary });
}

#[test]
fn break_errors_and_stream_end_stop_the_loop() {
    let step = sliding_sync::process_sync_event(
        SyncLoopEvent::Failure { ctrl: LoopCtrl::Break },
        true,
    );
    assert_eq!(step, SyncLoopStep::Stop);
    let step = sliding_sync::process_sync_event(SyncLoopEvent::Ended, true);
    assert_eq!(step, SyncLoopStep::Stop);
}

#[test]
fn without_an_observer_a_summary_is_not_delivered() {
    let summary = UpdateSummary { lists: Vec::new(), rooms: Vec::new() };
    let step = sliding_sync::process_sync_event(SyncLoopEvent::Update { summary }, false);
    assert_eq!(step, SyncLoopStep::Skip);
}

#[test]
fn common_extensions_can_be_added_on_a_running_engine() {
    let mut engine = engine_with_list("all", &[(0, 9)]);
    assert!(!engine.extensions.to_device);
    engine.add_common_extensions();
    assert!(engine.extensions.to_device);
    assert!(engine.extensions.e2ee);
    assert!(engine.extensions.account_data);
    assert!(!engine.extensions.receipt);
    assert!(!engine.extensions.typing);
    let request = engine.next_request();
    assert!(request.extensions.e2ee);
}

#[test]
fn a_sync_run_gets_a_fresh_cancellable_handle() {
    let engine = engine_with_list("all", &[(0, 9)]);
    let mut handle = engine.sync();
    assert!(!handle.is_finished());
    assert_eq!(handle.cancel(), None);
    let second = engine.sync();
    assert!(!second.is_finished());
}
