use sliding_sync::{
    RoomListEntry, SlidingSyncError, SlidingSyncList, SlidingSyncListBuilder, SlidingSyncMode,
    SlidingSyncState, SyncRange,
};

fn selective_list(name: &str, ranges: &[(u32, u32)]) -> SlidingSyncList {
    let mut builder = SlidingSyncListBuilder::new().name(name.to_owned());
    for (from, to) in ranges {
        builder = builder.add_range(*from, *to);
    }
    builder.build().unwrap()
}

#[test]
fn range_construction_rejects_inverted_bounds_unchanged() {
    let r = SyncRange::new(7, 3);
    assert!(matches!(r, Err(SlidingSyncError::InvalidRange { start: 7, end: 3 })));
    let r = SyncRange::new(3, 7).unwrap();
    assert_eq!((r.start, r.end), (3, 7));
    let r = SyncRange::new(4, 4).unwrap();
    assert_eq!((r.start, r.end), (4, 4));
}

#[test]
fn builder_requires_a_name() {
    let r = SlidingSyncListBuilder::new().build();
    assert!(matches!(r, Err(SlidingSyncError::BuildMissingField { .. })));
}

#[test]
fn builder_rejects_an_inverted_range_with_its_bounds() {
    let r = SlidingSyncListBuilder::new()
        .name("all".to_owned())
        .add_range(0, 10)
        .add_range(9, 2)
        .build();
    assert!(matches!(r, Err(SlidingSyncError::InvalidRange { start: 9, end: 2 })));
}

#[test]
fn built_list_starts_not_loaded() {
    let list = selective_list("all", &[(0, 9)]);
    assert_eq!(list.state, SlidingSyncState::NotLoaded);
    assert_eq!(list.current_room_count(), None);
    assert!(list.current_room_list().is_empty());
}

#[test]
fn range_mutations_fail_outside_selective_mode_and_change_nothing() {
    let mut list = SlidingSyncListBuilder::new()
        .name("growing".to_owned())
        .sync_mode(SlidingSyncMode::Growing)
        .add_range(0, 5)
        .build()
        .unwrap();
    let before = list.ranges.clone();

    let r = list.set_range(0, 3);
    match r {
        Err(SlidingSyncError::CannotModifyRanges { msg }) => assert_eq!(
            msg,
            "set_range: cannot modify the ranges of a list that syncs in growing mode"
        ),
        other => panic!("unexpected result: {other:?}"),
    }
    assert_eq!(list.ranges, before);

    let r = list.add_range(4, 8);
    match r {
        Err(SlidingSyncError::CannotModifyRanges { msg }) => assert_eq!(
            msg,
            "add_range: cannot modify the ranges of a list that syncs in growing mode"
        ),
        other => panic!("unexpected result: {other:?}"),
    }
    assert_eq!(list.ranges, before);
}

#[test]
fn range_mutations_apply_in_selective_mode() {
    let mut list = selective_list("all", &[(0, 9)]);
    list.add_range(20, 29).unwrap();
    assert_eq!(list.ranges.len(), 2);
    assert_eq!((list.ranges[1].start, list.ranges[1].end), (20, 29));

    list.set_range(5, 7).unwrap();
    assert_eq!(list.ranges.len(), 1);
    assert_eq!((list.ranges[0].start, list.ranges[0].end), (5, 7));

    let r = list.set_range(9, 1);
    assert!(matches!(r, Err(SlidingSyncError::InvalidRange { start: 9, end: 1 })));
    assert_eq!(list.ranges.len(), 1);
    assert_eq!((list.ranges[0].start, list.ranges[0].end), (5, 7));
}

#[test]
fn reset_ranges_clears_in_any_mode() {
    let mut list = SlidingSyncListBuilder::new()
        .name("growing".to_owned())
        .sync_mode(SlidingSyncMode::Growing)
        .add_range(0, 5)
        .build()
        .unwrap();
    list.reset_ranges().unwrap();
    assert!(list.ranges.is_empty());
}

#[test]
fn timeline_limit_can_be_set_and_unset() {
    let mut list = selective_list("all", &[]);
    assert_eq!(list.get_timeline_limit(), None);
    list.set_timeline_limit(25);
    assert_eq!(list.get_timeline_limit(), Some(25));
    list.unset_timeline_limit();
    assert_eq!(list.get_timeline_limit(), None);
}

#[test]
fn response_before_any_request_is_a_generator_error() {
    let mut list = selective_list("all", &[(0, 9)]);
    let r = list.apply_update(10, &Vec::new());
    assert!(matches!(
        r,
        Err(SlidingSyncError::RequestGeneratorHasNotBeenInitialized { .. })
    ));
    assert_eq!(list.state, SlidingSyncState::NotLoaded);
}

#[test]
fn selective_generator_reflects_the_stored_ranges() {
    let mut list = selective_list("all", &[(0, 9), (30, 39)]);
    let ranges = list.next_request_ranges();
    assert_eq!(ranges.len(), 2);
    assert_eq!((ranges[0].start, ranges[0].end), (0, 9));
    assert_eq!((ranges[1].start, ranges[1].end), (30, 39));
}

#[test]
fn growing_generator_widens_by_one_batch_per_cycle_up_to_the_count() {
    let mut list = SlidingSyncListBuilder::new()
        .name("growing".to_owned())
        .sync_mode(SlidingSyncMode::Growing)
        .batch_size(10)
        .build()
        .unwrap();
    let ranges = list.next_request_ranges();
    assert_eq!(ranges.len(), 1);
    assert_eq!((ranges[0].start, ranges[0].end), (0, 9));

    list.apply_update(15, &Vec::new()).unwrap();
    let ranges = list.next_request_ranges();
    assert_eq!(ranges.len(), 1);
    assert_eq!((ranges[0].start, ranges[0].end), (0, 14));
}

#[test]
fn growing_generator_respects_the_room_limit() {
    let mut list = SlidingSyncListBuilder::new()
        .name("growing".to_owned())
        .sync_mode(SlidingSyncMode::Growing)
        .batch_size(10)
        .room_limit(4)
        .build()
        .unwrap();
    let ranges = list.next_request_ranges();
    assert_eq!(ranges.len(), 1);
    assert_eq!((ranges[0].start, ranges[0].end), (0, 3));
}

#[test]
fn full_generator_asks_for_the_whole_reported_total() {
    let mut list = SlidingSyncListBuilder::new()
        .name("full".to_owned())
        .sync_mode(SlidingSyncMode::Full)
        .batch_size(20)
        .build()
        .unwrap();
    let ranges = list.next_request_ranges();
    assert_eq!((ranges[0].start, ranges[0].end), (0, 19));

    list.apply_update(7, &Vec::new()).unwrap();
    let ranges = list.next_request_ranges();
    assert_eq!(ranges.len(), 1);
    assert_eq!((ranges[0].start, ranges[0].end), (0, 6));
}

#[test]
fn fully_loaded_when_every_reported_slot_is_filled() {
    let mut list = selective_list("all", &[(0, 1)]);
    list.next_request_ranges();
    let writes = vec![
        (0, RoomListEntry::Filled { room_id: "!a:x".to_owned() }),
        (1, RoomListEntry::Filled { room_id: "!b:x".to_owned() }),
    ];
    list.apply_update(2, &writes).unwrap();
    assert_eq!(list.state, SlidingSyncState::FullyLoaded);
    assert_eq!(list.current_room_count(), Some(2));

    let writes = vec![(1, RoomListEntry::Invalidated { room_id: "!b:x".to_owned() })];
    list.apply_update(2, &writes).unwrap();
    assert_eq!(list.state, SlidingSyncState::PartiallyLoaded);
}

#[test]
fn write_outside_the_reported_count_is_a_bad_response() {
    let mut list = selective_list("all", &[(0, 9)]);
    list.next_request_ranges();
    let writes = vec![(5, RoomListEntry::Filled { room_id: "!a:x".to_owned() })];
    let r = list.apply_update(3, &writes);
    assert!(matches!(r, Err(SlidingSyncError::BadResponse { .. })));
    assert_eq!(list.state, SlidingSyncState::NotLoaded);
    assert!(list.current_room_list().is_empty());
}

#[test]
fn two_observers_receive_the_identical_ordered_diff_sequence() {
    let mut list = selective_list("all", &[(0, 4)]);
    let (task_one, mut cursor_one) = list.observe_room_list();
    let (task_two, mut cursor_two) = list.observe_room_list();
    assert!(!task_one.is_finished());
    assert!(!task_two.is_finished());

    list.next_request_ranges();
    let writes = vec![
        (0, RoomListEntry::Filled { room_id: "!a:x".to_owned() }),
        (2, RoomListEntry::Filled { room_id: "!c:x".to_owned() }),
    ];
    list.apply_update(5, &writes).unwrap();
    let writes = vec![(1, RoomListEntry::Filled { room_id: "!b:x".to_owned() })];
    list.apply_update(3, &writes).unwrap();

    let mut seen_one = Vec::new();
    while let Some(diff) = list.next_room_list_diff(&mut cursor_one) {
        seen_one.push(diff.clone());
    }
    let mut seen_two = Vec::new();
    while let Some(diff) = list.next_room_list_diff(&mut cursor_two) {
        seen_two.push(diff.clone());
    }
    assert!(!seen_one.is_empty());
    assert_eq!(seen_one, seen_two);

    // Replaying the received diffs reconstructs the projection.
    let mut replica: Vec<RoomListEntry> = Vec::new();
    for diff in seen_one {
        diff.apply(&mut replica).unwrap();
    }
    assert_eq!(replica, list.current_room_list());
}

#[test]
fn state_and_count_streams_deliver_changes_in_order() {
    let mut list = selective_list("all", &[(0, 1)]);
    let (_task, mut state_cursor) = list.observe_state();
    let (_task2, mut count_cursor) = list.observe_rooms_count();

    list.next_request_ranges();
    list.apply_update(2, &Vec::new()).unwrap();
    let writes = vec![
        (0, RoomListEntry::Filled { room_id: "!a:x".to_owned() }),
        (1, RoomListEntry::Filled { room_id: "!b:x".to_owned() }),
    ];
    list.apply_update(2, &writes).unwrap();

    assert_eq!(list.next_state_update(&mut state_cursor), Some(SlidingSyncState::PartiallyLoaded));
    assert_eq!(list.next_state_update(&mut state_cursor), Some(SlidingSyncState::FullyLoaded));
    assert_eq!(list.next_state_update(&mut state_cursor), None);

    assert_eq!(list.next_rooms_count_update(&mut count_cursor), Some(2));
    assert_eq!(list.next_rooms_count_update(&mut count_cursor), None);
}
