use sliding_sync::{RoomListEntry, SlidingSyncError, SlidingSyncListRoomsListDiff};

fn filled(id: &str) -> RoomListEntry {
    RoomListEntry::Filled { room_id: id.to_owned() }
}

fn sample_projection() -> Vec<RoomListEntry> {
    vec![filled("!a:x"), RoomListEntry::Empty, filled("!b:x")]
}

#[test]
fn reset_replaces_any_prior_projection() {
    let mut projection = sample_projection();
    let values = vec![filled("!new:x"), RoomListEntry::Empty];
    let r = SlidingSyncListRoomsListDiff::Reset { values: values.clone() }.apply(&mut projection);
    assert!(r.is_ok());
    assert_eq!(projection, values);

    let mut empty: Vec<RoomListEntry> = Vec::new();
    let r = SlidingSyncListRoomsListDiff::Reset { values: values.clone() }.apply(&mut empty);
    assert!(r.is_ok());
    assert_eq!(empty, values);
}

#[test]
fn append_extends_at_the_back() {
    let mut projection = sample_projection();
    let r = SlidingSyncListRoomsListDiff::Append { values: vec![filled("!c:x")] }
        .apply(&mut projection);
    assert!(r.is_ok());
    assert_eq!(
        projection,
        vec![filled("!a:x"), RoomListEntry::Empty, filled("!b:x"), filled("!c:x")]
    );
}

#[test]
fn insert_shifts_later_entries() {
    let mut projection = sample_projection();
    let r = SlidingSyncListRoomsListDiff::Insert { index: 1, value: filled("!c:x") }
        .apply(&mut projection);
    assert!(r.is_ok());
    assert_eq!(
        projection,
        vec![filled("!a:x"), filled("!c:x"), RoomListEntry::Empty, filled("!b:x")]
    );
}

#[test]
fn set_at_overwrites_one_position() {
    let mut projection = sample_projection();
    let r = SlidingSyncListRoomsListDiff::SetAt { index: 1, value: filled("!c:x") }
        .apply(&mut projection);
    assert!(r.is_ok());
    assert_eq!(projection, vec![filled("!a:x"), filled("!c:x"), filled("!b:x")]);
}

#[test]
fn remove_closes_the_gap() {
    let mut projection = sample_projection();
    let r = SlidingSyncListRoomsListDiff::Remove { index: 0 }.apply(&mut projection);
    assert!(r.is_ok());
    assert_eq!(projection, vec![RoomListEntry::Empty, filled("!b:x")]);
}

#[test]
fn push_and_pop_work_at_both_ends() {
    let mut projection = vec![filled("!a:x")];
    SlidingSyncListRoomsListDiff::PushBack { value: filled("!b:x") }
        .apply(&mut projection)
        .unwrap();
    SlidingSyncListRoomsListDiff::PushFront { value: filled("!c:x") }
        .apply(&mut projection)
        .unwrap();
    assert_eq!(projection, vec![filled("!c:x"), filled("!a:x"), filled("!b:x")]);
    SlidingSyncListRoomsListDiff::PopBack.apply(&mut projection).unwrap();
    assert_eq!(projection, vec![filled("!c:x"), filled("!a:x")]);
    SlidingSyncListRoomsListDiff::PopFront.apply(&mut projection).unwrap();
    assert_eq!(projection, vec![filled("!a:x")]);
}

#[test]
fn clear_empties_the_projection() {
    let mut projection = sample_projection();
    SlidingSyncListRoomsListDiff::Clear.apply(&mut projection).unwrap();
    assert!(projection.is_empty());
}

#[test]
fn pop_front_on_empty_is_an_error_not_a_no_op() {
    let mut projection: Vec<RoomListEntry> = Vec::new();
    let r = SlidingSyncListRoomsListDiff::PopFront.apply(&mut projection);
    assert!(matches!(r, Err(SlidingSyncError::BadResponse { .. })));
    assert!(projection.is_empty());
}

#[test]
fn pop_back_on_empty_is_an_error_not_a_no_op() {
    let mut projection: Vec<RoomListEntry> = Vec::new();
    let r = SlidingSyncListRoomsListDiff::PopBack.apply(&mut projection);
    assert!(matches!(r, Err(SlidingSyncError::BadResponse { .. })));
}

#[test]
fn out_of_bounds_index_is_an_error_and_leaves_the_projection() {
    let mut projection = sample_projection();
    let r = SlidingSyncListRoomsListDiff::SetAt { index: 9, value: filled("!c:x") }
        .apply(&mut projection);
    assert!(matches!(r, Err(SlidingSyncError::BadResponse { .. })));
    assert_eq!(projection, sample_projection());

    let r = SlidingSyncListRoomsListDiff::Insert { index: 4, value: filled("!c:x") }
        .apply(&mut projection);
    assert!(matches!(r, Err(SlidingSyncError::BadResponse { .. })));
    assert_eq!(projection, sample_projection());

    let r = SlidingSyncListRoomsListDiff::Remove { index: 3 }.apply(&mut projection);
    assert!(matches!(r, Err(SlidingSyncError::BadResponse { .. })));
    assert_eq!(projection, sample_projection());
}
