use vstd::prelude::*;

use crate::engine::UpdateSummary;
use crate::entries::SlidingSyncListRoomsListDiff;
use crate::list::SlidingSyncState;

verus! {

/// Capability interfaces through which updates are pushed to a foreign
/// caller.  Each has a single method; implementations live with the
/// caller, outside the library, and are invoked by the forwarding tasks
/// that the observe functions hand out, one callback per received item,
/// in receipt order.
pub trait SlidingSyncListRoomItemsObserver: Sync + Send {
    fn did_receive_update(&self);
}

/// Receives each diff of one list's room-list stream.
pub trait SlidingSyncListRoomListObserver: Sync + Send {
    fn did_receive_update(&self, diff: SlidingSyncListRoomsListDiff);
}

/// Receives each change of one list's matching-room count.
pub trait SlidingSyncListRoomsCountObserver: Sync + Send {
    fn did_receive_update(&self, new_count: u32);
}

/// Receives each change of one list's lifecycle state.
pub trait SlidingSyncListStateObserver: Sync + Send {
    fn did_receive_update(&self, new_state: SlidingSyncState);
}

/// Receives exactly one update summary per completed response cycle.
pub trait SlidingSyncObserver: Sync + Send {
    fn did_receive_sync_update(&self, summary: UpdateSummary);
}

} // verus!
