//! A client-side engine for windowed incremental synchronization of room
//! lists: named lists declare sliding ranges of interest, the server streams
//! back the entries and counts that fall inside them, and the client
//! maintains an ordered projection of each list together with a diff stream
//! that any number of observers can replay.

pub mod engine;
pub mod engine_builder;
pub mod entries;
pub mod errors;
pub mod list;
pub mod list_builder;
pub mod observers;
pub mod room;
pub mod task;

pub use engine::{
    process_sync_event, ExtensionConfig, ListRequest, ListUpdatePayload, LoopCtrl, SlidingSync,
    SyncLoopEvent, SyncLoopStep, SyncRequest, SyncResponse, UpdateSummary,
};
pub use engine_builder::SlidingSyncBuilder;
pub use entries::{RoomListEntry, SlidingSyncListRoomsListDiff};
pub use errors::SlidingSyncError;
pub use list::{
    RequiredState, SlidingSyncList, SlidingSyncMode, SlidingSyncRequestListFilters,
    SlidingSyncState, StreamCursor, SyncRange,
};
pub use list_builder::SlidingSyncListBuilder;
pub use observers::{
    SlidingSyncListRoomItemsObserver, SlidingSyncListRoomListObserver,
    SlidingSyncListRoomsCountObserver, SlidingSyncListStateObserver, SlidingSyncObserver,
};
pub use room::{
    RoomSubscription, RoomUpdatePayload, SlidingSyncRoom, SlidingSyncSubscribeResult,
    TimelineSignal, TimelineSignalAction, UnreadNotificationsCount,
};
pub use task::{FinalizerAction, TaskHandle};
