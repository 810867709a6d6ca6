use vstd::prelude::*;

use crate::errors::SlidingSyncError;
use crate::list::{
    RequiredState, SlidingSyncList, SlidingSyncMode, SlidingSyncRequestListFilters,
    SlidingSyncState, SyncRange,
};

verus! {

/// Declarative configuration of one list.  Every mutating call is a pure
/// value transformation; nothing blocks or talks to the network.  The
/// name is required at build time.
pub struct SlidingSyncListBuilder {
    pub name: Option<String>,
    pub sync_mode: SlidingSyncMode,
    pub ranges: Vec<(u32, u32)>,
    pub sort: Vec<String>,
    pub required_state: Vec<RequiredState>,
    pub filters: Option<SlidingSyncRequestListFilters>,
    pub batch_size: u32,
    pub room_limit: Option<u32>,
    pub timeline_limit: Option<u32>,
}

impl SlidingSyncListBuilder {
    /// A builder with no name yet: selective mode, no ranges, no filters,
    /// and a batch of twenty rooms per cycle for the expanding modes.
    pub fn new() -> (r: Self)
        ensures
            r.name is None,
            r.sync_mode is Selective,
            r.ranges@ == Seq::<(u32, u32)>::empty(),
            r.sort@ == Seq::<String>::empty(),
            r.required_state@ == Seq::<RequiredState>::empty(),
            r.filters is None,
            r.batch_size == 20,
            r.room_limit is None,
            r.timeline_limit is None,
    {
        SlidingSyncListBuilder {
            name: None,
            sync_mode: SlidingSyncMode::Selective,
            ranges: Vec::new(),
            sort: Vec::new(),
            required_state: Vec::new(),
            filters: None,
            batch_size: 20,
            room_limit: None,
            timeline_limit: None,
        }
    }

    /// Choose how the list's window evolves.
    pub fn sync_mode(self, mode: SlidingSyncMode) -> (r: Self)
        ensures
            r == (SlidingSyncListBuilder { sync_mode: mode, ..self }),
    {
        SlidingSyncListBuilder { sync_mode: mode, ..self }
    }

    /// Replace the configured ranges wholesale.
    pub fn ranges(self, ranges: Vec<(u32, u32)>) -> (r: Self)
        ensures
            r == (SlidingSyncListBuilder { ranges: ranges, ..self }),
    {
        SlidingSyncListBuilder { ranges: ranges, ..self }
    }

    /// Add one range pair.
    pub fn add_range(self, from: u32, to: u32) -> (r: Self)
        ensures
            r.ranges@ == self.ranges@.push((from, to)),
            r == (SlidingSyncListBuilder { ranges: r.ranges, ..self }),
    {
        let mut b = self;
        b.ranges.push((from, to));
        b
    }

    /// Drop every configured range.
    pub fn reset_ranges(self) -> (r: Self)
        ensures
            r.ranges@ == Seq::<(u32, u32)>::empty(),
            r == (SlidingSyncListBuilder { ranges: r.ranges, ..self }),
    {
        let mut b = self;
        b.ranges.clear();
        b
    }

    /// The server-side sort order, most significant key first.
    pub fn sort(self, sort: Vec<String>) -> (r: Self)
        ensures
            r == (SlidingSyncListBuilder { sort: sort, ..self }),
    {
        SlidingSyncListBuilder { sort: sort, ..self }
    }

    /// The state entries requested for each room of the list.
    pub fn required_state(self, required_state: Vec<RequiredState>) -> (r: Self)
        ensures
            r == (SlidingSyncListBuilder { required_state: required_state, ..self }),
    {
        SlidingSyncListBuilder { required_state: required_state, ..self }
    }

    /// Restrict which rooms the list matches.
    pub fn filters(self, filters: SlidingSyncRequestListFilters) -> (r: Self)
        ensures
            r == (SlidingSyncListBuilder { filters: Some(filters), ..self }),
    {
        SlidingSyncListBuilder { filters: Some(filters), ..self }
    }

    /// Remove every filter.
    pub fn no_filters(self) -> (r: Self)
        ensures
            r == (SlidingSyncListBuilder { filters: None, ..self }),
    {
        SlidingSyncListBuilder { filters: None, ..self }
    }

    /// How many rooms an expanding mode adds per request cycle.
    pub fn batch_size(self, batch_size: u32) -> (r: Self)
        ensures
            r == (SlidingSyncListBuilder { batch_size: batch_size, ..self }),
    {
        SlidingSyncListBuilder { batch_size: batch_size, ..self }
    }

    /// Cap how many rooms the expanding modes fetch in total.
    pub fn room_limit(self, limit: u32) -> (r: Self)
        ensures
            r == (SlidingSyncListBuilder { room_limit: Some(limit), ..self }),
    {
        SlidingSyncListBuilder { room_limit: Some(limit), ..self }
    }

    /// Fetch without a total cap.
    pub fn no_room_limit(self) -> (r: Self)
        ensures
            r == (SlidingSyncListBuilder { room_limit: None, ..self }),
    {
        SlidingSyncListBuilder { room_limit: None, ..self }
    }

    /// How many timeline events each room of the list carries.
    pub fn timeline_limit(self, limit: u32) -> (r: Self)
        ensures
            r == (SlidingSyncListBuilder { timeline_limit: Some(limit), ..self }),
    {
        SlidingSyncListBuilder { timeline_limit: Some(limit), ..self }
    }

    /// No per-room timeline limit.
    pub fn no_timeline_limit(self) -> (r: Self)
        ensures
            r == (SlidingSyncListBuilder { timeline_limit: None, ..self }),
    {
        SlidingSyncListBuilder { timeline_limit: None, ..self }
    }

    /// The name the engine keys this list by.
    pub fn name(self, name: String) -> (r: Self)
        ensures
            r == (SlidingSyncListBuilder { name: Some(name), ..self }),
    {
        SlidingSyncListBuilder { name: Some(name), ..self }
    }

    /// Build the list.  Fails with a build-missing-field error when no
    /// name was set, and with an invalid-range error, carrying the
    /// offending bounds unchanged, when a configured pair has its start
    /// past its end.  The built list starts not loaded, with an empty
    /// projection and an uninitialized request generator.
    pub fn build(self) -> (r: Result<SlidingSyncList, SlidingSyncError>)
        ensures
            self.name is None ==> (r matches Err(e) && e is BuildMissingField),
            self.name is Some && (exists|i: int|
                0 <= i < self.ranges@.len() && (#[trigger] self.ranges@[i]).0
                    > self.ranges@[i].1) ==> (r matches Err(e) && e matches
                SlidingSyncError::InvalidRange { start, end } && exists|i: int|
                0 <= i < self.ranges@.len() && #[trigger] self.ranges@[i] == (start, end) && start
                > end),
            self.name is Some && (forall|i: int|
                0 <= i < self.ranges@.len() ==> (#[trigger] self.ranges@[i]).0
                    <= self.ranges@[i].1) ==> (r matches Ok(l) && l.wf() && l.name
                == self.name->0 && l.sync_mode == self.sync_mode && l.ranges@.len()
                == self.ranges@.len() && (forall|i: int|
                0 <= i < self.ranges@.len() ==> ((#[trigger] l.ranges@[i]).start
                    == self.ranges@[i].0 && l.ranges@[i].end == self.ranges@[i].1))
                && l.sort == self.sort && l.required_state == self.required_state && l.filters
                == self.filters && l.batch_size == self.batch_size && l.room_limit
                == self.room_limit && l.timeline_limit == self.timeline_limit && l.state
                is NotLoaded && l.room_count is None && l.projection@ == Seq::<
                crate::entries::RoomListEntry,
            >::empty() && l.diff_log@.len() == 0 && l.state_log@.len() == 0 && l.count_log@.len()
                == 0 && l.generator_position is None),
    {
        let name = match self.name {
            Some(name) => name,
            None => {
                return Err(SlidingSyncError::BuildMissingField {
                    msg: "a list cannot be built without a name".to_owned(),
                });
            },
        };
        let mut ranges: Vec<SyncRange> = Vec::new();
        let mut i: usize = 0;
        while i < self.ranges.len()
            invariant
                self.name is Some,
                i <= self.ranges@.len(),
                ranges@.len() == i,
                forall|j: int|
                    0 <= j < i ==> ((#[trigger] ranges@[j]).start == self.ranges@[j].0
                        && ranges@[j].end == self.ranges@[j].1 && ranges@[j].wf()),
            decreases self.ranges@.len() - i,
        {
            let (from, to) = self.ranges[i];
            match SyncRange::new(from, to) {
                Ok(range) => {
                    ranges.push(range);
                },
                Err(e) => {
                    return Err(e);
                },
            }
            i = i + 1;
        }
        proof {
            assert forall|j: int|
                0 <= j < self.ranges@.len() implies (#[trigger] self.ranges@[j]).0
                <= self.ranges@[j].1 by {
                assert(ranges@[j].wf());
                assert(ranges@[j].start == self.ranges@[j].0);
            };
        }
        Ok(SlidingSyncList {
            name,
            sync_mode: self.sync_mode,
            ranges,
            sort: self.sort,
            required_state: self.required_state,
            filters: self.filters,
            batch_size: self.batch_size,
            room_limit: self.room_limit,
            timeline_limit: self.timeline_limit,
            state: SlidingSyncState::NotLoaded,
            room_count: None,
            projection: Vec::new(),
            diff_log: Vec::new(),
            state_log: Vec::new(),
            count_log: Vec::new(),
            generator_position: None,
        })
    }
}

} // verus!
