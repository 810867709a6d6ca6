use vstd::prelude::*;
use vstd::pervasive::VecAdditionalExecFns;
use vstd::string::StringExecFns;

use crate::entries::{spec_replay, RoomListEntry, SlidingSyncListRoomsListDiff};
use crate::errors::SlidingSyncError;
use crate::task::TaskHandle;

verus! {

/// An inclusive window `[start, end]` of positions in a list's ordering.
#[derive(Clone, Copy, PartialEq, Eq, Structural, Debug)]
pub struct SyncRange {
    pub start: u32,
    pub end: u32,
}

impl SyncRange {
    /// A well-formed window never has its start past its end.
    pub open spec fn wf(self) -> bool {
        self.start <= self.end
    }

    /// Construct a range.  `start > end` is rejected with an invalid-range
    /// error carrying both bounds unchanged, never silently clamped.
    pub fn new(start: u32, end: u32) -> (r: Result<SyncRange, SlidingSyncError>)
        ensures
            start <= end ==> r == Ok::<SyncRange, SlidingSyncError>(SyncRange { start, end }),
            start > end ==> r == Err::<SyncRange, SlidingSyncError>(
                SlidingSyncError::InvalidRange { start, end },
            ),
    {
        if start <= end {
            Ok(SyncRange { start, end })
        } else {
            Err(SlidingSyncError::InvalidRange { start, end })
        }
    }
}

/// Policy governing whether and how a list's window auto-expands.
#[derive(Clone, Copy, PartialEq, Eq, Structural, Debug)]
pub enum SlidingSyncMode {
    /// Ranges are set explicitly by the caller and never auto-expanded.
    Selective,
    /// The engine widens the window by one batch per request cycle, up to
    /// an optional maximum number of rooms.
    Growing,
    /// Fetch the complete list, disregarding the stored ranges.
    Full,
}

/// A list's lifecycle state.  It advances once the first response is
/// applied and can regress from fully to partially loaded when the server
/// invalidates entries — never through a diff-stream reset, which is a
/// replica concern, not a protocol-state concern.
#[derive(Clone, Copy, PartialEq, Eq, Structural, Debug)]
pub enum SlidingSyncState {
    /// No response has been applied yet.
    NotLoaded,
    /// Responses were applied, but not every slot of the server's reported
    /// total is filled.
    PartiallyLoaded,
    /// Every slot of the server's reported total is filled.
    FullyLoaded,
}

/// One required state entry requested for each room: an event type key and
/// a state key.
pub struct RequiredState {
    pub key: String,
    pub value: String,
}

/// Server-side filters restricting which rooms a list matches.
pub struct SlidingSyncRequestListFilters {
    pub is_dm: Option<bool>,
    pub spaces: Vec<String>,
    pub is_encrypted: Option<bool>,
    pub is_invite: Option<bool>,
    pub is_tombstoned: Option<bool>,
    pub room_types: Vec<String>,
    pub not_room_types: Vec<String>,
    pub room_name_like: Option<String>,
    pub tags: Vec<String>,
    pub not_tags: Vec<String>,
}

/// A consumer's position in one of a list's broadcast streams.  Each
/// observer owns an independent cursor; the stream hands out every logged
/// item once, in emission order.
pub struct StreamCursor {
    pub pos: usize,
}

/// One named list: its configuration, its request generator, and the live
/// ordered projection of rooms together with the streams observers replay.
pub struct SlidingSyncList {
    pub name: String,
    pub sync_mode: SlidingSyncMode,
    pub ranges: Vec<SyncRange>,
    pub sort: Vec<String>,
    pub required_state: Vec<RequiredState>,
    pub filters: Option<SlidingSyncRequestListFilters>,
    pub batch_size: u32,
    pub room_limit: Option<u32>,
    pub timeline_limit: Option<u32>,
    pub state: SlidingSyncState,
    pub room_count: Option<u32>,
    /// The materialized ordered view of this list's entries.
    pub projection: Vec<RoomListEntry>,
    /// Every diff applied to the projection since creation, in order: the
    /// broadcast diff stream.
    pub diff_log: Vec<SlidingSyncListRoomsListDiff>,
    /// Every lifecycle state change since creation, in order.
    pub state_log: Vec<SlidingSyncState>,
    /// Every change of the matching-room count since creation, in order.
    pub count_log: Vec<u32>,
    /// How many positions the request generator has asked for so far;
    /// `None` until the first request was generated.
    pub generator_position: Option<u32>,
}

impl SlidingSyncList {
    /// The list's internal consistency: every stored range is well formed,
    /// and replaying the diff log from an empty projection reproduces the
    /// current projection, so observers that apply the stream in order
    /// converge on exactly this view.
    pub open spec fn wf(self) -> bool {
        &&& forall|i: int|
            0 <= i < self.ranges@.len() ==> (#[trigger] self.ranges@[i]).wf()
        &&& spec_replay(self.diff_log@) == Some(self.projection@)
    }

    /// Everything but the range set is unchanged.
    pub open spec fn only_ranges_changed(self, other: SlidingSyncList) -> bool {
        self == SlidingSyncList { ranges: self.ranges, ..other }
    }

    /// Replace the whole range set with the single window `[start, end]`.
    ///
    /// Legal only in selective mode; the new window takes effect on the
    /// next request cycle, so an in-flight response may still reflect the
    /// old one.
    pub fn set_range(&mut self, start: u32, end: u32) -> (r: Result<(), SlidingSyncError>)
        requires
            old(self).wf(),
        ensures
            final(self).wf(),
            !(old(self).sync_mode is Selective) ==> (r matches Err(e)
                && (e matches SlidingSyncError::CannotModifyRanges { msg } && msg@
                == spec_cannot_modify_msg("set_range"@, old(self).sync_mode)) && *final(self)
                == *old(self)),
            old(self).sync_mode is Selective && start > end ==> r == Err::<(), SlidingSyncError>(
                SlidingSyncError::InvalidRange { start, end },
            ) && *final(self) == *old(self),
            old(self).sync_mode is Selective && start <= end ==> r is Ok
                && final(self).only_ranges_changed(*old(self))
                && final(self).ranges@ == seq![SyncRange { start, end }],
    {
        if !matches!(self.sync_mode, SlidingSyncMode::Selective) {
            return Err(cannot_modify_ranges("set_range", self.sync_mode));
        }
        let range = SyncRange::new(start, end)?;
        self.ranges.clear();
        self.ranges.push(range);
        proof {
            assert(self.ranges@ =~= seq![SyncRange { start, end }]);
        }
        Ok(())
    }

    /// Add one window `[start, end]` to the range set.
    ///
    /// Legal only in selective mode; effective on the next request cycle.
    pub fn add_range(&mut self, start: u32, end: u32) -> (r: Result<(), SlidingSyncError>)
        requires
            old(self).wf(),
        ensures
            final(self).wf(),
            !(old(self).sync_mode is Selective) ==> (r matches Err(e)
                && (e matches SlidingSyncError::CannotModifyRanges { msg } && msg@
                == spec_cannot_modify_msg("add_range"@, old(self).sync_mode)) && *final(self)
                == *old(self)),
            old(self).sync_mode is Selective && start > end ==> r == Err::<(), SlidingSyncError>(
                SlidingSyncError::InvalidRange { start, end },
            ) && *final(self) == *old(self),
            old(self).sync_mode is Selective && start <= end ==> r is Ok
                && final(self).only_ranges_changed(*old(self))
                && final(self).ranges@ == old(self).ranges@.push(SyncRange { start, end }),
    {
        if !matches!(self.sync_mode, SlidingSyncMode::Selective) {
            return Err(cannot_modify_ranges("add_range", self.sync_mode));
        }
        let range = SyncRange::new(start, end)?;
        self.ranges.push(range);
        Ok(())
    }

    /// Clear the range set.  Legal in any mode, effective on the next
    /// request cycle.
    pub fn reset_ranges(&mut self) -> (r: Result<(), SlidingSyncError>)
        requires
            old(self).wf(),
        ensures
            final(self).wf(),
            r is Ok,
            final(self).only_ranges_changed(*old(self)),
            final(self).ranges@ == Seq::<SyncRange>::empty(),
    {
        self.ranges.clear();
        Ok(())
    }

    /// A consistent point-in-time copy of the projection, not a reference
    /// into the list's mutable state.
    pub fn current_room_list(&self) -> (r: Vec<RoomListEntry>)
        ensures
            r@ == self.projection@,
    {
        duplicate_entries(&self.projection)
    }

    /// The best current estimate of how many rooms match this list; `None`
    /// until the server has reported at least once.
    pub fn current_room_count(&self) -> (r: Option<u32>)
        ensures
            r == self.room_count,
    {
        self.room_count
    }

    /// The current per-room timeline limit requested with this list.
    pub fn get_timeline_limit(&self) -> (r: Option<u32>)
        ensures
            r == self.timeline_limit,
    {
        self.timeline_limit
    }

    /// Set the per-room timeline limit; effective on the next request.
    pub fn set_timeline_limit(&mut self, value: u32)
        ensures
            *final(self) == (SlidingSyncList { timeline_limit: Some(value), ..*old(self) }),
    {
        self.timeline_limit = Some(value);
    }

    /// Remove the per-room timeline limit; effective on the next request.
    pub fn unset_timeline_limit(&mut self)
        ensures
            *final(self) == (SlidingSyncList { timeline_limit: None, ..*old(self) }),
    {
        self.timeline_limit = None;
    }

    /// Force the list back to not-yet-loaded so the next cycle does a full
    /// resync.  Ranges and the materialized projection are preserved; the
    /// request generator starts over.
    pub fn reset(&mut self)
        requires
            old(self).wf(),
        ensures
            final(self).wf(),
            final(self).state is NotLoaded,
            final(self).generator_position is None,
            final(self).state_log@ == if old(self).state is NotLoaded {
                old(self).state_log@
            } else {
                old(self).state_log@.push(SlidingSyncState::NotLoaded)
            },
            *final(self) == (SlidingSyncList {
                state: SlidingSyncState::NotLoaded,
                generator_position: None,
                state_log: final(self).state_log,
                ..*old(self)
            }),
    {
        if !matches!(self.state, SlidingSyncState::NotLoaded) {
            self.state_log.push(SlidingSyncState::NotLoaded);
        }
        self.state = SlidingSyncState::NotLoaded;
        self.generator_position = None;
    }
}

/// The printed name of a sync mode.
pub open spec fn spec_mode_name(mode: SlidingSyncMode) -> Seq<char> {
    match mode {
        SlidingSyncMode::Selective => "selective"@,
        SlidingSyncMode::Growing => "growing"@,
        SlidingSyncMode::Full => "full"@,
    }
}

/// The message of a cannot-modify-ranges error: it names the attempted
/// mutation and the list's current sync mode.
pub open spec fn spec_cannot_modify_msg(mutation: Seq<char>, mode: SlidingSyncMode) -> Seq<char> {
    mutation + ": cannot modify the ranges of a list that syncs in "@ + spec_mode_name(mode)
        + " mode"@
}

fn mode_name(mode: SlidingSyncMode) -> (r: &'static str)
    ensures
        r@ == spec_mode_name(mode),
{
    match mode {
        SlidingSyncMode::Selective => "selective",
        SlidingSyncMode::Growing => "growing",
        SlidingSyncMode::Full => "full",
    }
}

/// The error returned when a range mutation is attempted in a sync mode
/// that forbids it, naming the attempted mutation and the current mode.
fn cannot_modify_ranges(mutation: &str, mode: SlidingSyncMode) -> (r: SlidingSyncError)
    ensures
        r matches SlidingSyncError::CannotModifyRanges { msg } && msg@ == spec_cannot_modify_msg(
            mutation@,
            mode,
        ),
{
    let mut msg = mutation.to_owned();
    msg.append(": cannot modify the ranges of a list that syncs in ");
    msg.append(mode_name(mode));
    msg.append(" mode");
    SlidingSyncError::CannotModifyRanges { msg }
}

/// An exact copy of a projection.
pub fn duplicate_entries(v: &Vec<RoomListEntry>) -> (r: Vec<RoomListEntry>)
    ensures
        r@ == v@,
{
    let mut out: Vec<RoomListEntry> = Vec::new();
    let mut i: usize = 0;
    while i < v.len()
        invariant
            i <= v.len(),
            out@ == v@.subrange(0, i as int),
        decreases v.len() - i,
    {
        out.push(v[i].duplicate());
        proof {
            assert(out@ =~= v@.subrange(0, i + 1 as int));
        }
        i = i + 1;
    }
    proof {
        assert(out@ =~= v@);
    }
    out
}


/// A projection resized to `count` slots: truncated from the back, or
/// extended with empty slots.
pub open spec fn spec_resize(p: Seq<RoomListEntry>, count: u32) -> Seq<RoomListEntry> {
    if count as int <= p.len() {
        p.subrange(0, count as int)
    } else {
        p + Seq::new((count as int - p.len()) as nat, |i: int| RoomListEntry::Empty)
    }
}

/// A projection after positional writes are applied, in order.
pub open spec fn spec_apply_writes(
    p: Seq<RoomListEntry>,
    writes: Seq<(u32, RoomListEntry)>,
) -> Seq<RoomListEntry>
    decreases writes.len(),
{
    if writes.len() == 0 {
        p
    } else {
        spec_apply_writes(p, writes.drop_last()).update(
            writes.last().0 as int,
            writes.last().1,
        )
    }
}

/// How many slots of a projection are filled.
pub open spec fn spec_num_filled(p: Seq<RoomListEntry>) -> int
    decreases p.len(),
{
    if p.len() == 0 {
        0
    } else {
        spec_num_filled(p.drop_last()) + if p.last() is Filled {
            1int
        } else {
            0int
        }
    }
}

/// The lifecycle state after a response reporting `count` matching rooms:
/// fully loaded exactly when every reported slot is filled.
pub open spec fn spec_state_after(p: Seq<RoomListEntry>, count: u32) -> SlidingSyncState {
    if spec_num_filled(p) == count as int {
        SlidingSyncState::FullyLoaded
    } else {
        SlidingSyncState::PartiallyLoaded
    }
}

/// The window the generator asks for next in growing mode: one batch past
/// the positions covered so far, capped by the configured room limit and by
/// the server's reported total.
pub open spec fn spec_growing_target(l: SlidingSyncList) -> u32 {
    let pos = match l.generator_position {
        Some(p) => p,
        None => 0u32,
    };
    let grown = if pos as int + l.batch_size as int > u32::MAX as int {
        u32::MAX
    } else {
        (pos + l.batch_size) as u32
    };
    let capped = match l.room_limit {
        Some(m) => if grown > m {
            m
        } else {
            grown
        },
        None => grown,
    };
    match l.room_count {
        Some(c) => if capped > c {
            c
        } else {
            capped
        },
        None => capped,
    }
}

/// The window the generator asks for in full mode: the server's whole
/// reported total, or one batch while the total is still unknown.
pub open spec fn spec_full_target(l: SlidingSyncList) -> u32 {
    match l.room_count {
        Some(c) => c,
        None => l.batch_size,
    }
}

/// How many positions the generator has covered once the next request is
/// generated.
pub open spec fn spec_next_position(l: SlidingSyncList) -> u32 {
    match l.sync_mode {
        SlidingSyncMode::Selective => 0u32,
        SlidingSyncMode::Growing => spec_growing_target(l),
        SlidingSyncMode::Full => spec_full_target(l),
    }
}

/// The ranges the next request asks for, by sync mode: the stored ranges
/// in selective mode, or a single window from position zero up to the
/// generator's target otherwise.
pub open spec fn spec_next_ranges(l: SlidingSyncList) -> Seq<SyncRange> {
    match l.sync_mode {
        SlidingSyncMode::Selective => l.ranges@,
        SlidingSyncMode::Growing => {
            let t = spec_growing_target(l);
            if t == 0 {
                Seq::<SyncRange>::empty()
            } else {
                seq![SyncRange { start: 0u32, end: (t - 1) as u32 }]
            }
        },
        SlidingSyncMode::Full => {
            let t = spec_full_target(l);
            if t == 0 {
                Seq::<SyncRange>::empty()
            } else {
                seq![SyncRange { start: 0u32, end: (t - 1) as u32 }]
            }
        },
    }
}

impl SlidingSyncList {
    /// Generate the ranges for the next request cycle and mark the request
    /// generator initialized.
    ///
    /// Selective mode reflects the stored ranges; growing mode widens a
    /// single window `[0, target-1]` by one batch per cycle; full mode asks
    /// for the whole reported total, disregarding the stored ranges.
    pub fn next_request_ranges(&mut self) -> (r: Vec<SyncRange>)
        requires
            old(self).wf(),
        ensures
            final(self).wf(),
            *final(self) == (SlidingSyncList {
                generator_position: Some(spec_next_position(*old(self))),
                ..*old(self)
            }),
            r@ == spec_next_ranges(*old(self)),
    {
        match self.sync_mode {
            SlidingSyncMode::Selective => {
                self.generator_position = Some(0);
                let mut out: Vec<SyncRange> = Vec::new();
                let mut i: usize = 0;
                while i < self.ranges.len()
                    invariant
                        i <= self.ranges@.len(),
                        out@ == self.ranges@.subrange(0, i as int),
                    decreases self.ranges@.len() - i,
                {
                    out.push(self.ranges[i]);
                    proof {
                        assert(out@ =~= self.ranges@.subrange(0, i + 1 as int));
                    }
                    i = i + 1;
                }
                proof {
                    assert(out@ =~= self.ranges@);
                }
                out
            },
            SlidingSyncMode::Growing => {
                let pos = match self.generator_position {
                    Some(p) => p,
                    None => 0,
                };
                let grown = if pos > u32::MAX - self.batch_size {
                    u32::MAX
                } else {
                    pos + self.batch_size
                };
                let capped = match self.room_limit {
                    Some(m) => if grown > m {
                        m
                    } else {
                        grown
                    },
                    None => grown,
                };
                let target = match self.room_count {
                    Some(c) => if capped > c {
                        c
                    } else {
                        capped
                    },
                    None => capped,
                };
                self.generator_position = Some(target);
                let mut out: Vec<SyncRange> = Vec::new();
                if target > 0 {
                    out.push(SyncRange { start: 0, end: target - 1 });
                }
                proof {
                    if target > 0 {
                        assert(out@ =~= seq![SyncRange { start: 0u32, end: (target - 1) as u32 }]);
                    } else {
                        assert(out@ =~= Seq::<SyncRange>::empty());
                    }
                }
                out
            },
            SlidingSyncMode::Full => {
                let target = match self.room_count {
                    Some(c) => c,
                    None => self.batch_size,
                };
                self.generator_position = Some(target);
                let mut out: Vec<SyncRange> = Vec::new();
                if target > 0 {
                    out.push(SyncRange { start: 0, end: target - 1 });
                }
                proof {
                    if target > 0 {
                        assert(out@ =~= seq![SyncRange { start: 0u32, end: (target - 1) as u32 }]);
                    } else {
                        assert(out@ =~= Seq::<SyncRange>::empty());
                    }
                }
                out
            },
        }
    }
}


/// True when every positional write stays below the reported room count.
pub open spec fn spec_writes_in_range(writes: Seq<(u32, RoomListEntry)>, count: u32) -> bool {
    forall|i: int| 0 <= i < writes.len() ==> ((#[trigger] writes[i]).0 as int) < count as int
}

/// One list after one applied update, exactly as `apply_update` leaves
/// it: the projection resized and written, the count recorded, the state
/// recomputed, the broadcast streams extended, and everything else
/// untouched.
pub open spec fn spec_list_updated(
    pre: SlidingSyncList,
    count: u32,
    writes: Seq<(u32, RoomListEntry)>,
    post: SlidingSyncList,
) -> bool {
    &&& post.projection@ == spec_apply_writes(spec_resize(pre.projection@, count), writes)
    &&& post.room_count == Some(count)
    &&& post.state == spec_state_after(post.projection@, count)
    &&& post.diff_log@.len() >= pre.diff_log@.len()
    &&& post.diff_log@.subrange(0, pre.diff_log@.len() as int) == pre.diff_log@
    &&& post.count_log@ == (if pre.room_count == Some(count) {
        pre.count_log@
    } else {
        pre.count_log@.push(count)
    })
    &&& post.state_log@ == (if pre.state == post.state {
        pre.state_log@
    } else {
        pre.state_log@.push(post.state)
    })
    &&& post == (SlidingSyncList {
        state: post.state,
        room_count: post.room_count,
        projection: post.projection,
        diff_log: post.diff_log,
        state_log: post.state_log,
        count_log: post.count_log,
        ..pre
    })
}

impl SlidingSyncList {
    /// Apply one server update for this list: resize the projection to the
    /// reported `count` of matching rooms, apply the positional `writes` in
    /// order, record the count, and recompute the lifecycle state.  Every
    /// projection change is also emitted on the diff stream, so observers
    /// replaying the stream converge on exactly this view.
    ///
    /// Fails without effect when the request generator has not produced any
    /// request yet (the response arrived before a request was sent), or
    /// when a write falls outside the reported count.
    pub fn apply_update(
        &mut self,
        count: u32,
        writes: &Vec<(u32, RoomListEntry)>,
    ) -> (r: Result<(), SlidingSyncError>)
        requires
            old(self).wf(),
        ensures
            final(self).wf(),
            old(self).generator_position is None ==> (r matches Err(e)
                && e is RequestGeneratorHasNotBeenInitialized && *final(self) == *old(self)),
            old(self).generator_position is Some && !spec_writes_in_range(writes@, count) ==> (
            r matches Err(e) && e is BadResponse && *final(self) == *old(self)),
            old(self).generator_position is Some && spec_writes_in_range(writes@, count) ==> (
            r is Ok && spec_list_updated(*old(self), count, writes@, *final(self))),
    {
        if self.generator_position.is_none() {
            return Err(SlidingSyncError::RequestGeneratorHasNotBeenInitialized {
                msg: "a response was handled before any request was generated".to_owned(),
            });
        }
        let mut k: usize = 0;
        while k < writes.len()
            invariant
                k <= writes@.len(),
                forall|i: int| 0 <= i < k ==> ((#[trigger] writes@[i]).0 as int) < count as int,
                *self == *old(self),
                old(self).wf(),
                old(self).generator_position is Some,
            decreases writes@.len() - k,
        {
            if writes[k].0 >= count {
                return Err(SlidingSyncError::BadResponse {
                    msg: "a response wrote outside the reported room count".to_owned(),
                });
            }
            k = k + 1;
        }
        assert(spec_writes_in_range(writes@, count));
        let count_usize = count as usize;
        // Resize the projection to the reported count, emitting the
        // matching diffs.
        while self.projection.len() > count_usize
            invariant
                count_usize == count as usize,
                self.projection@.len() <= old(self).projection@.len(),
                self.projection@.len() >= count as int
                    || self.projection@.len() == old(self).projection@.len(),
                self.projection@ == old(self).projection@.subrange(
                    0,
                    self.projection@.len() as int,
                ),
                spec_replay(self.diff_log@) == Some(self.projection@),
                self.diff_log@.len() >= old(self).diff_log@.len(),
                self.diff_log@.subrange(0, old(self).diff_log@.len() as int)
                    == old(self).diff_log@,
                *self == (SlidingSyncList {
                    projection: self.projection,
                    diff_log: self.diff_log,
                    ..*old(self)
                }),
            decreases self.projection@.len(),
        {
            let ghost prev_log = self.diff_log@;
            let ghost prev_proj = self.projection@;
            let _ = self.projection.pop();
            self.diff_log.push(SlidingSyncListRoomsListDiff::PopBack);
            proof {
                crate::entries::lemma_replay_push(
                    prev_log,
                    SlidingSyncListRoomsListDiff::PopBack,
                );
                assert(self.projection@ =~= prev_proj.drop_last());
                assert(self.projection@ =~= old(self).projection@.subrange(
                    0,
                    self.projection@.len() as int,
                ));
                assert(self.diff_log@.subrange(0, old(self).diff_log@.len() as int)
                    =~= prev_log.subrange(0, old(self).diff_log@.len() as int));
            }
        }
        if self.projection.len() < count_usize {
            let mut filler: Vec<RoomListEntry> = Vec::new();
            let need = count_usize - self.projection.len();
            while filler.len() < need
                invariant
                    filler@.len() <= need,
                    forall|i: int|
                        0 <= i < filler@.len() ==> (#[trigger] filler@[i])
                            == RoomListEntry::Empty,
                decreases need - filler@.len(),
            {
                filler.push(RoomListEntry::Empty);
            }
            let filler_copy = duplicate_entries(&filler);
            let ghost filler_view = filler@;
            let ghost prev_log = self.diff_log@;
            let ghost prev_proj = self.projection@;
            self.projection.append(&mut filler);
            self.diff_log.push(SlidingSyncListRoomsListDiff::Append { values: filler_copy });
            proof {
                crate::entries::lemma_replay_push(
                    prev_log,
                    SlidingSyncListRoomsListDiff::Append { values: filler_copy },
                );
                assert(filler_copy@ == filler_view);
                assert(self.projection@ == prev_proj + filler_view);
                assert(self.diff_log@.subrange(0, old(self).diff_log@.len() as int)
                    =~= prev_log.subrange(0, old(self).diff_log@.len() as int));
            }
        }
        proof {
            assert(self.projection@ =~= spec_resize(old(self).projection@, count));
        }
        let ghost resized = self.projection@;
        // Apply the positional writes, emitting one set-diff each.
        let mut k: usize = 0;
        proof {
            assert(writes@.subrange(0, 0) =~= Seq::<(u32, RoomListEntry)>::empty());
        }
        while k < writes.len()
            invariant
                k <= writes@.len(),
                spec_writes_in_range(writes@, count),
                resized.len() == count as int,
                resized == spec_resize(old(self).projection@, count),
                self.projection@.len() == count as int,
                self.projection@ == spec_apply_writes(resized, writes@.subrange(0, k as int)),
                spec_replay(self.diff_log@) == Some(self.projection@),
                self.diff_log@.len() >= old(self).diff_log@.len(),
                self.diff_log@.subrange(0, old(self).diff_log@.len() as int)
                    == old(self).diff_log@,
                *self == (SlidingSyncList {
                    projection: self.projection,
                    diff_log: self.diff_log,
                    ..*old(self)
                }),
            decreases writes@.len() - k,
        {
            let index = writes[k].0;
            let value = writes[k].1.duplicate();
            let logged = writes[k].1.duplicate();
            let ghost prev_log = self.diff_log@;
            let ghost prev_proj = self.projection@;
            self.projection.set(index as usize, value);
            self.diff_log.push(SlidingSyncListRoomsListDiff::SetAt { index, value: logged });
            proof {
                crate::entries::lemma_replay_push(
                    prev_log,
                    SlidingSyncListRoomsListDiff::SetAt { index, value: logged },
                );
                assert(writes@.subrange(0, (k + 1) as int).drop_last() =~= writes@.subrange(
                    0,
                    k as int,
                ));
                assert(writes@.subrange(0, (k + 1) as int).last() == writes@[k as int]);
                assert(self.projection@ == prev_proj.update(index as int, value));
                assert(self.diff_log@.subrange(0, old(self).diff_log@.len() as int)
                    =~= prev_log.subrange(0, old(self).diff_log@.len() as int));
            }
            k = k + 1;
        }
        proof {
            assert(writes@.subrange(0, writes@.len() as int) =~= writes@);
        }
        // Record the reported count and recompute the lifecycle state.
        let same_count = match self.room_count {
            Some(c) => c == count,
            None => false,
        };
        if !same_count {
            self.count_log.push(count);
        }
        self.room_count = Some(count);
        let filled = count_filled(&self.projection);
        let new_state = if filled == count_usize {
            SlidingSyncState::FullyLoaded
        } else {
            SlidingSyncState::PartiallyLoaded
        };
        if self.state != new_state {
            self.state_log.push(new_state);
        }
        self.state = new_state;
        Ok(())
    }
}

/// How many slots of a projection are filled.
fn count_filled(v: &Vec<RoomListEntry>) -> (r: usize)
    ensures
        r as int == spec_num_filled(v@),
{
    let mut r: usize = 0;
    let mut i: usize = 0;
    while i < v.len()
        invariant
            i <= v@.len(),
            r <= i,
            r as int == spec_num_filled(v@.subrange(0, i as int)),
        decreases v@.len() - i,
    {
        let is_filled = match &v[i] {
            RoomListEntry::Filled { .. } => true,
            _ => false,
        };
        proof {
            assert(v@.subrange(0, (i + 1) as int).drop_last() =~= v@.subrange(0, i as int));
            assert(v@.subrange(0, (i + 1) as int).last() == v@[i as int]);
        }
        if is_filled {
            r = r + 1;
        }
        i = i + 1;
    }
    proof {
        assert(v@.subrange(0, v@.len() as int) =~= v@);
    }
    r
}


/// What a consumer at position `pos` of a broadcast log receives over `n`
/// deliveries: one logged item per delivery, in order, until it has caught
/// up with the log.
pub open spec fn spec_stream_read<T>(log: Seq<T>, pos: int, n: nat) -> Seq<T>
    decreases n,
{
    if n == 0 || pos < 0 || pos >= log.len() {
        Seq::empty()
    } else {
        seq![log[pos]] + spec_stream_read(log, pos + 1, (n - 1) as nat)
    }
}

/// Law: each broadcast stream is a pure broadcast.  What a consumer
/// receives over `n` deliveries from position `pos` is exactly the log
/// segment starting at `pos` (clipped at the end of the log), a function
/// of the log and the position alone — so observers attached at the same
/// point receive the identical ordered sequence, however many they are.
pub proof fn lemma_stream_read_is_log_segment<T>(log: Seq<T>, pos: int, n: nat)
    requires
        0 <= pos <= log.len(),
    ensures
        ({
            let end: int = if pos + n <= log.len() {
                pos + n
            } else {
                log.len() as int
            };
            spec_stream_read(log, pos, n) == log.subrange(pos, end)
        }),
    decreases n,
{
    let end: int = if pos + n <= log.len() {
        pos + n
    } else {
        log.len() as int
    };
    if n == 0 || pos >= log.len() {
        assert(log.subrange(pos, end) =~= Seq::<T>::empty());
    } else {
        lemma_stream_read_is_log_segment(log, pos + 1, (n - 1) as nat);
        assert(seq![log[pos]] + log.subrange(pos + 1, end) =~= log.subrange(pos, end));
    }
}

impl SlidingSyncList {
    /// Begin observing the diff stream: a fresh cancellable handle for the
    /// forwarding work, plus a cursor positioned past everything already
    /// broadcast, so exactly the subsequent diffs are delivered.
    pub fn observe_room_list(&self) -> (r: (TaskHandle, StreamCursor))
        ensures
            !r.0.canceled && !r.0.finished && r.0.finalizer is None,
            r.1.pos == self.diff_log@.len(),
    {
        (TaskHandle::new(), StreamCursor { pos: self.diff_log.len() })
    }

    /// Begin observing lifecycle state changes.
    pub fn observe_state(&self) -> (r: (TaskHandle, StreamCursor))
        ensures
            !r.0.canceled && !r.0.finished && r.0.finalizer is None,
            r.1.pos == self.state_log@.len(),
    {
        (TaskHandle::new(), StreamCursor { pos: self.state_log.len() })
    }

    /// Begin observing changes of the matching-room count.
    pub fn observe_rooms_count(&self) -> (r: (TaskHandle, StreamCursor))
        ensures
            !r.0.canceled && !r.0.finished && r.0.finalizer is None,
            r.1.pos == self.count_log@.len(),
    {
        (TaskHandle::new(), StreamCursor { pos: self.count_log.len() })
    }

    /// The next not-yet-delivered diff at this cursor, advancing it; `None`
    /// once the cursor has caught up with everything emitted so far.  What
    /// is delivered is a function of the log and the position alone, so
    /// independent observers receive the identical ordered sequence.
    pub fn next_room_list_diff<'a>(
        &'a self,
        cursor: &mut StreamCursor,
    ) -> (r: Option<&'a SlidingSyncListRoomsListDiff>)
        ensures
            old(cursor).pos < self.diff_log@.len() ==> (r matches Some(d) && *d
                == self.diff_log@[old(cursor).pos as int] && final(cursor).pos == old(
                cursor,
            ).pos + 1),
            old(cursor).pos >= self.diff_log@.len() ==> r is None && *final(cursor) == *old(
                cursor,
            ),
    {
        if cursor.pos < self.diff_log.len() {
            let d = &self.diff_log[cursor.pos];
            cursor.pos = cursor.pos + 1;
            Some(d)
        } else {
            None
        }
    }

    /// The next not-yet-delivered lifecycle state at this cursor.
    pub fn next_state_update(&self, cursor: &mut StreamCursor) -> (r: Option<SlidingSyncState>)
        ensures
            old(cursor).pos < self.state_log@.len() ==> (r == Some(
                self.state_log@[old(cursor).pos as int],
            ) && final(cursor).pos == old(cursor).pos + 1),
            old(cursor).pos >= self.state_log@.len() ==> r is None && *final(cursor) == *old(
                cursor,
            ),
    {
        if cursor.pos < self.state_log.len() {
            let d = self.state_log[cursor.pos];
            cursor.pos = cursor.pos + 1;
            Some(d)
        } else {
            None
        }
    }

    /// The next not-yet-delivered matching-room count at this cursor.
    pub fn next_rooms_count_update(&self, cursor: &mut StreamCursor) -> (r: Option<u32>)
        ensures
            old(cursor).pos < self.count_log@.len() ==> (r == Some(
                self.count_log@[old(cursor).pos as int],
            ) && final(cursor).pos == old(cursor).pos + 1),
            old(cursor).pos >= self.count_log@.len() ==> r is None && *final(cursor) == *old(
                cursor,
            ),
    {
        if cursor.pos < self.count_log.len() {
            let d = self.count_log[cursor.pos];
            cursor.pos = cursor.pos + 1;
            Some(d)
        } else {
            None
        }
    }
}

} // verus!
