use vstd::prelude::*;
use vstd::pervasive::VecAdditionalExecFns;

use crate::errors::SlidingSyncError;

verus! {

/// One slot of a list's ordered projection.
///
/// The projection is an array indexed by position: the position is assigned
/// by the protocol, never computed locally.
#[derive(Clone, Debug, PartialEq, Eq)]
pub enum RoomListEntry {
    /// The slot has not been loaded yet.
    Empty,
    /// The slot was loaded once; the server has since marked it stale, but
    /// the last known room id is kept.
    Invalidated { room_id: String },
    /// The current authoritative room id at this position.
    Filled { room_id: String },
}

impl RoomListEntry {
    /// An exact copy of this entry.
    pub fn duplicate(&self) -> (r: Self)
        ensures
            r == *self,
    {
        match self {
            RoomListEntry::Empty => RoomListEntry::Empty,
            RoomListEntry::Invalidated { room_id } => RoomListEntry::Invalidated {
                room_id: room_id.clone(),
            },
            RoomListEntry::Filled { room_id } => RoomListEntry::Filled {
                room_id: room_id.clone(),
            },
        }
    }

    /// True of the slots that count as loaded: `Filled` only.
    pub open spec fn is_loaded(self) -> bool {
        self is Filled
    }
}

/// The diff algebra over an ordered room-list projection.
///
/// Every operation but `Reset` applies incrementally, in order, one diff at
/// a time.  `Reset` signals that the producing stream dropped intermediate
/// updates: the consumer's replica is to be discarded and replaced wholesale
/// by the carried values.
#[derive(Clone, Debug, PartialEq, Eq)]
pub enum SlidingSyncListRoomsListDiff {
    Append { values: Vec<RoomListEntry> },
    Insert { index: u32, value: RoomListEntry },
    SetAt { index: u32, value: RoomListEntry },
    Remove { index: u32 },
    PushBack { value: RoomListEntry },
    PushFront { value: RoomListEntry },
    PopBack,
    PopFront,
    Clear,
    Reset { values: Vec<RoomListEntry> },
}

/// The meaning of one diff: the new projection, or `None` where the diff
/// does not apply (an index out of bounds, or a pop from an empty
/// projection).  A diff that does not apply is treated as a protocol
/// violation to be reported, never as a silent no-op.
pub open spec fn spec_apply_diff(
    p: Seq<RoomListEntry>,
    d: SlidingSyncListRoomsListDiff,
) -> Option<Seq<RoomListEntry>> {
    match d {
        SlidingSyncListRoomsListDiff::Append { values } => Some(p + values@),
        SlidingSyncListRoomsListDiff::Insert { index, value } => if index as int <= p.len() {
            Some(p.insert(index as int, value))
        } else {
            None
        },
        SlidingSyncListRoomsListDiff::SetAt { index, value } => if (index as int) < p.len() {
            Some(p.update(index as int, value))
        } else {
            None
        },
        SlidingSyncListRoomsListDiff::Remove { index } => if (index as int) < p.len() {
            Some(p.remove(index as int))
        } else {
            None
        },
        SlidingSyncListRoomsListDiff::PushBack { value } => Some(p.push(value)),
        SlidingSyncListRoomsListDiff::PushFront { value } => Some(p.insert(0, value)),
        SlidingSyncListRoomsListDiff::PopBack => if p.len() > 0 {
            Some(p.drop_last())
        } else {
            None
        },
        SlidingSyncListRoomsListDiff::PopFront => if p.len() > 0 {
            Some(p.subrange(1, p.len() as int))
        } else {
            None
        },
        SlidingSyncListRoomsListDiff::Clear => Some(Seq::empty()),
        SlidingSyncListRoomsListDiff::Reset { values } => Some(values@),
    }
}

impl SlidingSyncListRoomsListDiff {
    /// Apply this diff to a projection in place.
    ///
    /// Returns `Err` with a bad-response error exactly when the diff does
    /// not apply; the projection is then left unchanged.
    pub fn apply(self, projection: &mut Vec<RoomListEntry>) -> (r: Result<(), SlidingSyncError>)
        ensures
            spec_apply_diff(old(projection)@, self) matches Some(q) ==> r is Ok
                && final(projection)@ == q,
            spec_apply_diff(old(projection)@, self) is None ==> (r matches Err(e)
                && e is BadResponse && final(projection)@ == old(projection)@),
    {
        match self {
            SlidingSyncListRoomsListDiff::Append { mut values } => {
                projection.append(&mut values);
                Ok(())
            },
            SlidingSyncListRoomsListDiff::Insert { index, value } => {
                if index as usize <= projection.len() {
                    projection.insert(index as usize, value);
                    Ok(())
                } else {
                    Err(diff_out_of_bounds())
                }
            },
            SlidingSyncListRoomsListDiff::SetAt { index, value } => {
                if (index as usize) < projection.len() {
                    projection.set(index as usize, value);
                    Ok(())
                } else {
                    Err(diff_out_of_bounds())
                }
            },
            SlidingSyncListRoomsListDiff::Remove { index } => {
                if (index as usize) < projection.len() {
                    projection.remove(index as usize);
                    Ok(())
                } else {
                    Err(diff_out_of_bounds())
                }
            },
            SlidingSyncListRoomsListDiff::PushBack { value } => {
                projection.push(value);
                Ok(())
            },
            SlidingSyncListRoomsListDiff::PushFront { value } => {
                projection.insert(0, value);
                Ok(())
            },
            SlidingSyncListRoomsListDiff::PopBack => {
                if projection.len() > 0 {
                    projection.pop();
                    proof {
                        assert(projection@ =~= old(projection)@.drop_last());
                    }
                    Ok(())
                } else {
                    Err(diff_out_of_bounds())
                }
            },
            SlidingSyncListRoomsListDiff::PopFront => {
                if projection.len() > 0 {
                    projection.remove(0);
                    proof {
                        assert(projection@ =~= old(projection)@.subrange(
                            1,
                            old(projection)@.len() as int,
                        ));
                    }
                    Ok(())
                } else {
                    Err(diff_out_of_bounds())
                }
            },
            SlidingSyncListRoomsListDiff::Clear => {
                projection.clear();
                Ok(())
            },
            SlidingSyncListRoomsListDiff::Reset { values } => {
                *projection = values;
                Ok(())
            },
        }
    }
}

/// The error reported when a diff's index falls outside the projection or a
/// pop meets an empty projection.
fn diff_out_of_bounds() -> (r: SlidingSyncError)
    ensures
        r is BadResponse,
{
    SlidingSyncError::BadResponse {
        msg: "list diff does not apply to the current projection".to_owned(),
    }
}

/// Replaying a log of diffs from the empty projection: the projection a
/// consumer holds after applying every logged diff in order.
pub open spec fn spec_replay(log: Seq<SlidingSyncListRoomsListDiff>) -> Option<Seq<RoomListEntry>>
    decreases log.len(),
{
    if log.len() == 0 {
        Some(Seq::empty())
    } else {
        match spec_replay(log.drop_last()) {
            Some(p) => spec_apply_diff(p, log.last()),
            None => None,
        }
    }
}

/// Appending one diff to a log extends the replay by one application.
pub proof fn lemma_replay_push(log: Seq<SlidingSyncListRoomsListDiff>, d: SlidingSyncListRoomsListDiff)
    ensures
        spec_replay(log.push(d)) == (match spec_replay(log) {
            Some(p) => spec_apply_diff(p, d),
            None => None,
        }),
{
    assert(log.push(d).drop_last() =~= log);
    assert(log.push(d).last() == d);
}

/// Law: a `Reset` diff replaces any prior projection with exactly the
/// carried values, regardless of the prior content.
pub proof fn lemma_reset_replaces(p: Seq<RoomListEntry>, values: Vec<RoomListEntry>)
    ensures
        spec_apply_diff(p, SlidingSyncListRoomsListDiff::Reset { values }) == Some(values@),
{
}

/// Law: each incremental diff reproduces the standard sequence operation on
/// the projection, and fails exactly on an out-of-bounds index or a pop from
/// an empty projection.
pub proof fn lemma_incremental_diff_semantics(
    p: Seq<RoomListEntry>,
    index: u32,
    value: RoomListEntry,
    values: Vec<RoomListEntry>,
)
    ensures
        spec_apply_diff(p, SlidingSyncListRoomsListDiff::Append { values }) == Some(p + values@),
        index as int <= p.len() ==> spec_apply_diff(
            p,
            SlidingSyncListRoomsListDiff::Insert { index, value },
        ) == Some(p.insert(index as int, value)),
        index as int > p.len() ==> spec_apply_diff(
            p,
            SlidingSyncListRoomsListDiff::Insert { index, value },
        ) is None,
        (index as int) < p.len() ==> spec_apply_diff(
            p,
            SlidingSyncListRoomsListDiff::SetAt { index, value },
        ) == Some(p.update(index as int, value)),
        index as int >= p.len() ==> spec_apply_diff(
            p,
            SlidingSyncListRoomsListDiff::SetAt { index, value },
        ) is None,
        (index as int) < p.len() ==> spec_apply_diff(
            p,
            SlidingSyncListRoomsListDiff::Remove { index },
        ) == Some(p.remove(index as int)),
        index as int >= p.len() ==> spec_apply_diff(
            p,
            SlidingSyncListRoomsListDiff::Remove { index },
        ) is None,
        spec_apply_diff(p, SlidingSyncListRoomsListDiff::PushBack { value }) == Some(p.push(value)),
        spec_apply_diff(p, SlidingSyncListRoomsListDiff::PushFront { value }) == Some(
            p.insert(0, value),
        ),
        p.len() > 0 ==> spec_apply_diff(p, SlidingSyncListRoomsListDiff::PopBack) == Some(
            p.drop_last(),
        ),
        p.len() == 0 ==> spec_apply_diff(p, SlidingSyncListRoomsListDiff::PopBack) is None,
        p.len() > 0 ==> spec_apply_diff(p, SlidingSyncListRoomsListDiff::PopFront) == Some(
            p.subrange(1, p.len() as int),
        ),
        p.len() == 0 ==> spec_apply_diff(p, SlidingSyncListRoomsListDiff::PopFront) is None,
        spec_apply_diff(p, SlidingSyncListRoomsListDiff::Clear) == Some(
            Seq::<RoomListEntry>::empty(),
        ),
{
}

} // verus!
