use vstd::prelude::*;

use crate::errors::SlidingSyncError;
use crate::list::RequiredState;
use crate::task::TaskHandle;

verus! {

/// Unread counters for one room, derived from the server's values by
/// best-effort numeric coercion: a value that does not fit degrades to
/// zero rather than failing the whole response.
#[derive(Clone, Copy, Debug, PartialEq, Eq, Structural)]
pub struct UnreadNotificationsCount {
    pub highlight_count: u32,
    pub notification_count: u32,
}

/// The best-effort coercion of one server-side counter.
pub open spec fn spec_coerce_count(v: Option<u64>) -> u32 {
    match v {
        Some(n) => if n <= u32::MAX as u64 {
            n as u32
        } else {
            0u32
        },
        None => 0u32,
    }
}

impl UnreadNotificationsCount {
    /// Coerce the counters of one server response.
    pub fn from_server_counts(highlight: Option<u64>, notification: Option<u64>) -> (r: Self)
        ensures
            r.highlight_count == spec_coerce_count(highlight),
            r.notification_count == spec_coerce_count(notification),
    {
        UnreadNotificationsCount {
            highlight_count: coerce_count(highlight),
            notification_count: coerce_count(notification),
        }
    }

    /// How many unread notifications highlight the user.
    pub fn highlight_count(&self) -> (r: u32)
        ensures
            r == self.highlight_count,
    {
        self.highlight_count
    }

    /// How many notifications are unread in total.
    pub fn notification_count(&self) -> (r: u32)
        ensures
            r == self.notification_count,
    {
        self.notification_count
    }

    /// Whether any counter is nonzero.
    pub fn has_notifications(&self) -> (r: bool)
        ensures
            r == (self.notification_count != 0 || self.highlight_count != 0),
    {
        self.notification_count != 0 || self.highlight_count != 0
    }
}

fn coerce_count(v: Option<u64>) -> (r: u32)
    ensures
        r == spec_coerce_count(v),
{
    match v {
        Some(n) => if n <= u32::MAX as u64 {
            n as u32
        } else {
            0
        },
        None => 0,
    }
}

/// A room-scoped request modifier; an absent field means "use the engine's
/// defaults".
pub struct RoomSubscription {
    pub required_state: Option<Vec<RequiredState>>,
    pub timeline_limit: Option<u32>,
}

/// What attaching a timeline listener returns: the current item snapshot,
/// plus the cancellable handle of the forwarding task.
pub struct SlidingSyncSubscribeResult {
    pub items: Vec<String>,
    pub task_handle: TaskHandle,
}

/// One room's worth of a sync response.
pub struct RoomUpdatePayload {
    pub room_id: String,
    pub name: Option<String>,
    pub is_dm: Option<bool>,
    pub is_initial: Option<bool>,
    pub is_loading_more: bool,
    pub highlight_count: Option<u64>,
    pub notification_count: Option<u64>,
}

/// One room's protocol-level state, plus its lazily-created message
/// timeline.  Timeline items are carried as opaque item identifiers: the
/// wider timeline/event model is an external collaborator that turns raw
/// events into displayable items.
pub struct SlidingSyncRoom {
    pub room_id: String,
    pub name: Option<String>,
    pub is_dm: Option<bool>,
    pub is_initial: Option<bool>,
    pub is_loading_more: bool,
    pub unread: UnreadNotificationsCount,
    /// `None` until the first listener attaches and the timeline is built.
    pub timeline: Option<Vec<String>>,
}

/// One room record after one payload, exactly as `from_update` and
/// `apply_update` leave it: every protocol field from the payload, the
/// counters coerced, and the given timeline carried.
pub open spec fn spec_room_updated(
    p: RoomUpdatePayload,
    timeline: Option<Vec<String>>,
    post: SlidingSyncRoom,
) -> bool {
    &&& post.room_id == p.room_id
    &&& post.name == p.name
    &&& post.is_dm == p.is_dm
    &&& post.is_initial == p.is_initial
    &&& post.is_loading_more == p.is_loading_more
    &&& post.unread.highlight_count == spec_coerce_count(p.highlight_count)
    &&& post.unread.notification_count == spec_coerce_count(p.notification_count)
    &&& post.timeline == timeline
}

/// One room record after a whole response's room payloads are applied in
/// order: each payload carrying the room's id overwrites the protocol
/// fields and keeps the timeline; the others leave it alone.
pub open spec fn spec_room_after(
    pre: SlidingSyncRoom,
    ps: Seq<RoomUpdatePayload>,
) -> SlidingSyncRoom
    decreases ps.len(),
{
    if ps.len() == 0 {
        pre
    } else {
        let prior = spec_room_after(pre, ps.drop_last());
        if ps.last().room_id@ == pre.room_id@ {
            SlidingSyncRoom {
                room_id: ps.last().room_id,
                name: ps.last().name,
                is_dm: ps.last().is_dm,
                is_initial: ps.last().is_initial,
                is_loading_more: ps.last().is_loading_more,
                unread: UnreadNotificationsCount {
                    highlight_count: spec_coerce_count(ps.last().highlight_count),
                    notification_count: spec_coerce_count(ps.last().notification_count),
                },
                timeline: prior.timeline,
            }
        } else {
            prior
        }
    }
}

/// Law: a room that no payload of the response names is left exactly as
/// it was.
pub proof fn lemma_room_after_unnamed(pre: SlidingSyncRoom, ps: Seq<RoomUpdatePayload>)
    requires
        forall|i: int| 0 <= i < ps.len() ==> (#[trigger] ps[i]).room_id@ != pre.room_id@,
    ensures
        spec_room_after(pre, ps) == pre,
    decreases ps.len(),
{
    if ps.len() > 0 {
        lemma_room_after_unnamed(pre, ps.drop_last());
    }
}

/// Law: a room that exactly one payload of the response names ends
/// exactly as that payload specifies, its timeline kept.
pub proof fn lemma_room_after_sole(pre: SlidingSyncRoom, ps: Seq<RoomUpdatePayload>, i: int)
    requires
        0 <= i < ps.len(),
        ps[i].room_id@ == pre.room_id@,
        forall|i2: int|
            0 <= i2 < ps.len() && i2 != i ==> (#[trigger] ps[i2]).room_id@ != pre.room_id@,
    ensures
        spec_room_updated(ps[i], pre.timeline, spec_room_after(pre, ps)),
    decreases ps.len(),
{
    if i == ps.len() - 1 {
        lemma_room_after_unnamed(pre, ps.drop_last());
    } else {
        lemma_room_after_sole(pre, ps.drop_last(), i);
        assert(ps.drop_last()[i] == ps[i]);
    }
}

impl SlidingSyncRoom {
    /// A fresh room view built from one response payload, with no timeline
    /// yet.
    pub fn from_update(payload: &RoomUpdatePayload) -> (r: Self)
        ensures
            spec_room_updated(*payload, None, r),
    {
        SlidingSyncRoom {
            room_id: payload.room_id.clone(),
            name: (match &payload.name {
                Some(s) => Some(s.clone()),
                None => None,
            }),
            is_dm: payload.is_dm,
            is_initial: payload.is_initial,
            is_loading_more: payload.is_loading_more,
            unread: UnreadNotificationsCount::from_server_counts(
                payload.highlight_count,
                payload.notification_count,
            ),
            timeline: None,
        }
    }

    /// Apply one response payload to this room view, keeping the
    /// already-built timeline.
    pub fn apply_update(&mut self, payload: &RoomUpdatePayload)
        ensures
            spec_room_updated(*payload, old(self).timeline, *final(self)),
    {
        self.room_id = payload.room_id.clone();
        self.name = match &payload.name {
            Some(s) => Some(s.clone()),
            None => None,
        };
        self.is_dm = payload.is_dm;
        self.is_initial = payload.is_initial;
        self.is_loading_more = payload.is_loading_more;
        self.unread = UnreadNotificationsCount::from_server_counts(
            payload.highlight_count,
            payload.notification_count,
        );
    }

    /// The room's display name, if the server reported one.
    pub fn name(&self) -> (r: Option<String>)
        ensures
            r == self.name,
    {
        match &self.name {
            Some(s) => Some(s.clone()),
            None => None,
        }
    }

    /// The room's id.
    pub fn room_id(&self) -> (r: String)
        ensures
            r == self.room_id,
    {
        self.room_id.clone()
    }

    /// Whether the room is a direct message, if known.
    pub fn is_dm(&self) -> (r: Option<bool>)
        ensures
            r == self.is_dm,
    {
        self.is_dm
    }

    /// Whether this is the room's initial response, if known.
    pub fn is_initial(&self) -> (r: Option<bool>)
        ensures
            r == self.is_initial,
    {
        self.is_initial
    }

    /// Whether more of the room's history is still being loaded.
    pub fn is_loading_more(&self) -> (r: bool)
        ensures
            r == self.is_loading_more,
    {
        self.is_loading_more
    }

    /// Whether the room has any unread notification.
    pub fn has_unread_notifications(&self) -> (r: bool)
        ensures
            r == (self.unread.notification_count != 0 || self.unread.highlight_count != 0),
    {
        self.unread.has_notifications()
    }

    /// A copy of the room's unread counters.
    pub fn unread_notifications(&self) -> (r: UnreadNotificationsCount)
        ensures
            r == self.unread,
    {
        UnreadNotificationsCount {
            highlight_count: self.unread.highlight_count,
            notification_count: self.unread.notification_count,
        }
    }

    /// Attach a timeline listener to this room.
    ///
    /// The first call installs the timeline the session resolved
    /// (`resolved_timeline`); later calls reuse the existing one, so the
    /// timeline is created at most once per room view.  Fails without
    /// effect when no timeline exists yet and the session could not
    /// resolve one (the room is unknown).  The returned handle carries the
    /// forwarding work and has no finalizer of its own.
    pub fn add_timeline_listener(&mut self, resolved_timeline: Option<Vec<String>>) -> (r:
        Result<SlidingSyncSubscribeResult, SlidingSyncError>)
        ensures
            old(self).timeline matches Some(items) ==> (r matches Ok(res) && res.items@
                == items@ && !res.task_handle.canceled && !res.task_handle.finished
                && res.task_handle.finalizer is None && *final(self) == *old(self)),
            old(self).timeline is None ==> (resolved_timeline matches Some(items) ==> (
            r matches Ok(res) && res.items@ == items@ && !res.task_handle.canceled
                && !res.task_handle.finished && res.task_handle.finalizer is None && *final(self)
                == (SlidingSyncRoom { timeline: resolved_timeline, ..*old(self) }))),
            old(self).timeline is None && resolved_timeline is None ==> (r matches Err(e)
                && e is Unknown && *final(self) == *old(self)),
    {
        match &self.timeline {
            Some(items) => Ok(SlidingSyncSubscribeResult {
                items: duplicate_strings(items),
                task_handle: TaskHandle::new(),
            }),
            None => match resolved_timeline {
                Some(items) => {
                    let snapshot = duplicate_strings(&items);
                    self.timeline = Some(items);
                    Ok(SlidingSyncSubscribeResult {
                        items: snapshot,
                        task_handle: TaskHandle::new(),
                    })
                },
                None => Err(SlidingSyncError::Unknown {
                    error: "cannot attach a timeline listener: the room is not known".to_owned(),
                }),
            },
        }
    }

    /// React to one signal of the fan-in task that feeds this room's
    /// listener: content diffs are handed to the listener, one at a time;
    /// every other signal clears the timeline so the items are rebuilt
    /// from scratch.
    pub fn apply_timeline_signal(&mut self, signal: TimelineSignal) -> (r: TimelineSignalAction)
        ensures
            signal is ContentDiff ==> r is ForwardToListener && *final(self) == *old(self),
            !(signal is ContentDiff) ==> (r is ClearTimeline && (old(self).timeline is Some
                ==> (final(self).timeline matches Some(t) && t@ == Seq::<String>::empty()))
                && (old(self).timeline is None ==> final(self).timeline is None) && *final(self)
                == (SlidingSyncRoom { timeline: final(self).timeline, ..*old(self) })),
    {
        match signal {
            TimelineSignal::ContentDiff => TimelineSignalAction::ForwardToListener,
            _ => {
                if self.timeline.is_some() {
                    self.timeline = Some(Vec::new());
                }
                TimelineSignalAction::ClearTimeline
            },
        }
    }
}

/// One signal observed by the fan-in task that feeds a room's listener.
/// All four sources run concurrently under one cancellation scope:
/// canceling the task returned when the listener was attached stops all of
/// them together.
#[derive(Clone, Copy, Debug, PartialEq, Eq, Structural)]
pub enum TimelineSignal {
    /// The timeline produced a content diff for the listener.
    ContentDiff,
    /// The process-wide full-resync broadcast fired.
    FullResyncRequested,
    /// The server indicated missing history for this room.
    GapDetected,
    /// The ignored-user list changed, affecting which events are visible.
    IgnoredUsersChanged,
}

/// What the fan-in task does with one signal.
#[derive(Clone, Copy, Debug, PartialEq, Eq, Structural)]
pub enum TimelineSignalAction {
    /// Hand the content diff to the caller's listener, off the producing
    /// thread.
    ForwardToListener,
    /// Clear the timeline so it is rebuilt from scratch.
    ClearTimeline,
}

/// An exact copy of a list of item identifiers.
pub fn duplicate_strings(v: &Vec<String>) -> (r: Vec<String>)
    ensures
        r@ == v@,
{
    let mut out: Vec<String> = Vec::new();
    let mut i: usize = 0;
    while i < v.len()
        invariant
            i <= v@.len(),
            out@ == v@.subrange(0, i as int),
        decreases v@.len() - i,
    {
        out.push(v[i].clone());
        proof {
            assert(out@ =~= v@.subrange(0, i + 1 as int));
        }
        i = i + 1;
    }
    proof {
        assert(out@ =~= v@);
    }
    out
}


impl SlidingSyncRoom {
    /// A point-in-time copy of this room view.  Multiple callers may hold
    /// such views of the same room concurrently; none can destroy the
    /// engine's state through one.
    pub fn duplicate(&self) -> (r: Self)
        ensures
            spec_room_equiv(r, *self),
    {
        SlidingSyncRoom {
            room_id: self.room_id.clone(),
            name: (match &self.name {
                Some(s) => Some(s.clone()),
                None => None,
            }),
            is_dm: self.is_dm,
            is_initial: self.is_initial,
            is_loading_more: self.is_loading_more,
            unread: UnreadNotificationsCount {
                highlight_count: self.unread.highlight_count,
                notification_count: self.unread.notification_count,
            },
            timeline: (match &self.timeline {
                Some(items) => Some(duplicate_strings(items)),
                None => None,
            }),
        }
    }
}

/// Field-wise equality of two room views, the timeline compared by
/// content.
pub open spec fn spec_room_equiv(a: SlidingSyncRoom, b: SlidingSyncRoom) -> bool {
    &&& a.room_id == b.room_id
    &&& a.name == b.name
    &&& a.is_dm == b.is_dm
    &&& a.is_initial == b.is_initial
    &&& a.is_loading_more == b.is_loading_more
    &&& a.unread == b.unread
    &&& (a.timeline is Some <==> b.timeline is Some)
    &&& (a.timeline matches Some(t) ==> (b.timeline matches Some(u) && t@ == u@))
}

} // verus!
