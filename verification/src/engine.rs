use vstd::prelude::*;

use crate::entries::RoomListEntry;
use crate::errors::SlidingSyncError;
use crate::list::{
    spec_list_updated, spec_next_position, spec_next_ranges, spec_writes_in_range,
    SlidingSyncList, SlidingSyncState, SyncRange,
};
use crate::room::{
    spec_room_after, spec_room_equiv, spec_room_updated, RoomSubscription, RoomUpdatePayload,
    SlidingSyncRoom, SlidingSyncSubscribeResult,
};
use crate::task::{spec_cancel, FinalizerAction, TaskHandle};

verus! {

/// Which named lists and which rooms changed in the most recent response
/// cycle.  A change notification, not a diff: consumers re-read current
/// state through the owning list or room.
#[derive(Clone, Debug, PartialEq, Eq)]
pub struct UpdateSummary {
    pub lists: Vec<String>,
    pub rooms: Vec<String>,
}

/// Which protocol extensions the engine requests.
#[derive(Clone, Copy, PartialEq, Eq, Structural, Debug)]
pub struct ExtensionConfig {
    pub to_device: bool,
    pub e2ee: bool,
    pub account_data: bool,
    pub receipt: bool,
    pub typing: bool,
}

impl ExtensionConfig {
    /// No extension requested.
    pub fn none() -> (r: ExtensionConfig)
        ensures
            r == (ExtensionConfig {
                to_device: false,
                e2ee: false,
                account_data: false,
                receipt: false,
                typing: false,
            }),
    {
        ExtensionConfig {
            to_device: false,
            e2ee: false,
            account_data: false,
            receipt: false,
            typing: false,
        }
    }

    /// The common extensions: to-device messages, end-to-end encryption,
    /// and account data.
    pub fn with_common(self) -> (r: ExtensionConfig)
        ensures
            r == (ExtensionConfig { to_device: true, e2ee: true, account_data: true, ..self }),
    {
        ExtensionConfig { to_device: true, e2ee: true, account_data: true, ..self }
    }
}

/// The sliding sync engine: it owns the set of named lists, the room
/// subscription set, and the per-room state handed back by responses, and
/// it drives the request/response loop.
pub struct SlidingSync {
    pub homeserver: Option<String>,
    pub storage_key: Option<String>,
    pub lists: Vec<SlidingSyncList>,
    pub subscriptions: Vec<(String, Option<RoomSubscription>)>,
    pub rooms: Vec<SlidingSyncRoom>,
    pub extensions: ExtensionConfig,
}

impl SlidingSync {
    /// The engine's internal consistency: every list is well formed, and
    /// lists, subscriptions and rooms are each keyed uniquely.
    pub open spec fn wf(self) -> bool {
        &&& forall|i: int| 0 <= i < self.lists@.len() ==> (#[trigger] self.lists@[i]).wf()
        &&& forall|i: int, j: int|
            #![trigger self.lists@[i], self.lists@[j]]
            0 <= i < j < self.lists@.len() ==> self.lists@[i].name@ != self.lists@[j].name@
        &&& forall|i: int, j: int|
            #![trigger self.subscriptions@[i], self.subscriptions@[j]]
            0 <= i < j < self.subscriptions@.len() ==> self.subscriptions@[i].0@
                != self.subscriptions@[j].0@
        &&& forall|i: int, j: int|
            #![trigger self.rooms@[i], self.rooms@[j]]
            0 <= i < j < self.rooms@.len() ==> self.rooms@[i].room_id@ != self.rooms@[j].room_id@
    }

    /// Look up a list by name.
    pub fn get_list(&self, name: &String) -> (r: Option<&SlidingSyncList>)
        ensures
            r matches Some(l) ==> (exists|i: int|
                0 <= i < self.lists@.len() && #[trigger] self.lists@[i] == *l) && l.name@
                == name@,
            r is None ==> forall|i: int|
                0 <= i < self.lists@.len() ==> (#[trigger] self.lists@[i]).name@ != name@,
    {
        match find_list_index(&self.lists, name) {
            Some(i) => Some(&self.lists[i]),
            None => None,
        }
    }

    /// Install a list under its name.  A list already registered under the
    /// same name is replaced atomically and returned, still valid on its
    /// own, just detached from the engine; the next request cycle reflects
    /// only the replacement's configuration.
    pub fn add_list(&mut self, list: SlidingSyncList) -> (r: Option<SlidingSyncList>)
        requires
            old(self).wf(),
            list.wf(),
        ensures
            final(self).wf(),
            *final(self) == (SlidingSync { lists: final(self).lists, ..*old(self) }),
            (exists|i: int|
                0 <= i < old(self).lists@.len() && (#[trigger] old(self).lists@[i]).name@
                    == list.name@) ==> ({
                let i = choose|i: int|
                    0 <= i < old(self).lists@.len() && (#[trigger] old(self).lists@[i]).name@
                        == list.name@;
                r == Some(old(self).lists@[i]) && final(self).lists@ == old(self).lists@.update(
                    i,
                    list,
                )
            }),
            (forall|i: int|
                0 <= i < old(self).lists@.len() ==> (#[trigger] old(self).lists@[i]).name@
                    != list.name@) ==> r is None && final(self).lists@ == old(self).lists@.push(
                list,
            ),
    {
        match find_list_index(&self.lists, &list.name) {
            Some(i) => {
                let previous = self.lists.remove(i);
                self.lists.insert(i, list);
                proof {
                    assert(self.lists@ =~= old(self).lists@.update(i as int, list));
                    let c = choose|c: int|
                        0 <= c < old(self).lists@.len() && (#[trigger] old(self).lists@[c]).name@
                            == previous.name@;
                    assert(c == i as int);
                }
                Some(previous)
            },
            None => {
                self.lists.push(list);
                None
            },
        }
    }

    /// Remove the list registered under this name and hand it back.
    pub fn pop_list(&mut self, name: &String) -> (r: Option<SlidingSyncList>)
        requires
            old(self).wf(),
        ensures
            final(self).wf(),
            *final(self) == (SlidingSync { lists: final(self).lists, ..*old(self) }),
            (exists|i: int|
                0 <= i < old(self).lists@.len() && (#[trigger] old(self).lists@[i]).name@
                    == name@) ==> ({
                let i = choose|i: int|
                    0 <= i < old(self).lists@.len() && (#[trigger] old(self).lists@[i]).name@
                        == name@;
                r == Some(old(self).lists@[i]) && final(self).lists@ == old(self).lists@.remove(i)
            }),
            (forall|i: int|
                0 <= i < old(self).lists@.len() ==> (#[trigger] old(self).lists@[i]).name@
                    != name@) ==> r is None && *final(self) == *old(self),
    {
        match find_list_index(&self.lists, name) {
            Some(i) => {
                let previous = self.lists.remove(i);
                proof {
                    let c = choose|c: int|
                        0 <= c < old(self).lists@.len() && (#[trigger] old(self).lists@[c]).name@
                            == name@;
                    assert(c == i as int);
                }
                Some(previous)
            },
            None => None,
        }
    }

    /// Record a room subscription; effective on the next request.  A
    /// subscription already present for the room is replaced.
    pub fn subscribe(&mut self, room_id: String, settings: Option<RoomSubscription>)
        requires
            old(self).wf(),
        ensures
            final(self).wf(),
            *final(self) == (SlidingSync {
                subscriptions: final(self).subscriptions,
                ..*old(self)
            }),
            (exists|i: int|
                0 <= i < old(self).subscriptions@.len() && (#[trigger] old(self).subscriptions@[i]).0@ == room_id@) ==> ({
                let i = choose|i: int|
                    0 <= i < old(self).subscriptions@.len() && (#[trigger] old(self).subscriptions@[i]).0@ == room_id@;
                final(self).subscriptions@ == old(self).subscriptions@.update(
                    i,
                    (room_id, settings),
                )
            }),
            (forall|i: int|
                0 <= i < old(self).subscriptions@.len() ==> (#[trigger] old(self).subscriptions@[i]).0@ != room_id@) ==> final(self).subscriptions@ == old(self).subscriptions@.push((room_id, settings)),
            exists|i: int|
                0 <= i < final(self).subscriptions@.len() && #[trigger] final(self).subscriptions@[i] == (room_id, settings),
    {
        match find_subscription_index(&self.subscriptions, &room_id) {
            Some(i) => {
                self.subscriptions.remove(i);
                self.subscriptions.insert(i, (room_id, settings));
                proof {
                    assert(self.subscriptions@ =~= old(self).subscriptions@.update(
                        i as int,
                        (self.subscriptions@[i as int].0, self.subscriptions@[i as int].1),
                    ));
                    let c = choose|c: int|
                        0 <= c < old(self).subscriptions@.len() && (#[trigger] old(self).subscriptions@[c]).0@ == self.subscriptions@[i as int].0@;
                    assert(c == i as int);
                    assert(final(self).subscriptions@[i as int] == (room_id, settings));
                }
            },
            None => {
                self.subscriptions.push((room_id, settings));
                proof {
                    assert(final(self).subscriptions@[final(self).subscriptions@.len() - 1]
                        == (room_id, settings));
                }
            },
        }
    }

    /// Drop the subscription recorded for this room, if any; effective on
    /// the next request.
    pub fn unsubscribe(&mut self, room_id: &String)
        requires
            old(self).wf(),
        ensures
            final(self).wf(),
            *final(self) == (SlidingSync {
                subscriptions: final(self).subscriptions,
                ..*old(self)
            }),
            (exists|i: int|
                0 <= i < old(self).subscriptions@.len() && (#[trigger] old(self).subscriptions@[i]).0@ == room_id@) ==> ({
                let i = choose|i: int|
                    0 <= i < old(self).subscriptions@.len() && (#[trigger] old(self).subscriptions@[i]).0@ == room_id@;
                final(self).subscriptions@ == old(self).subscriptions@.remove(i)
            }),
            (forall|i: int|
                0 <= i < old(self).subscriptions@.len() ==> (#[trigger] old(self).subscriptions@[i]).0@ != room_id@) ==> *final(self) == *old(self),
            forall|i: int|
                0 <= i < final(self).subscriptions@.len() ==> (#[trigger] final(self).subscriptions@[i]).0@ != room_id@,
    {
        match find_subscription_index(&self.subscriptions, room_id) {
            Some(i) => {
                self.subscriptions.remove(i);
                proof {
                    let c = choose|c: int|
                        0 <= c < old(self).subscriptions@.len() && (#[trigger] old(self).subscriptions@[c]).0@ == room_id@;
                    assert(c == i as int);
                }
            },
            None => {},
        }
    }

    /// Force every list back to not-yet-loaded, ranges preserved, so the
    /// next cycle does a full resync without reconstructing list objects.
    pub fn reset_lists(&mut self)
        requires
            old(self).wf(),
        ensures
            final(self).wf(),
            *final(self) == (SlidingSync { lists: final(self).lists, ..*old(self) }),
            final(self).lists@.len() == old(self).lists@.len(),
            forall|i: int|
                0 <= i < final(self).lists@.len() ==> (#[trigger] final(self).lists@[i]) == (
                SlidingSyncList {
                    state: SlidingSyncState::NotLoaded,
                    generator_position: None,
                    state_log: final(self).lists@[i].state_log,
                    ..old(self).lists@[i]
                }) && final(self).lists@[i].state_log@ == (if old(self).lists@[i].state
                is NotLoaded {
                old(self).lists@[i].state_log@
            } else {
                old(self).lists@[i].state_log@.push(SlidingSyncState::NotLoaded)
            }),
    {
        let n = self.lists.len();
        let mut i: usize = 0;
        while i < n
            invariant
                n == self.lists@.len(),
                i <= n,
                old(self).wf(),
                *self == (SlidingSync { lists: self.lists, ..*old(self) }),
                self.lists@.len() == old(self).lists@.len(),
                forall|j: int|
                    i <= j < n ==> #[trigger] self.lists@[j] == old(self).lists@[j],
                forall|j: int|
                    0 <= j < i ==> (#[trigger] self.lists@[j]) == (SlidingSyncList {
                        state: SlidingSyncState::NotLoaded,
                        generator_position: None,
                        state_log: self.lists@[j].state_log,
                        ..old(self).lists@[j]
                    }) && self.lists@[j].state_log@ == (if old(self).lists@[j].state
                        is NotLoaded {
                        old(self).lists@[j].state_log@
                    } else {
                        old(self).lists@[j].state_log@.push(SlidingSyncState::NotLoaded)
                    }) && self.lists@[j].wf(),
            decreases n - i,
        {
            let ghost prev = self.lists@;
            let mut l = self.lists.remove(i);
            l.reset();
            self.lists.insert(i, l);
            proof {
                assert(self.lists@ =~= prev.update(i as int, self.lists@[i as int]));
            }
            i = i + 1;
        }
    }

    /// Request the common protocol extensions from now on.
    pub fn add_common_extensions(&mut self)
        ensures
            *final(self) == (SlidingSync {
                extensions: (ExtensionConfig {
                    to_device: true,
                    e2ee: true,
                    account_data: true,
                    ..old(self).extensions
                }),
                ..*old(self)
            }),
    {
        let updated = self.extensions.with_common();
        self.extensions = updated;
    }
}

/// The index of the list registered under `name`, if any.
pub(crate) fn find_list_index(lists: &Vec<SlidingSyncList>, name: &String) -> (r: Option<usize>)
    ensures
        r matches Some(i) ==> i < lists@.len() && lists@[i as int].name@ == name@,
        r is None ==> forall|j: int|
            0 <= j < lists@.len() ==> (#[trigger] lists@[j]).name@ != name@,
{
    let mut i: usize = 0;
    while i < lists.len()
        invariant
            i <= lists@.len(),
            forall|j: int| 0 <= j < i ==> (#[trigger] lists@[j]).name@ != name@,
        decreases lists@.len() - i,
    {
        if lists[i].name == *name {
            return Some(i);
        }
        i = i + 1;
    }
    None
}

/// The index of the subscription recorded for `room_id`, if any.
fn find_subscription_index(
    subscriptions: &Vec<(String, Option<RoomSubscription>)>,
    room_id: &String,
) -> (r: Option<usize>)
    ensures
        r matches Some(i) ==> i < subscriptions@.len() && subscriptions@[i as int].0@ == room_id@,
        r is None ==> forall|j: int|
            0 <= j < subscriptions@.len() ==> (#[trigger] subscriptions@[j]).0@ != room_id@,
{
    let mut i: usize = 0;
    while i < subscriptions.len()
        invariant
            i <= subscriptions@.len(),
            forall|j: int| 0 <= j < i ==> (#[trigger] subscriptions@[j]).0@ != room_id@,
        decreases subscriptions@.len() - i,
    {
        if subscriptions[i].0 == *room_id {
            return Some(i);
        }
        i = i + 1;
    }
    None
}


/// What one request cycle asks for, for one list.  Requests are typed
/// values: the exact wire encoding is out of scope.
pub struct ListRequest {
    pub name: String,
    pub ranges: Vec<SyncRange>,
    pub timeline_limit: Option<u32>,
}

/// One request of the engine's loop: every list's current window, the ids
/// of the subscribed rooms, and the extension set.
pub struct SyncRequest {
    pub lists: Vec<ListRequest>,
    pub room_subscriptions: Vec<String>,
    pub extensions: ExtensionConfig,
}

/// One list's worth of a sync response: the reported total of matching
/// rooms and positional entry writes.
pub struct ListUpdatePayload {
    pub name: String,
    pub count: u32,
    pub writes: Vec<(u32, RoomListEntry)>,
}

/// One typed response of the engine's loop.
pub struct SyncResponse {
    pub lists: Vec<ListUpdatePayload>,
    pub rooms: Vec<RoomUpdatePayload>,
}

/// True when this list update can be applied to the engine: the named
/// list exists, its generator has produced a request, and every write
/// stays below the reported count.
pub open spec fn spec_list_update_ok(e: SlidingSync, p: ListUpdatePayload) -> bool {
    &&& exists|j: int|
        0 <= j < e.lists@.len() && (#[trigger] e.lists@[j]).name@ == p.name@
            && e.lists@[j].generator_position is Some
    &&& spec_writes_in_range(p.writes@, p.count)
}

/// True when some payload of a response's list part carries this name.
pub open spec fn spec_response_names_list(lists: Seq<ListUpdatePayload>, name: Seq<char>) -> bool {
    exists|i: int| 0 <= i < lists.len() && (#[trigger] lists[i]).name@ == name
}

/// True when list payload `i` is the only one of the response carrying
/// this name.
pub open spec fn spec_sole_list_payload(lists: Seq<ListUpdatePayload>, i: int, name: Seq<char>) -> bool {
    &&& 0 <= i < lists.len()
    &&& lists[i].name@ == name
    &&& forall|i2: int|
        0 <= i2 < lists.len() && i2 != i ==> (#[trigger] lists[i2]).name@ != name
}

/// True when room payload `i` is the only one of the response carrying
/// this id.
pub open spec fn spec_sole_room_payload(rooms: Seq<RoomUpdatePayload>, i: int, id: Seq<char>) -> bool {
    &&& 0 <= i < rooms.len()
    &&& rooms[i].room_id@ == id
    &&& forall|i2: int|
        0 <= i2 < rooms.len() && i2 != i ==> (#[trigger] rooms[i2]).room_id@ != id
}

impl SlidingSync {
    /// Build the request for the next cycle: each list's generator
    /// produces its window (and is thereby initialized), and the request
    /// carries the current subscription set and extensions.
    pub fn next_request(&mut self) -> (r: SyncRequest)
        requires
            old(self).wf(),
        ensures
            final(self).wf(),
            *final(self) == (SlidingSync { lists: final(self).lists, ..*old(self) }),
            final(self).lists@.len() == old(self).lists@.len(),
            forall|i: int|
                0 <= i < old(self).lists@.len() ==> #[trigger] final(self).lists@[i] == (
                SlidingSyncList {
                    generator_position: Some(spec_next_position(old(self).lists@[i])),
                    ..old(self).lists@[i]
                }),
            r.lists@.len() == old(self).lists@.len(),
            forall|i: int|
                0 <= i < old(self).lists@.len() ==> ((#[trigger] r.lists@[i]).name@ == old(self).lists@[i].name@ && r.lists@[i].ranges@ == spec_next_ranges(old(self).lists@[i])
                    && r.lists@[i].timeline_limit == old(self).lists@[i].timeline_limit),
            r.room_subscriptions@.len() == old(self).subscriptions@.len(),
            forall|k: int|
                0 <= k < old(self).subscriptions@.len() ==> (#[trigger] r.room_subscriptions@[k])@
                    == old(self).subscriptions@[k].0@,
            r.extensions == old(self).extensions,
    {
        let mut req_lists: Vec<ListRequest> = Vec::new();
        let n = self.lists.len();
        let mut i: usize = 0;
        while i < n
            invariant
                n == self.lists@.len(),
                i <= n,
                old(self).wf(),
                *self == (SlidingSync { lists: self.lists, ..*old(self) }),
                self.lists@.len() == old(self).lists@.len(),
                forall|j: int| i <= j < n ==> #[trigger] self.lists@[j] == old(self).lists@[j],
                forall|j: int|
                    0 <= j < i ==> #[trigger] self.lists@[j] == (SlidingSyncList {
                        generator_position: Some(spec_next_position(old(self).lists@[j])),
                        ..old(self).lists@[j]
                    }),
                forall|j: int| 0 <= j < i ==> (#[trigger] self.lists@[j]).wf(),
                req_lists@.len() == i,
                forall|j: int|
                    0 <= j < i ==> ((#[trigger] req_lists@[j]).name@ == old(self).lists@[j].name@
                        && req_lists@[j].ranges@ == spec_next_ranges(old(self).lists@[j])
                        && req_lists@[j].timeline_limit == old(self).lists@[j].timeline_limit),
            decreases n - i,
        {
            let ghost prev = self.lists@;
            let mut l = self.lists.remove(i);
            let ranges = l.next_request_ranges();
            let name = l.name.clone();
            let timeline_limit = l.timeline_limit;
            self.lists.insert(i, l);
            req_lists.push(ListRequest { name, ranges, timeline_limit });
            proof {
                assert(self.lists@ =~= prev.update(i as int, self.lists@[i as int]));
            }
            i = i + 1;
        }
        let mut sub_ids: Vec<String> = Vec::new();
        let mut k: usize = 0;
        while k < self.subscriptions.len()
            invariant
                k <= self.subscriptions@.len(),
                sub_ids@.len() == k,
                forall|j: int|
                    0 <= j < k ==> (#[trigger] sub_ids@[j])@ == self.subscriptions@[j].0@,
            decreases self.subscriptions@.len() - k,
        {
            sub_ids.push(self.subscriptions[k].0.clone());
            k = k + 1;
        }
        SyncRequest { lists: req_lists, room_subscriptions: sub_ids, extensions: self.extensions }
    }

    /// Apply one response: each named list update goes to the matching
    /// list, each room update goes to the room view (created on first
    /// sight), and the returned summary names what changed, in response
    /// order.
    ///
    /// Updates are applied in order and the first failing list update is
    /// returned, the earlier ones already applied: a malformed response is
    /// recoverable only by a full resync.  A list update fails when it
    /// names an unknown list, when it arrives before any request was
    /// generated, or when it writes outside its reported count; room
    /// updates never fail (their counters degrade instead).  The contract
    /// pins the outcome for every key the response addresses once; a
    /// response addressing one key twice applies both updates in response
    /// order.
    pub fn apply_response(&mut self, response: &SyncResponse) -> (r: Result<
        UpdateSummary,
        SlidingSyncError,
    >)
        requires
            old(self).wf(),
        ensures
            final(self).wf(),
            *final(self) == (SlidingSync {
                lists: final(self).lists,
                rooms: final(self).rooms,
                ..*old(self)
            }),
            final(self).lists@.len() == old(self).lists@.len(),
            forall|j: int|
                0 <= j < final(self).lists@.len() ==> ((#[trigger] final(self).lists@[j]).name@
                    == old(self).lists@[j].name@ && final(self).lists@[j].generator_position
                    == old(self).lists@[j].generator_position),
            r matches Err(e) ==> (e is BadResponse || e is RequestGeneratorHasNotBeenInitialized),
            (forall|i: int|
                0 <= i < response.lists@.len() ==> spec_list_update_ok(
                    *old(self),
                    #[trigger] response.lists@[i],
                )) ==> r is Ok,
            r matches Ok(s) ==> (s.lists@.len() == response.lists@.len() && (forall|i: int|
                0 <= i < response.lists@.len() ==> (#[trigger] s.lists@[i])@
                    == response.lists@[i].name@) && s.rooms@.len() == response.rooms@.len() && (
            forall|i: int|
                0 <= i < response.rooms@.len() ==> (#[trigger] s.rooms@[i])@
                    == response.rooms@[i].room_id@)),
            r is Ok ==> (forall|i: int|
                0 <= i < response.lists@.len() ==> spec_list_update_ok(
                    *old(self),
                    #[trigger] response.lists@[i],
                )),
            forall|j: int|
                0 <= j < old(self).lists@.len() && !spec_response_names_list(
                    response.lists@,
                    (#[trigger] old(self).lists@[j]).name@,
                ) ==> final(self).lists@[j] == old(self).lists@[j],
            r is Ok ==> (forall|j: int, i: int|
                #![trigger old(self).lists@[j], response.lists@[i]]
                0 <= j < old(self).lists@.len() && spec_sole_list_payload(
                    response.lists@,
                    i,
                    old(self).lists@[j].name@,
                ) ==> spec_list_updated(
                    old(self).lists@[j],
                    response.lists@[i].count,
                    response.lists@[i].writes@,
                    final(self).lists@[j],
                )),
            final(self).rooms@.len() >= old(self).rooms@.len(),
            forall|j: int|
                0 <= j < old(self).rooms@.len() ==> (#[trigger] final(self).rooms@[j]).room_id@
                    == old(self).rooms@[j].room_id@,
            r matches Err(e) ==> final(self).rooms@ == old(self).rooms@,
            r is Ok ==> (forall|j: int|
                0 <= j < old(self).rooms@.len() ==> #[trigger] final(self).rooms@[j]
                    == spec_room_after(old(self).rooms@[j], response.rooms@)),
            r is Ok ==> (forall|i: int|
                #![trigger response.rooms@[i]]
                0 <= i < response.rooms@.len() && spec_sole_room_payload(
                    response.rooms@,
                    i,
                    response.rooms@[i].room_id@,
                ) && (forall|k: int|
                    0 <= k < old(self).rooms@.len() ==> (#[trigger] old(self).rooms@[k]).room_id@
                        != response.rooms@[i].room_id@) ==> exists|j: int|
                    old(self).rooms@.len() <= j < final(self).rooms@.len() && spec_room_updated(
                        response.rooms@[i],
                        None,
                        #[trigger] final(self).rooms@[j],
                    )),
    {
        let mut summary_lists: Vec<String> = Vec::new();
        let mut u: usize = 0;
        while u < response.lists.len()
            invariant
                u <= response.lists@.len(),
                old(self).wf(),
                self.wf(),
                *self == (SlidingSync { lists: self.lists, ..*old(self) }),
                self.lists@.len() == old(self).lists@.len(),
                forall|j: int|
                    0 <= j < self.lists@.len() ==> ((#[trigger] self.lists@[j]).name@ == old(self).lists@[j].name@ && self.lists@[j].generator_position == old(self).lists@[j].generator_position),
                forall|i: int|
                    0 <= i < u ==> spec_list_update_ok(*old(self), #[trigger] response.lists@[i]),
                forall|j: int|
                    0 <= j < old(self).lists@.len() && (forall|i: int|
                        0 <= i < u ==> (#[trigger] response.lists@[i]).name@ != old(self).lists@[j].name@) ==> #[trigger] self.lists@[j] == old(self).lists@[j],
                forall|j: int, i: int|
                    #![trigger old(self).lists@[j], response.lists@[i]]
                    0 <= j < old(self).lists@.len() && 0 <= i < u && response.lists@[i].name@
                        == old(self).lists@[j].name@ && (forall|i2: int|
                        0 <= i2 < response.lists@.len() && i2 != i ==> (
                        #[trigger] response.lists@[i2]).name@ != old(self).lists@[j].name@)
                        ==> spec_list_updated(
                        old(self).lists@[j],
                        response.lists@[i].count,
                        response.lists@[i].writes@,
                        self.lists@[j],
                    ),
                summary_lists@.len() == u,
                forall|j: int|
                    0 <= j < u ==> (#[trigger] summary_lists@[j])@ == response.lists@[j].name@,
            decreases response.lists@.len() - u,
        {
            let count = response.lists[u].count;
            match find_list_index(&self.lists, &response.lists[u].name) {
                None => {
                    proof {
                        assert(!spec_list_update_ok(*old(self), response.lists@[u as int])) by {
                            if spec_list_update_ok(*old(self), response.lists@[u as int]) {
                                let j = choose|j: int|
                                    0 <= j < old(self).lists@.len() && (#[trigger] old(self).lists@[j]).name@ == response.lists@[u as int].name@ && old(self).lists@[j].generator_position is Some;
                                assert(self.lists@[j].name@ == old(self).lists@[j].name@);
                            }
                        };
                    }
                    return Err(SlidingSyncError::BadResponse {
                        msg: "a response named a list the engine does not know".to_owned(),
                    });
                },
                Some(j) => {
                    let ghost prev = self.lists@;
                    let mut l = self.lists.remove(j);
                    let applied = l.apply_update(count, &response.lists[u].writes);
                    self.lists.insert(j, l);
                    proof {
                        assert(self.lists@ =~= prev.update(j as int, self.lists@[j as int]));
                    }
                    match applied {
                        Err(e) => {
                            proof {
                                assert(!spec_list_update_ok(
                                    *old(self),
                                    response.lists@[u as int],
                                )) by {
                                    if spec_list_update_ok(
                                        *old(self),
                                        response.lists@[u as int],
                                    ) {
                                        let w = choose|w: int|
                                            0 <= w < old(self).lists@.len() && (#[trigger] old(self).lists@[w]).name@
                                                == response.lists@[u as int].name@ && old(self).lists@[w].generator_position is Some;
                                        assert(prev[w].name@ == old(self).lists@[w].name@);
                                        if w < j as int {
                                            assert(prev[w].name@ != prev[j as int].name@);
                                        } else if w > j as int {
                                            assert(prev[j as int].name@ != prev[w].name@);
                                        }
                                        assert(w == j as int);
                                        assert(prev[j as int].generator_position is Some);
                                    }
                                };
                            }
                            return Err(e);
                        },
                        Ok(()) => {},
                    }
                    proof {
                        assert(old(self).lists@[j as int].name@
                            == response.lists@[u as int].name@);
                        assert(old(self).lists@[j as int].generator_position is Some);
                        assert(spec_list_update_ok(*old(self), response.lists@[u as int]));
                        if (forall|i2: int|
                            0 <= i2 < response.lists@.len() && i2 != u as int ==> (
                            #[trigger] response.lists@[i2]).name@
                                != old(self).lists@[j as int].name@) {
                            assert(prev[j as int] == old(self).lists@[j as int]);
                            assert(spec_list_updated(
                                old(self).lists@[j as int],
                                response.lists@[u as int].count,
                                response.lists@[u as int].writes@,
                                self.lists@[j as int],
                            ));
                        }
                    }
                    summary_lists.push(response.lists[u].name.clone());
                },
            }
            u = u + 1;
        }
        let summary_rooms = self.apply_room_updates(&response.rooms);
        Ok(UpdateSummary { lists: summary_lists, rooms: summary_rooms })
    }

    /// Apply the room part of one response: each payload updates the view
    /// of its room, creating it on first sight, and the returned ids name
    /// the updated rooms in payload order.
    #[verifier::rlimit(100)]
    fn apply_room_updates(&mut self, payloads: &Vec<RoomUpdatePayload>) -> (summary_rooms: Vec<
        String,
    >)
        requires
            old(self).wf(),
        ensures
            final(self).wf(),
            *final(self) == (SlidingSync { rooms: final(self).rooms, ..*old(self) }),
            summary_rooms@.len() == payloads@.len(),
            forall|i: int|
                0 <= i < payloads@.len() ==> (#[trigger] summary_rooms@[i])@
                    == payloads@[i].room_id@,
            final(self).rooms@.len() >= old(self).rooms@.len(),
            forall|j: int|
                0 <= j < old(self).rooms@.len() ==> (#[trigger] final(self).rooms@[j]).room_id@
                    == old(self).rooms@[j].room_id@,
            forall|j: int|
                0 <= j < old(self).rooms@.len() ==> #[trigger] final(self).rooms@[j]
                    == spec_room_after(old(self).rooms@[j], payloads@),
            forall|i: int|
                #![trigger payloads@[i]]
                0 <= i < payloads@.len() && spec_sole_room_payload(
                    payloads@,
                    i,
                    payloads@[i].room_id@,
                ) && (forall|k: int|
                    0 <= k < old(self).rooms@.len() ==> (#[trigger] old(self).rooms@[k]).room_id@
                        != payloads@[i].room_id@) ==> exists|j: int|
                    old(self).rooms@.len() <= j < final(self).rooms@.len() && spec_room_updated(
                        payloads@[i],
                        None,
                        #[trigger] final(self).rooms@[j],
                    ),
    {
        let mut summary_rooms: Vec<String> = Vec::new();
        let mut v: usize = 0;
        while v < payloads.len()
            invariant
                v <= payloads@.len(),
                old(self).wf(),
                self.wf(),
                *self == (SlidingSync { rooms: self.rooms, ..*old(self) }),
                self.rooms@.len() >= old(self).rooms@.len(),
                forall|j: int|
                    0 <= j < old(self).rooms@.len() ==> (#[trigger] self.rooms@[j]).room_id@
                        == old(self).rooms@[j].room_id@,
                forall|j: int|
                    old(self).rooms@.len() <= j < self.rooms@.len() ==> exists|i: int|
                        0 <= i < v && (#[trigger] payloads@[i]).room_id@ == (
                        #[trigger] self.rooms@[j]).room_id@,
                forall|j: int|
                    0 <= j < old(self).rooms@.len() ==> #[trigger] self.rooms@[j]
                        == spec_room_after(
                        old(self).rooms@[j],
                        payloads@.subrange(0, v as int),
                    ),
                forall|i: int|
                    #![trigger payloads@[i]]
                    0 <= i < v && (forall|i2: int|
                        0 <= i2 < payloads@.len() && i2 != i ==> (
                        #[trigger] payloads@[i2]).room_id@ != payloads@[i].room_id@) && (
                    forall|k: int|
                        0 <= k < old(self).rooms@.len() ==> (#[trigger] old(self).rooms@[k]).room_id@ != payloads@[i].room_id@) ==> exists|j: int|
                        old(self).rooms@.len() <= j < self.rooms@.len() && spec_room_updated(
                            payloads@[i],
                            None,
                            #[trigger] self.rooms@[j],
                        ),
                summary_rooms@.len() == v,
                forall|i: int|
                    0 <= i < v ==> (#[trigger] summary_rooms@[i])@ == payloads@[i].room_id@,
            decreases payloads@.len() - v,
        {
            match find_room_index(&self.rooms, &payloads[v].room_id) {
                Some(j) => {
                    let ghost prev = self.rooms@;
                    let mut rm = self.rooms.remove(j);
                    rm.apply_update(&payloads[v]);
                    self.rooms.insert(j, rm);
                    proof {
                        assert(self.rooms@ =~= prev.update(j as int, self.rooms@[j as int]));
                        assert(payloads@.subrange(0, (v + 1) as int).drop_last()
                            =~= payloads@.subrange(0, v as int));
                        assert(payloads@.subrange(0, (v + 1) as int).last()
                            == payloads@[v as int]);
                        assert forall|j0: int|
                            0 <= j0 < old(self).rooms@.len() implies #[trigger] self.rooms@[j0]
                            == spec_room_after(
                            old(self).rooms@[j0],
                            payloads@.subrange(0, (v + 1) as int),
                        ) by {
                            if j0 != j as int {
                                if j0 < j as int {
                                    assert(prev[j0].room_id@ != prev[j as int].room_id@);
                                } else {
                                    assert(prev[j as int].room_id@ != prev[j0].room_id@);
                                }
                                assert(payloads@[v as int].room_id@
                                    != old(self).rooms@[j0].room_id@);
                            }
                        };
                        assert forall|i: int|
                            #![trigger payloads@[i]]
                            0 <= i < v + 1 && (forall|i2: int|
                                0 <= i2 < payloads@.len() && i2 != i ==> (
                                #[trigger] payloads@[i2]).room_id@ != payloads@[i].room_id@)
                                && (forall|k: int|
                                0 <= k < old(self).rooms@.len() ==> (#[trigger] old(self).rooms@[k]).room_id@ != payloads@[i].room_id@) implies exists|j0: int|
                            old(self).rooms@.len() <= j0 < self.rooms@.len()
                                && spec_room_updated(
                                payloads@[i],
                                None,
                                #[trigger] self.rooms@[j0],
                            ) by {
                            if i == v as int {
                                if (j as int) < old(self).rooms@.len() {
                                    assert(old(self).rooms@[j as int].room_id@
                                        == payloads@[v as int].room_id@);
                                } else {
                                    assert(exists|i0: int|
                                        0 <= i0 < v && (#[trigger] payloads@[i0]).room_id@
                                            == prev[j as int].room_id@);
                                    let i0 = choose|i0: int|
                                        0 <= i0 < v && (#[trigger] payloads@[i0]).room_id@
                                            == prev[j as int].room_id@;
                                    assert(payloads@[i0].room_id@
                                        == payloads@[v as int].room_id@);
                                }
                            } else {
                                let j0 = choose|j0: int|
                                    old(self).rooms@.len() <= j0 < prev.len()
                                        && spec_room_updated(
                                        payloads@[i],
                                        None,
                                        #[trigger] prev[j0],
                                    );
                                assert(prev[j0].room_id@ == payloads@[i].room_id@);
                                assert(payloads@[v as int].room_id@
                                    != payloads@[i].room_id@);
                                assert(self.rooms@[j0] == prev[j0]);
                            }
                        };
                    }
                },
                None => {
                    let ghost prev = self.rooms@;
                    self.rooms.push(SlidingSyncRoom::from_update(&payloads[v]));
                    proof {
                        let jn = self.rooms@.len() - 1;
                        assert(self.rooms@[jn].room_id@ == payloads@[v as int].room_id@);
                        assert(spec_room_updated(payloads@[v as int], None, self.rooms@[jn]));
                        assert(payloads@.subrange(0, (v + 1) as int).drop_last()
                            =~= payloads@.subrange(0, v as int));
                        assert(payloads@.subrange(0, (v + 1) as int).last()
                            == payloads@[v as int]);
                        assert forall|i: int|
                            #![trigger payloads@[i]]
                            0 <= i < v + 1 && (forall|i2: int|
                                0 <= i2 < payloads@.len() && i2 != i ==> (
                                #[trigger] payloads@[i2]).room_id@ != payloads@[i].room_id@)
                                && (forall|k: int|
                                0 <= k < old(self).rooms@.len() ==> (#[trigger] old(self).rooms@[k]).room_id@ != payloads@[i].room_id@) implies exists|j0: int|
                            old(self).rooms@.len() <= j0 < self.rooms@.len()
                                && spec_room_updated(
                                payloads@[i],
                                None,
                                #[trigger] self.rooms@[j0],
                            ) by {
                            if i == v as int {
                                assert(old(self).rooms@.len() <= jn < self.rooms@.len());
                            } else {
                                let j0 = choose|j0: int|
                                    old(self).rooms@.len() <= j0 < prev.len()
                                        && spec_room_updated(
                                        payloads@[i],
                                        None,
                                        #[trigger] prev[j0],
                                    );
                                assert(self.rooms@[j0] == prev[j0]);
                            }
                        };
                    }
                },
            }
            summary_rooms.push(payloads[v].room_id.clone());
            v = v + 1;
        }
        proof {
            assert(payloads@.subrange(0, payloads@.len() as int) =~= payloads@);
        }
        summary_rooms
    }

    /// A point-in-time view of one room, if the engine knows it.  Views
    /// are independently retainable; none can destroy the engine's state.
    pub fn get_room(&self, room_id: &String) -> (r: Option<SlidingSyncRoom>)
        requires
            self.wf(),
        ensures
            (exists|i: int|
                0 <= i < self.rooms@.len() && (#[trigger] self.rooms@[i]).room_id@
                    == room_id@) ==> ({
                let i = choose|i: int|
                    0 <= i < self.rooms@.len() && (#[trigger] self.rooms@[i]).room_id@
                        == room_id@;
                r matches Some(rm) && spec_room_equiv(rm, self.rooms@[i])
            }),
            (forall|i: int|
                0 <= i < self.rooms@.len() ==> (#[trigger] self.rooms@[i]).room_id@
                    != room_id@) ==> r is None,
    {
        match find_room_index(&self.rooms, room_id) {
            Some(i) => {
                let rm = self.rooms[i].duplicate();
                proof {
                    let c = choose|c: int|
                        0 <= c < self.rooms@.len() && (#[trigger] self.rooms@[c]).room_id@
                            == room_id@;
                    if c < i as int {
                        assert(self.rooms@[c].room_id@ != self.rooms@[i as int].room_id@);
                    } else if c > i as int {
                        assert(self.rooms@[i as int].room_id@ != self.rooms@[c].room_id@);
                    }
                    assert(c == i as int);
                }
                Some(rm)
            },
            None => None,
        }
    }

    /// Point-in-time views of several rooms at once, one slot per asked
    /// id, in order.
    pub fn get_rooms(&self, room_ids: &Vec<String>) -> (r: Vec<Option<SlidingSyncRoom>>)
        requires
            self.wf(),
        ensures
            r@.len() == room_ids@.len(),
            forall|k: int|
                0 <= k < room_ids@.len() ==> (((exists|i: int|
                    0 <= i < self.rooms@.len() && (#[trigger] self.rooms@[i]).room_id@
                        == room_ids@[k]@) ==> ((#[trigger] r@[k]) matches Some(rm)
                    && spec_room_equiv(
                    rm,
                    self.rooms@[choose|i: int|
                        0 <= i < self.rooms@.len() && (#[trigger] self.rooms@[i]).room_id@
                            == room_ids@[k]@],
                ))) && ((forall|i: int|
                    0 <= i < self.rooms@.len() ==> (#[trigger] self.rooms@[i]).room_id@
                        != room_ids@[k]@) ==> r@[k] is None)),
    {
        let mut out: Vec<Option<SlidingSyncRoom>> = Vec::new();
        let mut k: usize = 0;
        while k < room_ids.len()
            invariant
                self.wf(),
                k <= room_ids@.len(),
                out@.len() == k,
                forall|m: int|
                    0 <= m < k ==> (((exists|i: int|
                        0 <= i < self.rooms@.len() && (#[trigger] self.rooms@[i]).room_id@
                            == room_ids@[m]@) ==> ((#[trigger] out@[m]) matches Some(rm)
                        && spec_room_equiv(
                        rm,
                        self.rooms@[choose|i: int|
                            0 <= i < self.rooms@.len() && (#[trigger] self.rooms@[i]).room_id@
                                == room_ids@[m]@],
                    ))) && ((forall|i: int|
                        0 <= i < self.rooms@.len() ==> (#[trigger] self.rooms@[i]).room_id@
                            != room_ids@[m]@) ==> out@[m] is None)),
            decreases room_ids@.len() - k,
        {
            out.push(self.get_room(&room_ids[k]));
            k = k + 1;
        }
        out
    }

    /// A fresh handle for one run of the request/response loop.  Canceling
    /// it stops the loop; list and room state stay intact, and the loop
    /// may be started again.
    pub fn sync(&self) -> (r: TaskHandle)
        ensures
            !r.canceled,
            !r.finished,
            r.finalizer is None,
    {
        TaskHandle::new()
    }

    /// Attach a timeline listener to a room and register a server-side
    /// subscription for it, coupling the subscription's lifetime to the
    /// listener's: the returned task carries a finalizer that unsubscribes
    /// exactly this room, so canceling the task withdraws the
    /// subscription without a separate teardown call.
    ///
    /// `resolved_timeline` is what the session resolved for the room, used
    /// only when no timeline exists yet.  Fails without effect when the
    /// engine does not know the room, or when no timeline exists and none
    /// could be resolved.
    pub fn subscribe_and_add_timeline_listener(
        &mut self,
        room_id: String,
        resolved_timeline: Option<Vec<String>>,
        settings: Option<RoomSubscription>,
    ) -> (r: Result<SlidingSyncSubscribeResult, SlidingSyncError>)
        requires
            old(self).wf(),
        ensures
            final(self).wf(),
            *final(self) == (SlidingSync {
                rooms: final(self).rooms,
                subscriptions: final(self).subscriptions,
                ..*old(self)
            }),
            (forall|i: int|
                0 <= i < old(self).rooms@.len() ==> (#[trigger] old(self).rooms@[i]).room_id@
                    != room_id@) ==> (r matches Err(e) && e is Unknown && *final(self) == *old(self)),
            (exists|i: int|
                0 <= i < old(self).rooms@.len() && (#[trigger] old(self).rooms@[i]).room_id@
                    == room_id@) ==> ({
                let i = choose|i: int|
                    0 <= i < old(self).rooms@.len() && (#[trigger] old(self).rooms@[i]).room_id@
                        == room_id@;
                let room = old(self).rooms@[i];
                &&& (room.timeline is None && resolved_timeline is None ==> (r matches Err(e)
                    && e is Unknown && final(self).rooms@ == old(self).rooms@ && final(
                    self).subscriptions@ == old(self).subscriptions@))
                &&& ((room.timeline is Some || resolved_timeline is Some) ==> (r matches Ok(res)
                    && res.task_handle.finalizer == Some(
                    FinalizerAction::Unsubscribe { room_id },
                ) && !res.task_handle.canceled && !res.task_handle.finished && (exists|k: int|
                    0 <= k < final(self).subscriptions@.len() && #[trigger] final(self).subscriptions@[k] == (room_id, settings)) && final(self).rooms@ == old(self).rooms@.update(i, final(self).rooms@[i]) && (room.timeline is Some
                    ==> final(self).rooms@[i] == room) && (room.timeline is None ==> final(self).rooms@[i] == (SlidingSyncRoom { timeline: resolved_timeline, ..room })) && (
                room.timeline matches Some(items) ==> res.items@ == items@) && (room.timeline
                    is None ==> (resolved_timeline matches Some(items) ==> res.items@
                    == items@))))
            }),
    {
        match find_room_index(&self.rooms, &room_id) {
            None => Err(SlidingSyncError::Unknown {
                error: "cannot subscribe: the room is not known".to_owned(),
            }),
            Some(i) => {
                proof {
                    let c = choose|c: int|
                        0 <= c < old(self).rooms@.len() && (#[trigger] old(self).rooms@[c]).room_id@ == room_id@;
                    if c < i as int {
                        assert(old(self).rooms@[c].room_id@ != old(self).rooms@[i as int].room_id@);
                    } else if c > i as int {
                        assert(old(self).rooms@[i as int].room_id@ != old(self).rooms@[c].room_id@);
                    }
                    assert(c == i as int);
                }
                let ghost prev = self.rooms@;
                let mut rm = self.rooms.remove(i);
                let attached = rm.add_timeline_listener(resolved_timeline);
                self.rooms.insert(i, rm);
                proof {
                    assert(self.rooms@ =~= prev.update(i as int, self.rooms@[i as int]));
                }
                match attached {
                    Err(e) => {
                        proof {
                            assert(self.rooms@ =~= prev);
                        }
                        Err(e)
                    },
                    Ok(mut res) => {
                        self.subscribe(room_id.clone(), settings);
                        res.task_handle.set_finalizer(FinalizerAction::Unsubscribe { room_id });
                        Ok(res)
                    },
                }
            },
        }
    }
}

/// The index of the room view for `room_id`, if any.
fn find_room_index(rooms: &Vec<SlidingSyncRoom>, room_id: &String) -> (r: Option<usize>)
    ensures
        r matches Some(i) ==> i < rooms@.len() && rooms@[i as int].room_id@ == room_id@,
        r is None ==> forall|j: int|
            0 <= j < rooms@.len() ==> (#[trigger] rooms@[j]).room_id@ != room_id@,
{
    let mut i: usize = 0;
    while i < rooms.len()
        invariant
            i <= rooms@.len(),
            forall|j: int| 0 <= j < i ==> (#[trigger] rooms@[j]).room_id@ != room_id@,
        decreases rooms@.len() - i,
    {
        if rooms[i].room_id == *room_id {
            return Some(i);
        }
        i = i + 1;
    }
    None
}

/// The external error-classification collaborator's verdict on one
/// loop-time error: retry with the next request, or stop the loop.
#[derive(Clone, Copy, Debug, PartialEq, Eq)]
pub enum LoopCtrl {
    Continue,
    Break,
}

/// One event observed by the engine's long-lived sync loop.
pub enum SyncLoopEvent {
    /// The server answered one request cycle; the summary names what
    /// changed.
    Update { summary: UpdateSummary },
    /// A loop-time error, already classified by the external policy.  The
    /// engine itself never retries with backoff: that policy lives with
    /// the classifier.
    Failure { ctrl: LoopCtrl },
    /// The stream ended without an error, which a live loop does not
    /// expect.
    Ended,
}

/// What the sync loop does after one event.
#[derive(Clone, Debug, PartialEq, Eq)]
pub enum SyncLoopStep {
    /// Hand the summary to the registered observer, then poll again.
    Deliver { summary: UpdateSummary },
    /// Poll again without delivering anything.
    Skip,
    /// Stop the loop.  List and room state stay intact; the loop may be
    /// started again.
    Stop,
}

/// Decide one iteration of the sync loop: exactly one summary is
/// delivered per successful response cycle, and only while an observer is
/// registered; a continue-classified failure retries immediately; a
/// break-classified failure or the end of the stream stops the loop.
pub fn process_sync_event(event: SyncLoopEvent, observer_registered: bool) -> (r: SyncLoopStep)
    ensures
        event matches SyncLoopEvent::Update { summary } ==> r == (if observer_registered {
            SyncLoopStep::Deliver { summary }
        } else {
            SyncLoopStep::Skip
        }),
        (event matches SyncLoopEvent::Failure { ctrl } && ctrl is Continue) ==> r is Skip,
        (event matches SyncLoopEvent::Failure { ctrl } && ctrl is Break) ==> r is Stop,
        event is Ended ==> r is Stop,
{
    match event {
        SyncLoopEvent::Update { summary } => {
            if observer_registered {
                SyncLoopStep::Deliver { summary }
            } else {
                SyncLoopStep::Skip
            }
        },
        SyncLoopEvent::Failure { ctrl } => match ctrl {
            LoopCtrl::Continue => SyncLoopStep::Skip,
            LoopCtrl::Break => SyncLoopStep::Stop,
        },
        SyncLoopEvent::Ended => SyncLoopStep::Stop,
    }
}

/// Law: attaching a listener with a subscription couples the
/// subscription's lifetime to the listener's.  Canceling the returned
/// task yields the unsubscribe action for exactly that room once; a
/// second cancellation yields nothing, so the room is unsubscribed
/// exactly once however often the task is canceled.
pub proof fn lemma_listener_teardown_unsubscribes_once(h: TaskHandle, room_id: Seq<char>)
    requires
        h.finalizer matches Some(f) && f matches FinalizerAction::Unsubscribe { room_id: rid }
            && rid@ == room_id,
    ensures
        ({
            let (h1, a1) = spec_cancel(h);
            let (h2, a2) = spec_cancel(h1);
            &&& (a1 matches Some(f) && f matches FinalizerAction::Unsubscribe { room_id: rid }
                && rid@ == room_id)
            &&& a2 is None
        }),
{
}

/// Law: after a list is replaced under a reused name, the request window
/// generated at that position comes from the replacement's configuration
/// alone.
pub proof fn lemma_replaced_list_governs_next_request(
    e: SlidingSync,
    replacement: SlidingSyncList,
    i: int,
)
    requires
        0 <= i < e.lists@.len(),
    ensures
        ({
            let after = e.lists@.update(i, replacement);
            &&& after[i] == replacement
            &&& spec_next_ranges(after[i]) == spec_next_ranges(replacement)
            &&& after[i].timeline_limit == replacement.timeline_limit
        }),
{
}

} // verus!
