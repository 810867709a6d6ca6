use vstd::prelude::*;

use crate::engine::{ExtensionConfig, SlidingSync};
use crate::errors::SlidingSyncError;
use crate::list::SlidingSyncList;

verus! {

/// The normalized serialization of an absolute URL string, or `None`
/// where the string does not parse as one.  The result depends on the
/// string alone.
pub uninterp spec fn spec_parsed_url(s: Seq<char>) -> Option<Seq<char>>;

/// Relies on url::Url::parse: deterministic parsing and normalization of
/// an absolute URL string, with Url::as_str returning the normalized
/// serialization.  A parse failure hands back the parser's description;
/// nothing is claimed of its text.
#[verifier::external_body]
fn parse_url(s: &String) -> (r: Result<String, String>)
    ensures
        r is Ok <==> spec_parsed_url(s@) is Some,
        r matches Ok(u) ==> Some(u@) == spec_parsed_url(s@),
{
    match url::Url::parse(s.as_str()) {
        Ok(u) => Ok(u.as_str().to_owned()),
        Err(e) => Err(e.to_string()),
    }
}

/// Declarative configuration of the engine: the homeserver it talks to,
/// an optional storage key for cached state, the initial lists, and the
/// extension set.
pub struct SlidingSyncBuilder {
    pub homeserver: Option<String>,
    pub storage_key: Option<String>,
    pub lists: Vec<SlidingSyncList>,
    pub extensions: ExtensionConfig,
}

impl SlidingSyncBuilder {
    /// Lists keyed uniquely and each well formed, so the built engine is.
    pub open spec fn wf(self) -> bool {
        &&& forall|i: int| 0 <= i < self.lists@.len() ==> (#[trigger] self.lists@[i]).wf()
        &&& forall|i: int, j: int|
            #![trigger self.lists@[i], self.lists@[j]]
            0 <= i < j < self.lists@.len() ==> self.lists@[i].name@ != self.lists@[j].name@
    }

    /// An empty configuration: no homeserver override, no storage key, no
    /// lists, no extensions.
    pub fn new() -> (r: Self)
        ensures
            r.homeserver is None,
            r.storage_key is None,
            r.lists@ == Seq::<SlidingSyncList>::empty(),
            r.extensions == (ExtensionConfig {
                to_device: false,
                e2ee: false,
                account_data: false,
                receipt: false,
                typing: false,
            }),
            r.wf(),
    {
        SlidingSyncBuilder {
            homeserver: None,
            storage_key: None,
            lists: Vec::new(),
            extensions: ExtensionConfig::none(),
        }
    }

    /// Point the engine at this homeserver.  The URL string is parsed and
    /// normalized; a string that does not parse is rejected, the parser's
    /// description preserved in the error.
    pub fn homeserver(self, url: String) -> (r: Result<Self, SlidingSyncError>)
        ensures
            spec_parsed_url(url@) matches Some(normalized) ==> (r matches Ok(b) && (
            b.homeserver matches Some(h) && h@ == normalized) && b == (SlidingSyncBuilder {
                homeserver: b.homeserver,
                ..self
            })),
            spec_parsed_url(url@) is None ==> (r matches Err(e) && e is Unknown),
    {
        match parse_url(&url) {
            Ok(normalized) => Ok(SlidingSyncBuilder { homeserver: Some(normalized), ..self }),
            Err(description) => Err(SlidingSyncError::Unknown { error: description }),
        }
    }

    /// Key under which the engine caches its state; `None` disables
    /// caching.
    pub fn storage_key(self, name: Option<String>) -> (r: Self)
        ensures
            r == (SlidingSyncBuilder { storage_key: name, ..self }),
    {
        SlidingSyncBuilder { storage_key: name, ..self }
    }

    /// Add a list to the initial configuration.  A list already added
    /// under the same name is replaced.
    pub fn add_list(self, list: SlidingSyncList) -> (r: Self)
        requires
            self.wf(),
            list.wf(),
        ensures
            r.wf(),
            r == (SlidingSyncBuilder { lists: r.lists, ..self }),
            (exists|i: int|
                0 <= i < self.lists@.len() && (#[trigger] self.lists@[i]).name@
                    == list.name@) ==> r.lists@ == self.lists@.update(
                choose|i: int|
                    0 <= i < self.lists@.len() && (#[trigger] self.lists@[i]).name@
                        == list.name@,
                list,
            ),
            (forall|i: int|
                0 <= i < self.lists@.len() ==> (#[trigger] self.lists@[i]).name@
                    != list.name@) ==> r.lists@ == self.lists@.push(list),
    {
        let mut b = self;
        match crate::engine::find_list_index(&b.lists, &list.name) {
            Some(i) => {
                let ghost prev = b.lists@;
                b.lists.remove(i);
                b.lists.insert(i, list);
                proof {
                    assert(b.lists@ =~= prev.update(i as int, b.lists@[i as int]));
                    let c = choose|c: int|
                        0 <= c < prev.len() && (#[trigger] prev[c]).name@
                            == b.lists@[i as int].name@;
                    if c < i as int {
                        assert(prev[c].name@ != prev[i as int].name@);
                    } else if c > i as int {
                        assert(prev[i as int].name@ != prev[c].name@);
                    }
                    assert(c == i as int);
                }
            },
            None => {
                b.lists.push(list);
            },
        }
        b
    }

    /// Request the common extensions: to-device messages, end-to-end
    /// encryption, and account data.
    pub fn with_common_extensions(self) -> (r: Self)
        ensures
            r == (SlidingSyncBuilder {
                extensions: (ExtensionConfig {
                    to_device: true,
                    e2ee: true,
                    account_data: true,
                    ..self.extensions
                }),
                ..self
            }),
    {
        let updated = self.extensions.with_common();
        SlidingSyncBuilder { extensions: updated, ..self }
    }

    /// Leave end-to-end encryption out of the extension set.
    pub fn without_e2ee_extension(self) -> (r: Self)
        ensures
            r == (SlidingSyncBuilder {
                extensions: (ExtensionConfig { e2ee: false, ..self.extensions }),
                ..self
            }),
    {
        let updated = ExtensionConfig { e2ee: false, ..self.extensions };
        SlidingSyncBuilder { extensions: updated, ..self }
    }

    /// Leave to-device messages out of the extension set.
    pub fn without_to_device_extension(self) -> (r: Self)
        ensures
            r == (SlidingSyncBuilder {
                extensions: (ExtensionConfig { to_device: false, ..self.extensions }),
                ..self
            }),
    {
        let updated = ExtensionConfig { to_device: false, ..self.extensions };
        SlidingSyncBuilder { extensions: updated, ..self }
    }

    /// Leave account data out of the extension set.
    pub fn without_account_data_extension(self) -> (r: Self)
        ensures
            r == (SlidingSyncBuilder {
                extensions: (ExtensionConfig { account_data: false, ..self.extensions }),
                ..self
            }),
    {
        let updated = ExtensionConfig { account_data: false, ..self.extensions };
        SlidingSyncBuilder { extensions: updated, ..self }
    }

    /// Leave read receipts out of the extension set.
    pub fn without_receipt_extension(self) -> (r: Self)
        ensures
            r == (SlidingSyncBuilder {
                extensions: (ExtensionConfig { receipt: false, ..self.extensions }),
                ..self
            }),
    {
        let updated = ExtensionConfig { receipt: false, ..self.extensions };
        SlidingSyncBuilder { extensions: updated, ..self }
    }

    /// Leave typing notifications out of the extension set.
    pub fn without_typing_extension(self) -> (r: Self)
        ensures
            r == (SlidingSyncBuilder {
                extensions: (ExtensionConfig { typing: false, ..self.extensions }),
                ..self
            }),
    {
        let updated = ExtensionConfig { typing: false, ..self.extensions };
        SlidingSyncBuilder { extensions: updated, ..self }
    }

    /// Request every extension.
    pub fn with_all_extensions(self) -> (r: Self)
        ensures
            r == (SlidingSyncBuilder {
                extensions: (ExtensionConfig {
                    to_device: true,
                    e2ee: true,
                    account_data: true,
                    receipt: true,
                    typing: true,
                }),
                ..self
            }),
    {
        let updated = ExtensionConfig {
            to_device: true,
            e2ee: true,
            account_data: true,
            receipt: true,
            typing: true,
        };
        SlidingSyncBuilder { extensions: updated, ..self }
    }

    /// Build the engine: the configured lists, no subscription and no
    /// room state yet.
    pub fn build(self) -> (r: SlidingSync)
        requires
            self.wf(),
        ensures
            r.wf(),
            r.homeserver == self.homeserver,
            r.storage_key == self.storage_key,
            r.lists == self.lists,
            r.subscriptions@ == Seq::<(String, Option<crate::room::RoomSubscription>)>::empty(),
            r.rooms@ == Seq::<crate::room::SlidingSyncRoom>::empty(),
            r.extensions == self.extensions,
    {
        SlidingSync {
            homeserver: self.homeserver,
            storage_key: self.storage_key,
            lists: self.lists,
            subscriptions: Vec::new(),
            rooms: Vec::new(),
            extensions: self.extensions,
        }
    }
}

} // verus!
