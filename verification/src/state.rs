//! The resource registry: one table mapping generated ids to typed
//! resources, with an ownership-transfer chain over the pre-connection
//! setup resources.
//!
//! Two invariants govern the table: every live entry has a distinct id, and
//! ids are unique across the registry's whole lifetime — an id that was ever
//! registered is never handed out again, even after its entry is removed.

use vstd::prelude::*;

use std::sync::Arc;

use crate::config::Config;
use crate::engine::api_build;
use crate::engine::api_builder_new;
use crate::engine::api_builder_with_interceptor_registry;
use crate::engine::api_builder_with_media_engine;
use crate::engine::interceptor_registry_new;
use crate::engine::media_engine_default;
use crate::engine::new_track_local_static_sample as build_track;
use crate::engine::register_default_codecs;
use crate::engine::register_default_interceptors;
use crate::codec_capability::RtpCodecCapability;
use crate::errors::SpecterError;
use crate::peer_connection::Msg;
use crate::util::gen_uuid;

verus! {

/// The kinds of resources the registry can hold.
#[derive(Clone, Copy, Debug, PartialEq, Eq, Structural)]
pub enum ResourceKind {
    MediaEngine,
    InterceptorRegistry,
    Api,
    PeerConnectionSender,
    TrackHandle,
}

/// A registered resource: the native value, tagged with its kind.
pub enum Resource {
    MediaEngine(webrtc::api::media_engine::MediaEngine),
    InterceptorRegistry(webrtc::interceptor::registry::Registry),
    Api(Arc<webrtc::api::API>),
    PeerConnectionSender(tokio::sync::mpsc::Sender<Msg>),
    TrackHandle(
        Arc<webrtc::track::track_local::track_local_static_sample::TrackLocalStaticSample>,
    ),
}

impl Resource {
    /// The kind this resource is registered under.
    pub open spec fn kind(self) -> ResourceKind {
        match self {
            Resource::MediaEngine(_) => ResourceKind::MediaEngine,
            Resource::InterceptorRegistry(_) => ResourceKind::InterceptorRegistry,
            Resource::Api(_) => ResourceKind::Api,
            Resource::PeerConnectionSender(_) => ResourceKind::PeerConnectionSender,
            Resource::TrackHandle(_) => ResourceKind::TrackHandle,
        }
    }

    /// Reads the kind tag off the value.
    pub fn tag(&self) -> (k: ResourceKind)
        ensures
            k == self.kind(),
    {
        match self {
            Resource::MediaEngine(_) => ResourceKind::MediaEngine,
            Resource::InterceptorRegistry(_) => ResourceKind::InterceptorRegistry,
            Resource::Api(_) => ResourceKind::Api,
            Resource::PeerConnectionSender(_) => ResourceKind::PeerConnectionSender,
            Resource::TrackHandle(_) => ResourceKind::TrackHandle,
        }
    }
}

/// One live table entry.
pub struct Entry {
    pub id: String,
    pub value: Resource,
}

/// The registry: the configuration snapshot, the live entries, and every id
/// ever handed out.
pub struct State {
    /// The configuration snapshot taken at initialization.
    pub config: Config,
    entries: Vec<Entry>,
    used_ids: Vec<String>,
}

impl State {
    /// The configuration snapshot, as contracts see it.
    pub closed spec fn cfg(self) -> Config {
        self.config
    }

    /// How many entries are live.
    pub closed spec fn num_entries(self) -> int {
        self.entries@.len() as int
    }

    /// The id and kind of the live entry at an index.
    pub closed spec fn entry_at(self, i: int) -> (Seq<char>, ResourceKind) {
        (self.entries@[i].id@, self.entries@[i].value.kind())
    }

    /// Whether a resource of the given kind is registered under the id.
    pub open spec fn has(self, id: Seq<char>, k: ResourceKind) -> bool {
        exists|i: int| 0 <= i < self.num_entries() && #[trigger] self.entry_at(i) == (id, k)
    }

    /// How many ids were ever handed out.
    pub closed spec fn num_used(self) -> int {
        self.used_ids@.len() as int
    }

    /// The id at an index of the lifetime record.
    pub closed spec fn used_at(self, i: int) -> Seq<char> {
        self.used_ids@[i]@
    }

    /// Whether the id was ever registered, live or not.
    pub open spec fn is_used(self, id: Seq<char>) -> bool {
        exists|i: int| 0 <= i < self.num_used() && #[trigger] self.used_at(i) == id
    }

    /// Well-formedness: live ids are pairwise distinct, and every live id is
    /// recorded as used.
    pub open spec fn wf(self) -> bool {
        &&& forall|i: int, j: int|
            0 <= i < j < self.num_entries() ==> (#[trigger] self.entry_at(i)).0 != (
            #[trigger] self.entry_at(j)).0
        &&& forall|i: int|
            0 <= i < self.num_entries() ==> self.is_used((#[trigger] self.entry_at(i)).0)
    }

    /// An id is registered under at most one kind.
    pub proof fn lemma_kind_unique(self, id: Seq<char>, k1: ResourceKind, k2: ResourceKind)
        requires
            self.wf(),
            self.has(id, k1),
            self.has(id, k2),
        ensures
            k1 == k2,
    {
        let i1 = choose|i: int| 0 <= i < self.num_entries() && #[trigger] self.entry_at(i) == (
            id,
            k1,
        );
        let i2 = choose|i: int| 0 <= i < self.num_entries() && #[trigger] self.entry_at(i) == (
            id,
            k2,
        );
        if i1 != i2 {
            assert(self.entry_at(i1).0 == self.entry_at(i2).0);
        }
    }

    /// A live entry's id was handed out at some point.
    pub proof fn lemma_live_is_used(self, id: Seq<char>, k: ResourceKind)
        requires
            self.wf(),
            self.has(id, k),
        ensures
            self.is_used(id),
    {
        let i = choose|i: int| 0 <= i < self.num_entries() && #[trigger] self.entry_at(i) == (
            id,
            k,
        );
        assert(self.entry_at(i).0 == id);
    }

    /// An empty registry around the given configuration snapshot.
    pub fn new(config: Config) -> (s: State)
        ensures
            s.wf(),
            s.cfg() == config,
            forall|id: Seq<char>, k: ResourceKind| !s.has(id, k),
            forall|id: Seq<char>| !s.is_used(id),
    {
        State { config, entries: Vec::new(), used_ids: Vec::new() }
    }

    /// Whether the id was ever handed out.
    pub fn id_in_use(&self, id: &String) -> (r: bool)
        ensures
            r == self.is_used(id@),
    {
        let mut i: usize = 0;
        while i < self.used_ids.len()
            invariant
                i <= self.used_ids@.len(),
                forall|j: int| 0 <= j < i ==> self.used_at(j) != id@,
            decreases self.used_ids@.len() - i,
        {
            if self.used_ids[i] == *id {
                assert(self.used_at(i as int) == id@);
                return true;
            }
            i = i + 1;
        }
        false
    }

    /// The index of the live entry with the given id, if any.
    fn find_entry(&self, id: &String) -> (r: Option<usize>)
        ensures
            match r {
                Some(i) => i < self.num_entries() && self.entry_at(i as int).0 == id@,
                None => forall|i: int|
                    0 <= i < self.num_entries() ==> (#[trigger] self.entry_at(i)).0 != id@,
            },
    {
        let mut i: usize = 0;
        while i < self.entries.len()
            invariant
                i <= self.entries@.len(),
                forall|j: int| 0 <= j < i ==> (#[trigger] self.entry_at(j)).0 != id@,
            decreases self.entries@.len() - i,
        {
            if self.entries[i].id == *id {
                assert(self.entry_at(i as int).0 == id@);
                return Some(i);
            }
            i = i + 1;
        }
        None
    }

    /// Registers a value under a never-used id.
    pub(crate) fn insert_entry(&mut self, id: String, value: Resource)
        requires
            old(self).wf(),
            !old(self).is_used(id@),
        ensures
            final(self).wf(),
            final(self).cfg() == old(self).cfg(),
            adds_entry(*old(self), *final(self), id@, value.kind()),
    {
        let ghost pre = *old(self);
        let ghost k0 = value.kind();
        self.used_ids.push(id.clone());
        self.entries.push(Entry { id, value });
        proof {
            let post = *self;
            let n = pre.num_entries();
            assert(post.num_entries() == n + 1);
            assert forall|i: int| 0 <= i < n implies post.entry_at(i) == pre.entry_at(i) by {
                assert(post.entries@[i] == pre.entries@[i]);
            }
            assert forall|i: int| 0 <= i < pre.num_used() implies post.used_at(i) == pre.used_at(
                i,
            ) by {
                assert(post.used_ids@[i] == pre.used_ids@[i]);
            }
            assert(post.entry_at(n) == (id@, k0));
            assert(post.used_at(pre.num_used()) == id@);
            // the lifetime record only grew by the new id
            assert forall|id2: Seq<char>| #[trigger]
                post.is_used(id2) implies pre.is_used(id2) || id2 == id@ by {
                let i = choose|i: int| 0 <= i < post.num_used() && #[trigger] post.used_at(i)
                    == id2;
                if i < pre.num_used() {
                    assert(pre.used_at(i) == id2);
                }
            }
            assert forall|id2: Seq<char>| pre.is_used(id2) implies post.is_used(id2) by {
                let i = choose|i: int| 0 <= i < pre.num_used() && #[trigger] pre.used_at(i) == id2;
                assert(post.used_at(i) == id2);
            }
            assert(post.is_used(id@));
            // the table only grew by the new entry
            assert forall|id2: Seq<char>, k: ResourceKind| #[trigger]
                post.has(id2, k) implies pre.has(id2, k) || (id2 == id@ && k == k0) by {
                let i = choose|i: int| 0 <= i < post.num_entries() && #[trigger] post.entry_at(i)
                    == (id2, k);
                if i < n {
                    assert(pre.entry_at(i) == (id2, k));
                }
            }
            assert forall|id2: Seq<char>, k: ResourceKind| #[trigger]
                pre.has(id2, k) implies post.has(id2, k) by {
                let i = choose|i: int| 0 <= i < pre.num_entries() && #[trigger] pre.entry_at(i)
                    == (id2, k);
                assert(post.entry_at(i) == (id2, k));
            }
            // distinctness: the new id was never used, so no live entry had it
            assert forall|i: int, j: int|
                0 <= i < j < post.num_entries() implies (#[trigger] post.entry_at(i)).0 != (
            #[trigger] post.entry_at(j)).0 by {
                if j < n {
                    assert(pre.entry_at(i).0 != pre.entry_at(j).0);
                } else {
                    assert(pre.is_used(pre.entry_at(i).0));
                }
            }
            assert forall|i: int|
                0 <= i < post.num_entries() implies post.is_used(
                (#[trigger] post.entry_at(i)).0,
            ) by {
                if i < n {
                    assert(pre.is_used(pre.entry_at(i).0));
                }
            }
        }
    }

    /// Removes and returns the entry with the given id, provided its kind
    /// matches; a kind mismatch or an absent id removes nothing.
    pub(crate) fn take_entry(&mut self, id: &String, kind: ResourceKind) -> (r: Option<Resource>)
        requires
            old(self).wf(),
        ensures
            final(self).wf(),
            final(self).cfg() == old(self).cfg(),
            match r {
                Some(v) => v.kind() == kind && old(self).has(id@, kind) && removes_entry(
                    *old(self),
                    *final(self),
                    id@,
                ),
                None => !old(self).has(id@, kind) && *final(self) == *old(self),
            },
    {
        let ghost pre = *old(self);
        let idx = match self.find_entry(id) {
            None => {
                proof {
                    assert forall|k: ResourceKind| !pre.has(id@, k) by {
                        if pre.has(id@, k) {
                            let i = choose|i: int|
                                0 <= i < pre.num_entries() && #[trigger] pre.entry_at(i) == (
                                    id@,
                                    k,
                                );
                        }
                    }
                }
                return None;
            },
            Some(i) => i,
        };
        let matches_kind = self.entries[idx].value.tag() == kind;
        if !matches_kind {
            proof {
                if pre.has(id@, kind) {
                    let i = choose|i: int|
                        0 <= i < pre.num_entries() && #[trigger] pre.entry_at(i) == (id@, kind);
                    if i != idx {
                        assert(pre.entry_at(i).0 == pre.entry_at(idx as int).0);
                    }
                }
            }
            return None;
        }
        proof {
            assert(pre.entry_at(idx as int) == (id@, kind));
        }
        let entry = self.entries.remove(idx);
        proof {
            let post = *self;
            let n = pre.num_entries();
            assert(post.num_entries() == n - 1);
            assert forall|i: int| 0 <= i < n - 1 implies post.entry_at(i) == (
            if i < idx {
                pre.entry_at(i)
            } else {
                pre.entry_at(i + 1)
            }) by {
                if i < idx {
                    assert(post.entries@[i] == pre.entries@[i]);
                } else {
                    assert(post.entries@[i] == pre.entries@[i + 1]);
                }
            }
            assert(post.used_ids@ == pre.used_ids@);
            assert forall|id2: Seq<char>| #[trigger] post.is_used(id2) == pre.is_used(id2) by {
                assert(post.num_used() == pre.num_used());
                assert forall|i: int| 0 <= i < post.num_used() implies post.used_at(i)
                    == pre.used_at(i) by {
                    assert(post.used_ids@[i] == pre.used_ids@[i]);
                }
                if pre.is_used(id2) {
                    let i = choose|i: int| 0 <= i < pre.num_used() && #[trigger] pre.used_at(i)
                        == id2;
                    assert(post.used_at(i) == id2);
                }
                if post.is_used(id2) {
                    let i = choose|i: int| 0 <= i < post.num_used() && #[trigger] post.used_at(i)
                        == id2;
                    assert(pre.used_at(i) == id2);
                }
            }
            // no entry with the removed id is left
            assert forall|k: ResourceKind| !post.has(id@, k) by {
                if post.has(id@, k) {
                    let i = choose|i: int| 0 <= i < post.num_entries() && #[trigger] post.entry_at(
                        i,
                    ) == (id@, k);
                    if i < idx {
                        assert(pre.entry_at(i).0 == pre.entry_at(idx as int).0);
                    } else {
                        assert(pre.entry_at(i + 1).0 == pre.entry_at(idx as int).0);
                    }
                }
            }
            // every other id keeps its kinds
            assert forall|id2: Seq<char>, k: ResourceKind|
                id2 != id@ implies (#[trigger] post.has(id2, k) <==> pre.has(id2, k)) by {
                if post.has(id2, k) {
                    let i = choose|i: int| 0 <= i < post.num_entries() && #[trigger] post.entry_at(
                        i,
                    ) == (id2, k);
                    if i < idx {
                        assert(pre.entry_at(i) == (id2, k));
                    } else {
                        assert(pre.entry_at(i + 1) == (id2, k));
                    }
                }
                if pre.has(id2, k) {
                    let i = choose|i: int| 0 <= i < pre.num_entries() && #[trigger] pre.entry_at(
                        i,
                    ) == (id2, k);
                    if i < idx {
                        assert(post.entry_at(i) == (id2, k));
                    } else {
                        assert(i != idx);
                        assert(post.entry_at(i - 1) == (id2, k));
                    }
                }
            }
            // distinctness and the lifetime record survive the removal
            assert forall|i: int, j: int|
                0 <= i < j < post.num_entries() implies (#[trigger] post.entry_at(i)).0 != (
            #[trigger] post.entry_at(j)).0 by {
                let pi: int = if i < idx { i } else { i + 1 };
                let pj: int = if j < idx { j } else { j + 1 };
                assert(pre.entry_at(pi).0 != pre.entry_at(pj).0);
            }
            assert forall|i: int|
                0 <= i < post.num_entries() implies post.is_used(
                (#[trigger] post.entry_at(i)).0,
            ) by {
                let pi: int = if i < idx { i } else { i + 1 };
                assert(pre.is_used(pre.entry_at(pi).0));
            }
        }
        Some(entry.value)
    }

    /// A borrowed view of the API registered under the id, if any.
    pub fn get_api(&self, uuid: &String) -> (r: Option<&Arc<webrtc::api::API>>)
        requires
            self.wf(),
        ensures
            r.is_some() == self.has(uuid@, ResourceKind::Api),
    {
        match self.find_entry(uuid) {
            None => {
                proof {
                    if self.has(uuid@, ResourceKind::Api) {
                        let i = choose|i: int|
                            0 <= i < self.num_entries() && #[trigger] self.entry_at(i) == (
                                uuid@,
                                ResourceKind::Api,
                            );
                    }
                }
                None
            },
            Some(i) => {
                match &self.entries[i].value {
                    Resource::Api(api) => {
                        proof {
                            assert(self.entry_at(i as int) == (uuid@, ResourceKind::Api));
                        }
                        Some(api)
                    },
                    _ => {
                        proof {
                            if self.has(uuid@, ResourceKind::Api) {
                                let j = choose|j: int|
                                    0 <= j < self.num_entries() && #[trigger] self.entry_at(j)
                                        == (uuid@, ResourceKind::Api);
                                if j != i {
                                    assert(self.entry_at(j).0 == self.entry_at(i as int).0);
                                }
                            }
                        }
                        None
                    },
                }
            },
        }
    }

    /// A borrowed view of the connection mailbox registered under the id,
    /// if any.
    pub fn get_peer_connection(&self, uuid: &String) -> (r: Option<
        &tokio::sync::mpsc::Sender<Msg>,
    >)
        requires
            self.wf(),
        ensures
            r.is_some() == self.has(uuid@, ResourceKind::PeerConnectionSender),
    {
        match self.find_entry(uuid) {
            None => {
                proof {
                    if self.has(uuid@, ResourceKind::PeerConnectionSender) {
                        let i = choose|i: int|
                            0 <= i < self.num_entries() && #[trigger] self.entry_at(i) == (
                                uuid@,
                                ResourceKind::PeerConnectionSender,
                            );
                    }
                }
                None
            },
            Some(i) => {
                match &self.entries[i].value {
                    Resource::PeerConnectionSender(tx) => {
                        proof {
                            assert(self.entry_at(i as int) == (
                                uuid@,
                                ResourceKind::PeerConnectionSender,
                            ));
                        }
                        Some(tx)
                    },
                    _ => {
                        proof {
                            if self.has(uuid@, ResourceKind::PeerConnectionSender) {
                                let j = choose|j: int|
                                    0 <= j < self.num_entries() && #[trigger] self.entry_at(j)
                                        == (uuid@, ResourceKind::PeerConnectionSender);
                                if j != i {
                                    assert(self.entry_at(j).0 == self.entry_at(i as int).0);
                                }
                            }
                        }
                        None
                    },
                }
            },
        }
    }

    /// A borrowed view of the track handle registered under the id, if any.
    pub fn get_track_local_static_sample(&self, uuid: &String) -> (r: Option<
        &Arc<webrtc::track::track_local::track_local_static_sample::TrackLocalStaticSample>,
    >)
        requires
            self.wf(),
        ensures
            r.is_some() == self.has(uuid@, ResourceKind::TrackHandle),
    {
        match self.find_entry(uuid) {
            None => {
                proof {
                    if self.has(uuid@, ResourceKind::TrackHandle) {
                        let i = choose|i: int|
                            0 <= i < self.num_entries() && #[trigger] self.entry_at(i) == (
                                uuid@,
                                ResourceKind::TrackHandle,
                            );
                    }
                }
                None
            },
            Some(i) => {
                match &self.entries[i].value {
                    Resource::TrackHandle(track) => {
                        proof {
                            assert(self.entry_at(i as int) == (uuid@, ResourceKind::TrackHandle));
                        }
                        Some(track)
                    },
                    _ => {
                        proof {
                            if self.has(uuid@, ResourceKind::TrackHandle) {
                                let j = choose|j: int|
                                    0 <= j < self.num_entries() && #[trigger] self.entry_at(j)
                                        == (uuid@, ResourceKind::TrackHandle);
                                if j != i {
                                    assert(self.entry_at(j).0 == self.entry_at(i as int).0);
                                }
                            }
                        }
                        None
                    },
                }
            },
        }
    }

    /// Whether the registry still owns a media engine under the id; false
    /// once an API was built from it.
    pub fn media_engine_exists(&self, uuid: &String) -> (r: bool)
        requires
            self.wf(),
        ensures
            r == self.has(uuid@, ResourceKind::MediaEngine),
    {
        self.kind_exists(uuid, ResourceKind::MediaEngine)
    }

    /// Whether the registry still owns an interceptor registry under the
    /// id; false once an API was built from it.
    pub fn registry_exists(&self, uuid: &String) -> (r: bool)
        requires
            self.wf(),
        ensures
            r == self.has(uuid@, ResourceKind::InterceptorRegistry),
    {
        self.kind_exists(uuid, ResourceKind::InterceptorRegistry)
    }

    /// Whether a connection mailbox is registered under the id.
    pub fn peer_connection_exists(&self, uuid: &String) -> (r: bool)
        requires
            self.wf(),
        ensures
            r == self.has(uuid@, ResourceKind::PeerConnectionSender),
    {
        self.kind_exists(uuid, ResourceKind::PeerConnectionSender)
    }

    /// Whether a resource of the given kind is registered under the id.
    pub fn kind_exists(&self, uuid: &String, kind: ResourceKind) -> (r: bool)
        requires
            self.wf(),
        ensures
            r == self.has(uuid@, kind),
    {
        match self.find_entry(uuid) {
            None => {
                proof {
                    if self.has(uuid@, kind) {
                        let i = choose|i: int|
                            0 <= i < self.num_entries() && #[trigger] self.entry_at(i) == (
                                uuid@,
                                kind,
                            );
                    }
                }
                false
            },
            Some(i) => {
                let k = self.entries[i].value.tag();
                proof {
                    assert(self.entry_at(i as int) == (uuid@, k));
                    if k != kind && self.has(uuid@, kind) {
                        let j = choose|j: int|
                            0 <= j < self.num_entries() && #[trigger] self.entry_at(j) == (
                                uuid@,
                                kind,
                            );
                        if j != i {
                            assert(self.entry_at(j).0 == self.entry_at(i as int).0);
                        }
                    }
                }
                k == kind
            },
        }
    }

    /// Creates a media engine, registers the engine's default codecs on it,
    /// and registers it under a fresh id.
    pub fn new_media_engine(&mut self) -> (r: Result<String, SpecterError>)
        requires
            old(self).wf(),
        ensures
            final(self).wf(),
            final(self).cfg() == old(self).cfg(),
            match r {
                Ok(id) => id@.len() == 36 && !old(self).is_used(id@) && adds_entry(
                    *old(self),
                    *final(self),
                    id@,
                    ResourceKind::MediaEngine,
                ),
                Err(e) => (e == SpecterError::WebrtcError || e == SpecterError::DuplicateId)
                    && *final(self) == *old(self),
            },
    {
        let mut engine = media_engine_default();
        match register_default_codecs(&mut engine) {
            Err(_) => {
                return Err(SpecterError::WebrtcError);
            },
            Ok(()) => {},
        }
        let engine_id = gen_uuid();
        if self.id_in_use(&engine_id) {
            return Err(SpecterError::DuplicateId);
        }
        self.insert_entry(engine_id.clone(), Resource::MediaEngine(engine));
        Ok(engine_id)
    }

    /// Builds an interceptor registry wired against a still-owned media
    /// engine and registers it under a fresh id. The engine stays
    /// registered: it is consumed only when an API is built from the pair.
    pub fn new_registry(&mut self, media_engine_uuid: &String) -> (r: Result<String, SpecterError>)
        requires
            old(self).wf(),
        ensures
            final(self).wf(),
            final(self).cfg() == old(self).cfg(),
            match r {
                Ok(id) => old(self).has(media_engine_uuid@, ResourceKind::MediaEngine) && id@.len()
                    == 36 && !old(self).is_used(id@) && adds_entry(
                    *old(self),
                    *final(self),
                    id@,
                    ResourceKind::InterceptorRegistry,
                ) && final(self).has(media_engine_uuid@, ResourceKind::MediaEngine),
                Err(SpecterError::NotFound) => !old(self).has(
                    media_engine_uuid@,
                    ResourceKind::MediaEngine,
                ) && *final(self) == *old(self),
                Err(SpecterError::WebrtcError) => old(self).has(
                    media_engine_uuid@,
                    ResourceKind::MediaEngine,
                ) && same_table(*old(self), *final(self)),
                Err(SpecterError::DuplicateId) => old(self).has(
                    media_engine_uuid@,
                    ResourceKind::MediaEngine,
                ) && same_table(*old(self), *final(self)),
                Err(_) => false,
            },
    {
        let ghost pre = *old(self);
        let idx = match self.find_entry(media_engine_uuid) {
            None => {
                proof {
                    if pre.has(media_engine_uuid@, ResourceKind::MediaEngine) {
                        let i = choose|i: int|
                            0 <= i < pre.num_entries() && #[trigger] pre.entry_at(i) == (
                                media_engine_uuid@,
                                ResourceKind::MediaEngine,
                            );
                    }
                }
                return Err(SpecterError::NotFound);
            },
            Some(i) => i,
        };
        let is_engine = self.entries[idx].value.tag() == ResourceKind::MediaEngine;
        if !is_engine {
            proof {
                if pre.has(media_engine_uuid@, ResourceKind::MediaEngine) {
                    let j = choose|j: int|
                        0 <= j < pre.num_entries() && #[trigger] pre.entry_at(j) == (
                            media_engine_uuid@,
                            ResourceKind::MediaEngine,
                        );
                    if j != idx {
                        assert(pre.entry_at(j).0 == pre.entry_at(idx as int).0);
                    }
                }
            }
            return Err(SpecterError::NotFound);
        }
        proof {
            assert(pre.entry_at(idx as int) == (media_engine_uuid@, ResourceKind::MediaEngine));
        }
        let registry = interceptor_registry_new();
        let wired = match &mut self.entries[idx].value {
            Resource::MediaEngine(engine) => register_default_interceptors(registry, engine),
            _ => {
                return Err(SpecterError::NotFound);
            },
        };
        proof {
            lemma_same_entry_shape(pre, *self, idx as int);
        }
        let registry = match wired {
            Err(_) => {
                return Err(SpecterError::WebrtcError);
            },
            Ok(reg) => reg,
        };
        let registry_id = gen_uuid();
        if self.id_in_use(&registry_id) {
            return Err(SpecterError::DuplicateId);
        }
        let ghost mid = *self;
        self.insert_entry(registry_id.clone(), Resource::InterceptorRegistry(registry));
        proof {
            lemma_adds_entry_trans(pre, mid, *self, registry_id@, ResourceKind::InterceptorRegistry);
        }
        Ok(registry_id)
    }

    /// Builds an API by taking ownership of a media engine and an
    /// interceptor registry — both entries are removed — and registers the
    /// API under a fresh id. On any failure nothing is consumed.
    pub fn new_api(&mut self, media_engine_uuid: &String, registry_uuid: &String) -> (r: Result<
        String,
        SpecterError,
    >)
        requires
            old(self).wf(),
        ensures
            final(self).wf(),
            final(self).cfg() == old(self).cfg(),
            match r {
                Ok(id) => old(self).has(media_engine_uuid@, ResourceKind::MediaEngine) && old(
                    self,
                ).has(registry_uuid@, ResourceKind::InterceptorRegistry) && id@.len() == 36 && !old(
                    self,
                ).is_used(id@) && builds_api(
                    *old(self),
                    *final(self),
                    media_engine_uuid@,
                    registry_uuid@,
                    id@,
                ),
                Err(SpecterError::NotFound) => (!old(self).has(
                    media_engine_uuid@,
                    ResourceKind::MediaEngine,
                ) || !old(self).has(registry_uuid@, ResourceKind::InterceptorRegistry))
                    && *final(self) == *old(self),
                Err(SpecterError::DuplicateId) => *final(self) == *old(self),
                Err(_) => false,
            },
    {
        let ghost pre = *old(self);
        if !self.kind_exists(media_engine_uuid, ResourceKind::MediaEngine) {
            return Err(SpecterError::NotFound);
        }
        if !self.kind_exists(registry_uuid, ResourceKind::InterceptorRegistry) {
            return Err(SpecterError::NotFound);
        }
        let api_id = gen_uuid();
        if self.id_in_use(&api_id) {
            return Err(SpecterError::DuplicateId);
        }
        let engine = match self.take_entry(media_engine_uuid, ResourceKind::MediaEngine) {
            Some(Resource::MediaEngine(m)) => m,
            _ => {
                return Err(SpecterError::NotFound);
            },
        };
        let ghost mid1 = *self;
        proof {
            if media_engine_uuid@ == registry_uuid@ {
                pre.lemma_kind_unique(
                    media_engine_uuid@,
                    ResourceKind::MediaEngine,
                    ResourceKind::InterceptorRegistry,
                );
            }
            assert(media_engine_uuid@ != registry_uuid@);
            assert(mid1.has(registry_uuid@, ResourceKind::InterceptorRegistry));
        }
        let registry = match self.take_entry(registry_uuid, ResourceKind::InterceptorRegistry) {
            Some(Resource::InterceptorRegistry(reg)) => reg,
            _ => {
                return Err(SpecterError::NotFound);
            },
        };
        let ghost mid2 = *self;
        let builder = api_builder_new();
        let builder = api_builder_with_media_engine(builder, engine);
        let builder = api_builder_with_interceptor_registry(builder, registry);
        let api = api_build(builder);
        proof {
            assert(mid1.is_used(api_id@) == pre.is_used(api_id@));
            assert(mid2.is_used(api_id@) == mid1.is_used(api_id@));
            pre.lemma_live_is_used(media_engine_uuid@, ResourceKind::MediaEngine);
            pre.lemma_live_is_used(registry_uuid@, ResourceKind::InterceptorRegistry);
            assert(api_id@ != media_engine_uuid@ && api_id@ != registry_uuid@);
        }
        self.insert_entry(api_id.clone(), Resource::Api(Arc::new(api)));
        proof {
            let post = *self;
            assert forall|k: ResourceKind| !post.has(media_engine_uuid@, k) by {
                assert(!mid1.has(media_engine_uuid@, k));
                assert(mid2.has(media_engine_uuid@, k) == mid1.has(media_engine_uuid@, k));
            }
            assert forall|k: ResourceKind| !post.has(registry_uuid@, k) by {
                assert(!mid2.has(registry_uuid@, k));
            }
            assert forall|id2: Seq<char>, k2: ResourceKind|
                id2 != media_engine_uuid@ && id2 != registry_uuid@ && id2 != api_id@ implies (
            #[trigger] post.has(id2, k2) <==> pre.has(id2, k2)) by {
                assert(mid1.has(id2, k2) == pre.has(id2, k2));
                assert(mid2.has(id2, k2) == mid1.has(id2, k2));
                assert(post.has(id2, k2) == mid2.has(id2, k2));
            }
            assert forall|id2: Seq<char>| #[trigger]
                post.is_used(id2) <==> pre.is_used(id2) || id2 == api_id@ by {
                assert(mid1.is_used(id2) == pre.is_used(id2));
                assert(mid2.is_used(id2) == mid1.is_used(id2));
            }
        }
        Ok(api_id)
    }

    /// Builds a local static-sample track from the given codec and
    /// registers its handle under a fresh id.
    pub fn new_track_local_static_sample(
        &mut self,
        codec: &RtpCodecCapability,
        id: String,
        stream_id: String,
    ) -> (r: Result<String, SpecterError>)
        requires
            old(self).wf(),
        ensures
            final(self).wf(),
            final(self).cfg() == old(self).cfg(),
            match r {
                Ok(track_id) => track_id@.len() == 36 && !old(self).is_used(track_id@)
                    && adds_entry(*old(self), *final(self), track_id@, ResourceKind::TrackHandle),
                Err(e) => e == SpecterError::DuplicateId && *final(self) == *old(self),
            },
    {
        let track = build_track(codec, id, stream_id);
        let track_id = gen_uuid();
        if self.id_in_use(&track_id) {
            return Err(SpecterError::DuplicateId);
        }
        self.insert_entry(track_id.clone(), Resource::TrackHandle(Arc::new(track)));
        Ok(track_id)
    }
}

/// The table after extends the table before by exactly one entry, under a
/// previously unused id; the lifetime record grows by that id.
pub open spec fn adds_entry(pre: State, post: State, id: Seq<char>, k: ResourceKind) -> bool {
    &&& post.has(id, k)
    &&& forall|k2: ResourceKind| k2 != k ==> !post.has(id, k2)
    &&& forall|id2: Seq<char>, k2: ResourceKind|
        id2 != id ==> (#[trigger] post.has(id2, k2) <==> pre.has(id2, k2))
    &&& forall|id2: Seq<char>| #[trigger] post.is_used(id2) <==> pre.is_used(id2) || id2 == id
}

/// The table after is the table before without the given id; the lifetime
/// record is unchanged, so the id can never be registered again.
pub open spec fn removes_entry(pre: State, post: State, id: Seq<char>) -> bool {
    &&& forall|k: ResourceKind| !post.has(id, k)
    &&& forall|id2: Seq<char>, k2: ResourceKind|
        id2 != id ==> (#[trigger] post.has(id2, k2) <==> pre.has(id2, k2))
    &&& forall|id2: Seq<char>| #[trigger] post.is_used(id2) <==> pre.is_used(id2)
}

/// Live entries and their kinds are the same before and after; only a
/// resource's internal value may differ. The lifetime record may have
/// grown by ids that were never registered.
pub open spec fn same_table(pre: State, post: State) -> bool {
    forall|id2: Seq<char>, k2: ResourceKind|
        #[trigger] post.has(id2, k2) <==> pre.has(id2, k2)
}

/// The ownership transfer that builds an API: the media engine and the
/// interceptor registry are consumed, the API appears under the fresh id,
/// and nothing else changes.
pub open spec fn builds_api(
    pre: State,
    post: State,
    engine_id: Seq<char>,
    registry_id: Seq<char>,
    api_id: Seq<char>,
) -> bool {
    &&& forall|k: ResourceKind| !post.has(engine_id, k)
    &&& forall|k: ResourceKind| !post.has(registry_id, k)
    &&& post.has(api_id, ResourceKind::Api)
    &&& forall|k2: ResourceKind| k2 != ResourceKind::Api ==> !post.has(api_id, k2)
    &&& forall|id2: Seq<char>, k2: ResourceKind|
        id2 != engine_id && id2 != registry_id && id2 != api_id ==> (#[trigger] post.has(id2, k2)
            <==> pre.has(id2, k2))
    &&& forall|id2: Seq<char>| #[trigger] post.is_used(id2) <==> pre.is_used(id2) || id2 == api_id
}

/// The ownership-transfer chain consumes for good: once an API is built
/// from a media engine and an interceptor registry, neither id resolves
/// under any kind any more — a later registry build or API build naming the
/// engine id must report that it is not found — and both ids stay in the
/// lifetime record, so no later registration can ever revive them.
pub proof fn lemma_transfer_chain_consumes(
    pre: State,
    post: State,
    engine_id: Seq<char>,
    registry_id: Seq<char>,
    api_id: Seq<char>,
)
    requires
        pre.wf(),
        pre.has(engine_id, ResourceKind::MediaEngine),
        pre.has(registry_id, ResourceKind::InterceptorRegistry),
        builds_api(pre, post, engine_id, registry_id, api_id),
    ensures
        forall|k: ResourceKind| !post.has(engine_id, k),
        forall|k: ResourceKind| !post.has(registry_id, k),
        post.is_used(engine_id),
        post.is_used(registry_id),
{
    pre.lemma_live_is_used(engine_id, ResourceKind::MediaEngine);
    pre.lemma_live_is_used(registry_id, ResourceKind::InterceptorRegistry);
}

/// Closing is not repeatable: once a close removes the mailbox entry, the
/// id resolves under no kind, so a second close of the same id must report
/// that it is not found rather than succeed or emit anything — and the
/// lifetime record still holds the id, so it can never be registered and
/// closed anew.
pub proof fn lemma_close_is_terminal(pre: State, post: State, id: Seq<char>)
    requires
        pre.wf(),
        pre.has(id, ResourceKind::PeerConnectionSender),
        removes_entry(pre, post, id),
    ensures
        forall|k: ResourceKind| !post.has(id, k),
        post.is_used(id),
{
    pre.lemma_live_is_used(id, ResourceKind::PeerConnectionSender);
}

/// In-place mutation of one entry's resource value keeps the whole table
/// shape: every id keeps its kinds and the lifetime record is untouched.
proof fn lemma_same_entry_shape(pre: State, post: State, idx: int)
    requires
        pre.wf(),
        0 <= idx < pre.num_entries(),
        post.num_entries() == pre.num_entries(),
        post.num_used() == pre.num_used(),
        forall|i: int| 0 <= i < pre.num_used() ==> #[trigger] post.used_at(i) == pre.used_at(i),
        forall|i: int| 0 <= i < pre.num_entries() ==> #[trigger] post.entry_at(i) == pre.entry_at(i),
    ensures
        post.wf(),
        same_table(pre, post),
        forall|id2: Seq<char>| #[trigger] post.is_used(id2) <==> pre.is_used(id2),
{
    assert forall|id2: Seq<char>| #[trigger] post.is_used(id2) <==> pre.is_used(id2) by {
        if pre.is_used(id2) {
            let i = choose|i: int| 0 <= i < pre.num_used() && #[trigger] pre.used_at(i) == id2;
            assert(post.used_at(i) == id2);
        }
        if post.is_used(id2) {
            let i = choose|i: int| 0 <= i < post.num_used() && #[trigger] post.used_at(i) == id2;
            assert(pre.used_at(i) == id2);
        }
    }
    assert forall|id2: Seq<char>, k2: ResourceKind|
        #[trigger] post.has(id2, k2) <==> pre.has(id2, k2) by {
        if pre.has(id2, k2) {
            let i = choose|i: int| 0 <= i < pre.num_entries() && #[trigger] pre.entry_at(i) == (
                id2,
                k2,
            );
            assert(post.entry_at(i) == (id2, k2));
        }
        if post.has(id2, k2) {
            let i = choose|i: int| 0 <= i < post.num_entries() && #[trigger] post.entry_at(i) == (
                id2,
                k2,
            );
            assert(pre.entry_at(i) == (id2, k2));
        }
    }
    assert forall|i: int|
        0 <= i < post.num_entries() implies post.is_used((#[trigger] post.entry_at(i)).0) by {
        assert(pre.is_used(pre.entry_at(i).0));
    }
}

/// Inserting a fresh entry into a table whose shape did not change since
/// `pre` adds that entry relative to `pre` as well.
proof fn lemma_adds_entry_trans(pre: State, mid: State, post: State, id: Seq<char>, k: ResourceKind)
    requires
        same_table(pre, mid),
        forall|id2: Seq<char>| #[trigger] mid.is_used(id2) <==> pre.is_used(id2),
        adds_entry(mid, post, id, k),
    ensures
        adds_entry(pre, post, id, k),
{
}

} // verus!
