//! The network-resident state the protocol coordinates: the application
//! registry, the versioned access-control manifest, the network-wide
//! authorization key list, the user's named containers, the dedicated
//! application containers, and the pending-revocation set. Each piece is an
//! independently versioned object owned by an external collaborator; the
//! protocol always re-reads before writing and every write is a
//! compare-and-swap against the version observed at read time.

use vstd::prelude::*;
use crate::assoc::{
    assoc_find, assoc_map, assoc_set, lemma_assoc_map_domain, lemma_assoc_map_index, unique_keys,
};
use crate::entry::AccessContainerEntry;
use crate::hash::{sha3_hash, sha3_of};
use crate::types::{bytes_eq, copy_bytes, AppInfo, AppKeys, AuthError, MDataInfo};

verus! {

/// The state of the external collaborators, each a versioned network object.
pub struct Network {
    /// Registry: one-way hash of the application identifier to its record.
    pub registry: Vec<(Vec<u8>, AppInfo)>,
    /// Pointer to the shared access-control manifest object.
    pub manifest_info: MDataInfo,
    /// Manifest: application identifier to (entry version, entry).
    pub manifest: Vec<(Vec<u8>, (u64, AccessContainerEntry))>,
    /// Network-wide authorization key list, under optimistic versioning.
    pub auth_keys: Vec<u64>,
    pub auth_keys_version: u64,
    /// The user's named containers: logical name to descriptor.
    pub user_containers: Vec<(Vec<u8>, MDataInfo)>,
    /// Dedicated application containers: application identifier to descriptor.
    pub app_containers: Vec<(Vec<u8>, MDataInfo)>,
    /// Applications whose revocation is pending.
    pub revocation_queue: Vec<Vec<u8>>,
    /// Client bootstrap configuration handed out in credentials.
    pub bootstrap_config: u64,
}

impl Network {
    /// The registry as a map from identifier hash to record.
    pub open spec fn registry_map(&self) -> Map<Seq<u8>, AppInfo> {
        assoc_map(self.registry@)
    }

    /// The manifest as a map from application identifier to versioned entry.
    pub open spec fn manifest_map(&self) -> Map<Seq<u8>, (u64, AccessContainerEntry)> {
        assoc_map(self.manifest@)
    }

    /// The user's named containers as a map.
    pub open spec fn user_map(&self) -> Map<Seq<u8>, MDataInfo> {
        assoc_map(self.user_containers@)
    }

    /// The dedicated application containers as a map.
    pub open spec fn app_container_map(&self) -> Map<Seq<u8>, MDataInfo> {
        assoc_map(self.app_containers@)
    }

    /// Whether the application's revocation is pending.
    pub open spec fn rev_pending(&self, app_id: Seq<u8>) -> bool {
        exists|i: int| 0 <= i < self.revocation_queue@.len() && self.revocation_queue@[i]@ == app_id
    }

    /// Well-formedness: every store has pairwise-distinct keys and every
    /// manifest entry is itself well-formed.
    pub open spec fn wf(&self) -> bool {
        &&& unique_keys(self.registry@)
        &&& unique_keys(self.manifest@)
        &&& unique_keys(self.user_containers@)
        &&& unique_keys(self.app_containers@)
        &&& forall|k: Seq<u8>|
            self.manifest_map().contains_key(k) ==> (#[trigger] self.manifest_map()[k]).1.wf()
    }

    /// A fresh network owner's state: every store empty.
    pub fn new(manifest_info: MDataInfo, bootstrap_config: u64) -> (r: Network)
        ensures
            r.wf(),
            r.registry_map() == Map::<Seq<u8>, AppInfo>::empty(),
            r.manifest_map() == Map::<Seq<u8>, (u64, AccessContainerEntry)>::empty(),
            r.user_map() == Map::<Seq<u8>, MDataInfo>::empty(),
            r.app_container_map() == Map::<Seq<u8>, MDataInfo>::empty(),
            r.auth_keys@ == Seq::<u64>::empty(),
            r.auth_keys_version == 0,
            forall|id: Seq<u8>| !r.rev_pending(id),
            r.manifest_info == manifest_info,
            r.bootstrap_config == bootstrap_config,
    {
        Network {
            registry: Vec::new(),
            manifest_info,
            manifest: Vec::new(),
            auth_keys: Vec::new(),
            auth_keys_version: 0,
            user_containers: Vec::new(),
            app_containers: Vec::new(),
            revocation_queue: Vec::new(),
            bootstrap_config,
        }
    }

    /// The registry record stored under the given identifier hash.
    pub fn registry_get(&self, hash: &Vec<u8>) -> (r: Option<&AppInfo>)
        requires
            self.wf(),
        ensures
            match r {
                Some(a) => self.registry_map().contains_key(hash@) && *a
                    == self.registry_map()[hash@],
                None => !self.registry_map().contains_key(hash@),
            },
    {
        proof {
            lemma_assoc_map_domain(self.registry@, hash@);
        }
        match assoc_find(&self.registry, hash) {
            Some(i) => {
                proof {
                    lemma_assoc_map_index(self.registry@, i as int);
                }
                Some(&self.registry[i].1)
            },
            None => None,
        }
    }

    /// Insert a record into the registry under the hash of its identifier.
    /// Fails, changing nothing, when a record for that hash already exists.
    pub fn insert_app(&mut self, app: AppInfo) -> (r: Result<(), AuthError>)
        requires
            old(self).wf(),
        ensures
            final(self).wf(),
            old(self).registry_map().contains_key(sha3_of(app.info.id@)) ==> r == Err::<(),
                AuthError,
            >(AuthError::AlreadyExists) && *final(self) == *old(self),
            !old(self).registry_map().contains_key(sha3_of(app.info.id@)) ==> r == Ok::<(),
                AuthError,
            >(()) && final(self).registry_map() == old(self).registry_map().insert(
                sha3_of(app.info.id@),
                app,
            ) && eq_except_registry(*old(self), *final(self)),
    {
        let hash = sha3_hash(&app.info.id);
        proof {
            lemma_assoc_map_domain(self.registry@, hash@);
        }
        if assoc_find(&self.registry, &hash).is_some() {
            return Err(AuthError::AlreadyExists);
        }
        assoc_set(&mut self.registry, hash, app);
        proof {
            lemma_entries_wf_unchanged(*old(self), *self);
        }
        Ok(())
    }

    /// Pointer to the access-control manifest object.
    pub fn access_container(&self) -> (r: MDataInfo)
        ensures
            r == self.manifest_info,
    {
        self.manifest_info
    }

    /// Read the manifest's entry for an application together with its
    /// version; absent when the application holds no live permissions.
    pub fn access_container_entry(&self, app_id: &Vec<u8>) -> (r: Option<(u64, AccessContainerEntry)>)
        requires
            self.wf(),
        ensures
            match r {
                Some(p) => {
                    &&& self.manifest_map().contains_key(app_id@)
                    &&& p.0 == self.manifest_map()[app_id@].0
                    &&& p.1@ == self.manifest_map()[app_id@].1@
                    &&& p.1.wf()
                },
                None => !self.manifest_map().contains_key(app_id@),
            },
    {
        proof {
            lemma_assoc_map_domain(self.manifest@, app_id@);
        }
        match assoc_find(&self.manifest, app_id) {
            Some(i) => {
                proof {
                    lemma_assoc_map_index(self.manifest@, i as int);
                    assert(self.manifest_map().contains_key(self.manifest@[i as int].0@));
                    assert((self.manifest_map()[self.manifest@[i as int].0@]).1.wf());
                }
                let stored = &self.manifest[i].1;
                Some((stored.0, stored.1.duplicate()))
            },
            None => None,
        }
    }

    /// Whether a write of the manifest entry for `app_id` at `version` meets
    /// the compare-and-swap rule: a fresh insert writes at version 0, an
    /// update writes at exactly one past the entry's current version.
    pub open spec fn cas_ok(
        m: Map<Seq<u8>, (u64, AccessContainerEntry)>,
        app_id: Seq<u8>,
        version: u64,
    ) -> bool {
        if m.contains_key(app_id) {
            version == m[app_id].0 + 1
        } else {
            version == 0
        }
    }

    /// Write an application's manifest entry at an expected version. The
    /// write succeeds exactly when the version meets the compare-and-swap
    /// rule; otherwise it fails with a version conflict and changes nothing.
    pub fn put_access_container_entry(
        &mut self,
        app_id: &Vec<u8>,
        entry: AccessContainerEntry,
        version: u64,
    ) -> (r: Result<(), AuthError>)
        requires
            old(self).wf(),
            entry.wf(),
        ensures
            final(self).wf(),
            Self::cas_ok(old(self).manifest_map(), app_id@, version) ==> r == Ok::<(),
                AuthError,
            >(()) && final(self).manifest_map() == old(self).manifest_map().insert(
                app_id@,
                (version, entry),
            ) && eq_except_manifest(*old(self), *final(self)),
            !Self::cas_ok(old(self).manifest_map(), app_id@, version) ==> r == Err::<(),
                AuthError,
            >(AuthError::VersionConflict) && *final(self) == *old(self),
    {
        proof {
            lemma_assoc_map_domain(self.manifest@, app_id@);
        }
        let ok: bool = match assoc_find(&self.manifest, app_id) {
            Some(i) => {
                proof {
                    lemma_assoc_map_index(self.manifest@, i as int);
                }
                version >= 1 && self.manifest[i].1.0 == version - 1
            },
            None => version == 0,
        };
        if !ok {
            return Err(AuthError::VersionConflict);
        }
        let ghost m0 = self.manifest_map();
        assoc_set(&mut self.manifest, copy_bytes(app_id), (version, entry));
        proof {
            assert forall|k: Seq<u8>| final(self).manifest_map().contains_key(k) implies (
            #[trigger] final(self).manifest_map()[k]).1.wf() by {
                if k != app_id@ {
                    assert(final(self).manifest_map()[k] == m0[k]);
                }
            }
        }
        Ok(())
    }

    /// Remove an application's manifest entry. Models the revocation
    /// executor's effect on the manifest; the authorization protocol itself
    /// never calls it.
    pub fn remove_access_container_entry(&mut self, app_id: &Vec<u8>)
        requires
            old(self).wf(),
        ensures
            final(self).wf(),
            final(self).manifest_map() == old(self).manifest_map().remove(app_id@),
            eq_except_manifest(*old(self), *final(self)),
    {
        let ghost m0 = self.manifest_map();
        crate::assoc::assoc_remove(&mut self.manifest, app_id);
        proof {
            assert forall|k: Seq<u8>| final(self).manifest_map().contains_key(k) implies (
            #[trigger] final(self).manifest_map()[k]).1.wf() by {
                assert(final(self).manifest_map()[k] == m0[k]);
            }
        }
    }

    /// Current version of the network-wide authorization key list.
    pub fn list_auth_keys_version(&self) -> (r: u64)
        ensures
            r == self.auth_keys_version,
    {
        self.auth_keys_version
    }

    /// Append a key to the authorization key list at an expected version.
    /// Succeeds exactly when the version is one past the list's current
    /// version; otherwise fails with a version conflict and changes nothing.
    pub fn ins_auth_key(&mut self, key: u64, version: u64) -> (r: Result<(), AuthError>)
        requires
            old(self).wf(),
        ensures
            final(self).wf(),
            version == old(self).auth_keys_version + 1 ==> r == Ok::<(), AuthError>(())
                && final(self).auth_keys@ == old(self).auth_keys@.push(key)
                && final(self).auth_keys_version == version
                && eq_except_auth_keys(*old(self), *final(self)),
            version != old(self).auth_keys_version + 1 ==> r == Err::<(), AuthError>(
                AuthError::VersionConflict,
            ) && *final(self) == *old(self),
    {
        if !(version >= 1 && self.auth_keys_version == version - 1) {
            return Err(AuthError::VersionConflict);
        }
        self.auth_keys.push(key);
        self.auth_keys_version = version;
        proof {
            lemma_entries_wf_unchanged(*old(self), *self);
        }
        Ok(())
    }

    /// Fetch the application's dedicated container, creating it if absent.
    /// Idempotent: an existing descriptor is returned unchanged; only when
    /// none exists is the freshly provisioned one recorded and returned.
    pub fn fetch_app_container(&mut self, app_id: &Vec<u8>, fresh: MDataInfo) -> (r: MDataInfo)
        requires
            old(self).wf(),
        ensures
            final(self).wf(),
            old(self).app_container_map().contains_key(app_id@)
                ==> r == old(self).app_container_map()[app_id@] && *final(self) == *old(self),
            !old(self).app_container_map().contains_key(app_id@) ==> r == fresh
                && final(self).app_container_map() == old(self).app_container_map().insert(
                app_id@,
                fresh,
            ) && eq_except_app_containers(*old(self), *final(self)),
    {
        proof {
            lemma_assoc_map_domain(self.app_containers@, app_id@);
        }
        match assoc_find(&self.app_containers, app_id) {
            Some(i) => {
                proof {
                    lemma_assoc_map_index(self.app_containers@, i as int);
                }
                self.app_containers[i].1
            },
            None => {
                assoc_set(&mut self.app_containers, copy_bytes(app_id), fresh);
                proof {
                    lemma_entries_wf_unchanged(*old(self), *self);
                }
                fresh
            },
        }
    }

    /// The descriptor of one of the user's named containers.
    pub fn user_container(&self, name: &Vec<u8>) -> (r: Option<MDataInfo>)
        requires
            self.wf(),
        ensures
            match r {
                Some(info) => self.user_map().contains_key(name@) && info == self.user_map()[name@],
                None => !self.user_map().contains_key(name@),
            },
    {
        proof {
            lemma_assoc_map_domain(self.user_containers@, name@);
        }
        match assoc_find(&self.user_containers, name) {
            Some(i) => {
                proof {
                    lemma_assoc_map_index(self.user_containers@, i as int);
                }
                Some(self.user_containers[i].1)
            },
            None => None,
        }
    }

    /// Record one of the user's named containers.
    pub fn add_user_container(&mut self, name: Vec<u8>, info: MDataInfo)
        requires
            old(self).wf(),
        ensures
            final(self).wf(),
            final(self).user_map() == old(self).user_map().insert(name@, info),
            eq_except_user_containers(*old(self), *final(self)),
    {
        assoc_set(&mut self.user_containers, name, info);
        proof {
            lemma_entries_wf_unchanged(*old(self), *self);
        }
    }

    /// Whether the application's revocation is pending.
    pub fn revocation_pending(&self, app_id: &Vec<u8>) -> (r: bool)
        ensures
            r == self.rev_pending(app_id@),
    {
        let n = self.revocation_queue.len();
        let mut i: usize = 0;
        while i < n
            invariant
                n == self.revocation_queue@.len(),
                i <= n,
                forall|j: int| 0 <= j < i ==> self.revocation_queue@[j]@ != app_id@,
            decreases n - i,
        {
            if bytes_eq(&self.revocation_queue[i], app_id) {
                return true;
            }
            i += 1;
        }
        false
    }

    /// Mark an application's revocation as pending.
    pub fn push_revocation(&mut self, app_id: Vec<u8>)
        requires
            old(self).wf(),
        ensures
            final(self).wf(),
            final(self).revocation_queue@ == old(self).revocation_queue@.push(app_id),
            final(self).rev_pending(app_id@),
            forall|id: Seq<u8>| old(self).rev_pending(id) ==> final(self).rev_pending(id),
            eq_except_revocation_queue(*old(self), *final(self)),
    {
        self.revocation_queue.push(app_id);
        proof {
            lemma_entries_wf_unchanged(*old(self), *self);
            let n = self.revocation_queue@.len() - 1;
            assert(self.revocation_queue@[n]@ == app_id@);
            assert forall|id: Seq<u8>| old(self).rev_pending(id) implies final(self).rev_pending(
                id,
            ) by {
                let i = choose|i: int|
                    0 <= i < old(self).revocation_queue@.len() && old(self).revocation_queue@[i]@
                        == id;
                assert(self.revocation_queue@[i]@ == id);
            }
        }
    }

    /// The keys stored in the registry for an application identifier.
    pub fn registry_keys_for(&self, app_id: &Vec<u8>) -> (r: Option<AppKeys>)
        requires
            self.wf(),
        ensures
            match r {
                Some(keys) => self.registry_map().contains_key(sha3_of(app_id@)) && keys
                    == self.registry_map()[sha3_of(app_id@)].keys,
                None => !self.registry_map().contains_key(sha3_of(app_id@)),
            },
    {
        let hash = sha3_hash(app_id);
        match self.registry_get(&hash) {
            Some(app) => Some(app.keys),
            None => None,
        }
    }

    /// The current version of an application's manifest entry, if any.
    pub fn manifest_version_of(&self, app_id: &Vec<u8>) -> (r: Option<u64>)
        requires
            self.wf(),
        ensures
            match r {
                Some(v) => self.manifest_map().contains_key(app_id@) && v
                    == self.manifest_map()[app_id@].0,
                None => !self.manifest_map().contains_key(app_id@),
            },
    {
        match self.access_container_entry(app_id) {
            Some(p) => Some(p.0),
            None => None,
        }
    }
}

/// Well-formedness of the manifest's entries carries over to a state whose
/// manifest is unchanged.
pub proof fn lemma_entries_wf_unchanged(a: Network, b: Network)
    requires
        a.wf(),
        b.manifest == a.manifest,
    ensures
        forall|k: Seq<u8>|
            b.manifest_map().contains_key(k) ==> (#[trigger] b.manifest_map()[k]).1.wf(),
{
    assert(b.manifest_map() == a.manifest_map());
    assert forall|k: Seq<u8>| b.manifest_map().contains_key(k) implies (
    #[trigger] b.manifest_map()[k]).1.wf() by {
        assert((a.manifest_map()[k]).1.wf());
    }
}

/// All stores but the registry are unchanged.
pub open spec fn eq_except_registry(a: Network, b: Network) -> bool {
    &&& b.manifest_info == a.manifest_info
    &&& b.manifest == a.manifest
    &&& b.auth_keys == a.auth_keys
    &&& b.auth_keys_version == a.auth_keys_version
    &&& b.user_containers == a.user_containers
    &&& b.app_containers == a.app_containers
    &&& b.revocation_queue == a.revocation_queue
    &&& b.bootstrap_config == a.bootstrap_config
}

/// All stores but the manifest's entries are unchanged.
pub open spec fn eq_except_manifest(a: Network, b: Network) -> bool {
    &&& b.registry == a.registry
    &&& b.manifest_info == a.manifest_info
    &&& b.auth_keys == a.auth_keys
    &&& b.auth_keys_version == a.auth_keys_version
    &&& b.user_containers == a.user_containers
    &&& b.app_containers == a.app_containers
    &&& b.revocation_queue == a.revocation_queue
    &&& b.bootstrap_config == a.bootstrap_config
}

/// All stores but the authorization key list are unchanged.
pub open spec fn eq_except_auth_keys(a: Network, b: Network) -> bool {
    &&& b.registry == a.registry
    &&& b.manifest_info == a.manifest_info
    &&& b.manifest == a.manifest
    &&& b.user_containers == a.user_containers
    &&& b.app_containers == a.app_containers
    &&& b.revocation_queue == a.revocation_queue
    &&& b.bootstrap_config == a.bootstrap_config
}

/// All stores but the dedicated-container table are unchanged.
pub open spec fn eq_except_app_containers(a: Network, b: Network) -> bool {
    &&& b.registry == a.registry
    &&& b.manifest_info == a.manifest_info
    &&& b.manifest == a.manifest
    &&& b.auth_keys == a.auth_keys
    &&& b.auth_keys_version == a.auth_keys_version
    &&& b.user_containers == a.user_containers
    &&& b.revocation_queue == a.revocation_queue
    &&& b.bootstrap_config == a.bootstrap_config
}

/// All stores but the user-container table are unchanged.
pub open spec fn eq_except_user_containers(a: Network, b: Network) -> bool {
    &&& b.registry == a.registry
    &&& b.manifest_info == a.manifest_info
    &&& b.manifest == a.manifest
    &&& b.auth_keys == a.auth_keys
    &&& b.auth_keys_version == a.auth_keys_version
    &&& b.app_containers == a.app_containers
    &&& b.revocation_queue == a.revocation_queue
    &&& b.bootstrap_config == a.bootstrap_config
}

/// All stores but the revocation queue are unchanged.
pub open spec fn eq_except_revocation_queue(a: Network, b: Network) -> bool {
    &&& b.registry == a.registry
    &&& b.manifest_info == a.manifest_info
    &&& b.manifest == a.manifest
    &&& b.auth_keys == a.auth_keys
    &&& b.auth_keys_version == a.auth_keys_version
    &&& b.user_containers == a.user_containers
    &&& b.app_containers == a.app_containers
    &&& b.bootstrap_config == a.bootstrap_config
}

} // verus!
