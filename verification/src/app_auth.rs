//! The authorization protocol: state resolution, the revocation guard, the
//! manifest read-modify-write, and the register and re-grant pipelines.

use vstd::prelude::*;
use crate::entry::{
    insert_app_container, with_dedicated, AccessContainerEntry,
};
use crate::hash::{sha3_hash, sha3_of};
use crate::network::{eq_except_manifest, Network};
use crate::types::{
    copy_app_exchange_info, copy_app_info, AppInfo, AppKeys, AppState, AuthError, AuthGranted,
    AuthReq, MDataInfo, PermissionSet,
};

verus! {

/// The three-way classification of an application: no registry record means
/// it was never registered; a record plus a live manifest entry means it is
/// authorized; a record without a manifest entry means it was revoked.
pub open spec fn app_state_of(net: Network, app_id: Seq<u8>) -> AppState {
    if !net.registry_map().contains_key(sha3_of(app_id)) {
        AppState::NotAuthenticated
    } else if net.manifest_map().contains_key(app_id) {
        AppState::Authenticated
    } else {
        AppState::Revoked
    }
}

/// The version at which the manifest entry for `app_id` is written next: a
/// fresh insert writes at 0, an update at one past the current version.
pub open spec fn cas_target(
    m: Map<Seq<u8>, (u64, AccessContainerEntry)>,
    app_id: Seq<u8>,
) -> int {
    if m.contains_key(app_id) {
        m[app_id].0 + 1
    } else {
        0
    }
}

/// The manifest entry currently held for an application, empty when absent.
pub open spec fn prior_entry_of(net: Network, app_id: Seq<u8>) -> Map<
    Seq<u8>,
    (MDataInfo, PermissionSet),
> {
    if net.manifest_map().contains_key(app_id) {
        net.manifest_map()[app_id].1@
    } else {
        Map::empty()
    }
}

/// The descriptor the provisioner hands back for an application's dedicated
/// container: the recorded one when it exists, else the fresh one.
pub open spec fn dedicated_desc_of(net: Network, app_id: Seq<u8>, fresh: MDataInfo) -> MDataInfo {
    if net.app_container_map().contains_key(app_id) {
        net.app_container_map()[app_id]
    } else {
        fresh
    }
}

/// The credential bundle built from a network state and an application's
/// keys: the keys, the bootstrap configuration, and the manifest pointer.
pub open spec fn granted_of(net: Network, keys: AppKeys) -> AuthGranted {
    AuthGranted {
        app_keys: keys,
        bootstrap_config: net.bootstrap_config,
        access_container: net.manifest_info,
    }
}

/// Whether every requested container name resolves to one of the user's
/// containers.
pub open spec fn all_resolvable(
    user: Map<Seq<u8>, MDataInfo>,
    req: Seq<(Vec<u8>, PermissionSet)>,
) -> bool {
    forall|i: int| 0 <= i < req.len() ==> user.contains_key(#[trigger] req[i].0@)
}

/// The entry built from a request's container permissions: each requested
/// name mapped to its descriptor and the requested permission set; a later
/// request for the same name shadows an earlier one.
pub open spec fn resolved_perms(
    user: Map<Seq<u8>, MDataInfo>,
    req: Seq<(Vec<u8>, PermissionSet)>,
) -> Map<Seq<u8>, (MDataInfo, PermissionSet)>
    decreases req.len(),
{
    if req.len() == 0 {
        Map::empty()
    } else {
        resolved_perms(user, req.drop_last()).insert(
            req.last().0@,
            (user[req.last().0@], req.last().1),
        )
    }
}

/// The manifest after the entry for `app_id` was written with view `v` at
/// the compare-and-swap target version: that entry present, every other
/// untouched.
pub open spec fn manifest_written(
    pre: Network,
    post: Network,
    app_id: Seq<u8>,
    v: Map<Seq<u8>, (MDataInfo, PermissionSet)>,
) -> bool {
    &&& post.manifest_map().contains_key(app_id)
    &&& post.manifest_map()[app_id].0 == cas_target(pre.manifest_map(), app_id)
    &&& post.manifest_map()[app_id].1@ == v
    &&& forall|k: Seq<u8>|
        k != app_id ==> (post.manifest_map().contains_key(k) <==> pre.manifest_map().contains_key(
            k,
        ))
    &&& forall|k: Seq<u8>|
        k != app_id && pre.manifest_map().contains_key(k) ==> post.manifest_map()[k]
            == pre.manifest_map()[k]
}

/// The dedicated-container table after the provisioner ran for `app_id`: its
/// descriptor present, recorded fresh only when none existed.
pub open spec fn provisioned(pre: Network, post: Network, app_id: Seq<u8>, fresh: MDataInfo) -> bool {
    if pre.app_container_map().contains_key(app_id) {
        post.app_containers == pre.app_containers
    } else {
        post.app_container_map() == pre.app_container_map().insert(app_id, fresh)
    }
}

/// The entry the register pipeline writes: the resolved request permissions,
/// plus the dedicated container under `apps/<id>` when one was requested.
pub open spec fn register_entry_view(
    pre: Network,
    app_id: Seq<u8>,
    req: Seq<(Vec<u8>, PermissionSet)>,
    app_container: bool,
    fresh: MDataInfo,
) -> Map<Seq<u8>, (MDataInfo, PermissionSet)> {
    let base = resolved_perms(pre.user_map(), req);
    if app_container {
        with_dedicated(base, app_id, dedicated_desc_of(pre, app_id, fresh))
    } else {
        base
    }
}

/// Effects of a completed register pipeline on everything but the registry:
/// the signing key appended to the authorization list at one past its
/// version, the manifest entry written, the dedicated container provisioned
/// when requested, and all else untouched.
pub open spec fn register_effects(
    pre: Network,
    post: Network,
    app_id: Seq<u8>,
    sign_pk: u64,
    req: Seq<(Vec<u8>, PermissionSet)>,
    app_container: bool,
    fresh: MDataInfo,
) -> bool {
    &&& post.auth_keys@ == pre.auth_keys@.push(sign_pk)
    &&& post.auth_keys_version == pre.auth_keys_version + 1
    &&& manifest_written(pre, post, app_id, register_entry_view(pre, app_id, req, app_container, fresh))
    &&& if app_container {
        provisioned(pre, post, app_id, fresh)
    } else {
        post.app_containers == pre.app_containers
    }
    &&& post.manifest_info == pre.manifest_info
    &&& post.user_containers == pre.user_containers
    &&& post.revocation_queue == pre.revocation_queue
    &&& post.bootstrap_config == pre.bootstrap_config
}

/// Effects of a register pipeline that aborted after its first step because
/// a requested container name did not resolve: the signing key stays
/// appended — no compensating rollback is performed — and nothing else
/// changed.
pub open spec fn register_failed_effects(pre: Network, post: Network, sign_pk: u64) -> bool {
    &&& post.auth_keys@ == pre.auth_keys@.push(sign_pk)
    &&& post.auth_keys_version == pre.auth_keys_version + 1
    &&& post.manifest == pre.manifest
    &&& post.manifest_info == pre.manifest_info
    &&& post.user_containers == pre.user_containers
    &&& post.app_containers == pre.app_containers
    &&& post.revocation_queue == pre.revocation_queue
    &&& post.bootstrap_config == pre.bootstrap_config
}

/// Effects of a re-grant that provisions the dedicated container: the
/// manifest entry re-written as its prior value plus `apps/<id>` under the
/// full permission set, the container provisioned, and all else untouched.
pub open spec fn regrant_container_effects(
    pre: Network,
    post: Network,
    app_id: Seq<u8>,
    fresh: MDataInfo,
) -> bool {
    &&& manifest_written(
        pre,
        post,
        app_id,
        with_dedicated(prior_entry_of(pre, app_id), app_id, dedicated_desc_of(pre, app_id, fresh)),
    )
    &&& provisioned(pre, post, app_id, fresh)
    &&& post.registry == pre.registry
    &&& post.manifest_info == pre.manifest_info
    &&& post.auth_keys == pre.auth_keys
    &&& post.auth_keys_version == pre.auth_keys_version
    &&& post.user_containers == pre.user_containers
    &&& post.revocation_queue == pre.revocation_queue
    &&& post.bootstrap_config == pre.bootstrap_config
}

/// Classify an application against the registry and the manifest.
pub fn app_state(net: &Network, app_id: &Vec<u8>) -> (s: AppState)
    requires
        net.wf(),
    ensures
        s == app_state_of(*net, app_id@),
{
    let hash = sha3_hash(app_id);
    match net.registry_get(&hash) {
        Some(_) => match net.access_container_entry(app_id) {
            Some(_) => AppState::Authenticated,
            None => AppState::Revoked,
        },
        None => AppState::NotAuthenticated,
    }
}

/// The revocation guard: authorization may proceed only for an application
/// whose revocation is not pending.
pub fn check_revocation(net: &Network, app_id: &Vec<u8>) -> (r: Result<(), AuthError>)
    ensures
        r is Ok <==> !net.rev_pending(app_id@),
        r is Err ==> r == Err::<(), AuthError>(AuthError::PendingRevocation),
{
    if net.revocation_pending(app_id) {
        Err(AuthError::PendingRevocation)
    } else {
        Ok(())
    }
}

/// Resolve a request's container permissions: each requested logical name
/// becomes its container's descriptor with the requested permission set.
/// Fails when some requested name is not one of the user's containers.
pub fn update_container_perms(
    net: &Network,
    permissions: &Vec<(Vec<u8>, PermissionSet)>,
) -> (r: Result<AccessContainerEntry, AuthError>)
    requires
        net.wf(),
    ensures
        match r {
            Ok(e) => {
                &&& all_resolvable(net.user_map(), permissions@)
                &&& e.wf()
                &&& e@ == resolved_perms(net.user_map(), permissions@)
            },
            Err(err) => {
                &&& !all_resolvable(net.user_map(), permissions@)
                &&& err == AuthError::NoSuchContainer
            },
        },
{
    let mut entry = AccessContainerEntry::new();
    let n = permissions.len();
    let mut i: usize = 0;
    while i < n
        invariant
            net.wf(),
            n == permissions@.len(),
            i <= n,
            entry.wf(),
            entry@ == resolved_perms(net.user_map(), permissions@.subrange(0, i as int)),
            forall|j: int| 0 <= j < i ==> net.user_map().contains_key(#[trigger] permissions@[j].0@),
        decreases n - i,
    {
        let name = &permissions[i].0;
        let ps = permissions[i].1;
        match net.user_container(name) {
            Some(info) => {
                entry.set(crate::types::copy_bytes(name), (info, ps));
                proof {
                    assert(permissions@.subrange(0, i + 1 as int).drop_last() =~= permissions@
                        .subrange(0, i as int));
                }
            },
            None => {
                return Err(AuthError::NoSuchContainer);
            },
        }
        i += 1;
    }
    proof {
        assert(permissions@.subrange(0, n as int) =~= permissions@);
    }
    Ok(entry)
}

/// The manifest read-modify-write: read the entry's current version, write
/// the supplied entry at the compare-and-swap target — version 0 for a fresh
/// insert, one past the current version otherwise — and return the manifest
/// pointer. The write is not retried: a concurrent writer between read and
/// write surfaces as a version-conflict failure of the whole attempt.
pub fn update_access_container(
    net: &mut Network,
    app: &AppInfo,
    permissions: AccessContainerEntry,
) -> (r: Result<MDataInfo, AuthError>)
    requires
        old(net).wf(),
        permissions.wf(),
        old(net).manifest_map().contains_key(app.info.id@) ==> old(net).manifest_map()[app.info.id@].0
            < u64::MAX,
    ensures
        final(net).wf(),
        r == Ok::<MDataInfo, AuthError>(old(net).manifest_info),
        final(net).manifest_map().contains_key(app.info.id@),
        final(net).manifest_map()[app.info.id@].0 == cas_target(old(net).manifest_map(), app.info.id@),
        final(net).manifest_map()[app.info.id@].1 == permissions,
        final(net).manifest_map() == old(net).manifest_map().insert(
            app.info.id@,
            final(net).manifest_map()[app.info.id@],
        ),
        eq_except_manifest(*old(net), *final(net)),
{
    let dir = net.access_container();
    let version: u64 = match net.access_container_entry(&app.info.id) {
        // Updating an existing entry
        Some((version, _)) => version + 1,
        // Adding a new access container entry
        None => 0,
    };
    match net.put_access_container_entry(&app.info.id, permissions, version) {
        Ok(()) => Ok(dir),
        Err(e) => Err(e),
    }
}

/// Re-grant for an already-authorized application. Without a dedicated-
/// container request this is read-only: the credential is built from the
/// stored keys and the manifest pointer and nothing is written. With one,
/// the dedicated container is provisioned, merged into the current entry,
/// and the entry re-written once.
pub fn authenticated_app(
    net: &mut Network,
    app: &AppInfo,
    app_container: bool,
    fresh_container: MDataInfo,
) -> (r: Result<AuthGranted, AuthError>)
    requires
        old(net).wf(),
        old(net).manifest_map().contains_key(app.info.id@) ==> old(net).manifest_map()[app.info.id@].0
            < u64::MAX,
    ensures
        final(net).wf(),
        r == Ok::<AuthGranted, AuthError>(granted_of(*old(net), app.keys)),
        !app_container ==> *final(net) == *old(net),
        app_container ==> regrant_container_effects(*old(net), *final(net), app.info.id@, fresh_container),
{
    let bootstrap_config = net.bootstrap_config;
    let dir: MDataInfo;
    if app_container {
        let perms = match net.access_container_entry(&app.info.id) {
            Some((_, perms)) => perms,
            None => AccessContainerEntry::new(),
        };
        let mdata_info = net.fetch_app_container(&app.info.id, fresh_container);
        let perms = insert_app_container(perms, &app.info.id, mdata_info);
        match update_access_container(net, app, perms) {
            Ok(d) => {
                dir = d;
            },
            Err(e) => {
                return Err(e);
            },
        }
    } else {
        dir = net.access_container();
    }
    Ok(AuthGranted { app_keys: app.keys, bootstrap_config, access_container: dir })
}

/// Register a new or previously revoked application, in order: append its
/// signing key to the authorization key list at one past the list's current
/// version; resolve the requested container permissions; provision and merge
/// the dedicated container when requested; write the manifest entry; return
/// the credential. A failure aborts the pipeline with no rollback of the
/// key-list append.
pub fn authenticate_new_app(
    net: &mut Network,
    app: &AppInfo,
    app_container: bool,
    permissions: &Vec<(Vec<u8>, PermissionSet)>,
    fresh_container: MDataInfo,
) -> (r: Result<AuthGranted, AuthError>)
    requires
        old(net).wf(),
        old(net).auth_keys_version < u64::MAX,
        old(net).manifest_map().contains_key(app.info.id@) ==> old(net).manifest_map()[app.info.id@].0
            < u64::MAX,
    ensures
        final(net).wf(),
        final(net).registry == old(net).registry,
        all_resolvable(old(net).user_map(), permissions@) ==> r == Ok::<AuthGranted, AuthError>(
            granted_of(*old(net), app.keys),
        ) && register_effects(
            *old(net),
            *final(net),
            app.info.id@,
            app.keys.sign_pk,
            permissions@,
            app_container,
            fresh_container,
        ),
        !all_resolvable(old(net).user_map(), permissions@) ==> r == Err::<AuthGranted, AuthError>(
            AuthError::NoSuchContainer,
        ) && register_failed_effects(*old(net), *final(net), app.keys.sign_pk),
{
    let version = net.list_auth_keys_version();
    match net.ins_auth_key(app.keys.sign_pk, version + 1) {
        Ok(()) => (),
        Err(e) => {
            return Err(e);
        },
    }
    let perms = match update_container_perms(net, permissions) {
        Ok(perms) => perms,
        Err(e) => {
            return Err(e);
        },
    };
    let perms = if app_container {
        let mdata_info = net.fetch_app_container(&app.info.id, fresh_container);
        insert_app_container(perms, &app.info.id, mdata_info)
    } else {
        perms
    };
    let dir = match update_access_container(net, app, perms) {
        Ok(dir) => dir,
        Err(e) => {
            return Err(e);
        },
    };
    Ok(AuthGranted {
        app_keys: app.keys,
        bootstrap_config: net.bootstrap_config,
        access_container: dir,
    })
}

/// The keys the registry stores for an application identifier.
pub open spec fn stored_keys(net: Network, app_id: Seq<u8>) -> AppKeys {
    net.registry_map()[sha3_of(app_id)].keys
}

/// The registry after a record was minted for `app_id` under `keys`: that
/// record present under the hash of the identifier, every other untouched.
pub open spec fn registry_minted(pre: Network, post: Network, app_id: Seq<u8>, keys: AppKeys) -> bool {
    &&& post.registry_map().contains_key(sha3_of(app_id))
    &&& post.registry_map()[sha3_of(app_id)].keys == keys
    &&& post.registry_map()[sha3_of(app_id)].info.id@ == app_id
    &&& forall|h: Seq<u8>|
        h != sha3_of(app_id) ==> (post.registry_map().contains_key(h)
            <==> pre.registry_map().contains_key(h))
    &&& forall|h: Seq<u8>|
        h != sha3_of(app_id) && pre.registry_map().contains_key(h) ==> post.registry_map()[h]
            == pre.registry_map()[h]
}

/// Authorize an application request.
///
/// The revocation guard runs first and a pending revocation aborts the
/// request before any mutation. The application is then classified: an
/// authorized one takes the re-grant path with its stored keys; a revoked
/// one re-registers reusing its stored keys verbatim; an unknown one is
/// recorded in the registry under the freshly minted keys and registered.
/// On success the application is authorized: it holds a registry record and
/// a live manifest entry. The freshly minted keys and dedicated-container
/// descriptor are supplied by the caller, since their generation is not a
/// function of the request; they are used only where the respective path
/// needs them.
pub fn authenticate(
    net: &mut Network,
    auth_req: &AuthReq,
    fresh_keys: AppKeys,
    fresh_container: MDataInfo,
) -> (r: Result<AuthGranted, AuthError>)
    requires
        old(net).wf(),
        old(net).auth_keys_version < u64::MAX,
        old(net).manifest_map().contains_key(auth_req.app.id@) ==> old(net).manifest_map()[auth_req.app.id@].0 < u64::MAX,
    ensures
        final(net).wf(),
        // A pending revocation blocks the request outright, with no mutation.
        old(net).rev_pending(auth_req.app.id@) ==> r == Err::<AuthGranted, AuthError>(
            AuthError::PendingRevocation,
        ) && *final(net) == *old(net),
        // Already authorized: the credential reuses the stored keys; without
        // a dedicated-container request nothing at all is written.
        !old(net).rev_pending(auth_req.app.id@) && app_state_of(*old(net), auth_req.app.id@)
            == AppState::Authenticated ==> r == Ok::<AuthGranted, AuthError>(
            granted_of(*old(net), stored_keys(*old(net), auth_req.app.id@)),
        ) && (!auth_req.app_container ==> *final(net) == *old(net)) && (auth_req.app_container
            ==> regrant_container_effects(*old(net), *final(net), auth_req.app.id@, fresh_container)),
        // Revoked: re-registered with the stored keys reused verbatim; the
        // registry is untouched.
        !old(net).rev_pending(auth_req.app.id@) && app_state_of(*old(net), auth_req.app.id@)
            == AppState::Revoked ==> final(net).registry == old(net).registry && (all_resolvable(
            old(net).user_map(),
            auth_req.containers@,
        ) ==> r == Ok::<AuthGranted, AuthError>(
            granted_of(*old(net), stored_keys(*old(net), auth_req.app.id@)),
        ) && register_effects(
            *old(net),
            *final(net),
            auth_req.app.id@,
            stored_keys(*old(net), auth_req.app.id@).sign_pk,
            auth_req.containers@,
            auth_req.app_container,
            fresh_container,
        )) && (!all_resolvable(old(net).user_map(), auth_req.containers@) ==> r == Err::<
            AuthGranted,
            AuthError,
        >(AuthError::NoSuchContainer) && register_failed_effects(
            *old(net),
            *final(net),
            stored_keys(*old(net), auth_req.app.id@).sign_pk,
        )),
        // Never seen: a registry record is minted under the fresh keys —
        // and kept even when a later step fails — and the register pipeline
        // runs under those keys.
        !old(net).rev_pending(auth_req.app.id@) && app_state_of(*old(net), auth_req.app.id@)
            == AppState::NotAuthenticated ==> registry_minted(
            *old(net),
            *final(net),
            auth_req.app.id@,
            fresh_keys,
        ) && (all_resolvable(old(net).user_map(), auth_req.containers@)
            ==> r == Ok::<AuthGranted, AuthError>(granted_of(*old(net), fresh_keys))
            && register_effects(
            *old(net),
            *final(net),
            auth_req.app.id@,
            fresh_keys.sign_pk,
            auth_req.containers@,
            auth_req.app_container,
            fresh_container,
        )) && (!all_resolvable(old(net).user_map(), auth_req.containers@) ==> r == Err::<
            AuthGranted,
            AuthError,
        >(AuthError::NoSuchContainer) && register_failed_effects(
            *old(net),
            *final(net),
            fresh_keys.sign_pk,
        )),
        // A granted request leaves the application authorized.
        !old(net).rev_pending(auth_req.app.id@) && r is Ok ==> app_state_of(
            *final(net),
            auth_req.app.id@,
        ) == AppState::Authenticated,
{
    match check_revocation(net, &auth_req.app.id) {
        Ok(()) => (),
        Err(e) => {
            return Err(e);
        },
    }
    let state = app_state(net, &auth_req.app.id);
    let app: AppInfo;
    match state {
        AppState::NotAuthenticated => {
            app = AppInfo { info: copy_app_exchange_info(&auth_req.app), keys: fresh_keys };
            match net.insert_app(copy_app_info(&app)) {
                Ok(()) => (),
                Err(e) => {
                    return Err(e);
                },
            }
        },
        AppState::Authenticated | AppState::Revoked => {
            let hash = sha3_hash(&auth_req.app.id);
            // The record must exist once the state resolved as authorized or
            // revoked; its absence is a logical invariant violation, not a
            // recoverable condition.
            match net.registry_get(&hash) {
                Some(stored) => {
                    app = AppInfo {
                        info: copy_app_exchange_info(&auth_req.app),
                        keys: stored.keys,
                    };
                },
                None => {
                    return Err(AuthError::Unexpected);
                },
            }
        },
    }
    match state {
        AppState::Authenticated => authenticated_app(
            net,
            &app,
            auth_req.app_container,
            fresh_container,
        ),
        AppState::NotAuthenticated | AppState::Revoked => authenticate_new_app(
            net,
            &app,
            auth_req.app_container,
            &auth_req.containers,
            fresh_container,
        ),
    }
}

} // verus!
