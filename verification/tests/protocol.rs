//! End-to-end scenarios of the authorization protocol against an in-memory
//! network state.

use app_auth::app_auth::{app_state, authenticate};
use app_auth::network::Network;
use app_auth::types::{
    AppExchangeInfo, AppKeys, AppState, AuthError, AuthReq, MDataInfo, PermissionSet,
};

fn identity(id: &str) -> AppExchangeInfo {
    AppExchangeInfo {
        id: id.as_bytes().to_vec(),
        name: b"Demo App".to_vec(),
        vendor: b"Acme".to_vec(),
    }
}

fn keys(seed: u64) -> AppKeys {
    AppKeys { sign_pk: seed, sign_sk: seed + 1, enc_key: seed + 2 }
}

fn md(name: u64) -> MDataInfo {
    MDataInfo { name, type_tag: 15000 }
}

fn read_insert() -> PermissionSet {
    PermissionSet { read: true, insert: true, update: false, delete: false, manage_permissions: false }
}

fn full() -> PermissionSet {
    PermissionSet { read: true, insert: true, update: true, delete: true, manage_permissions: true }
}

/// A fresh owner's network with one named container, "photos".
fn fresh_net() -> Network {
    let mut net = Network::new(md(1), 42);
    net.add_user_container(b"photos".to_vec(), md(10));
    net
}

fn photos_req(id: &str, app_container: bool) -> AuthReq {
    AuthReq {
        app: identity(id),
        app_container,
        containers: vec![(b"photos".to_vec(), read_insert())],
    }
}

#[test]
fn resolve_never_seen_then_authenticated() {
    let mut net = fresh_net();
    let id = b"app.one".to_vec();
    assert_eq!(app_state(&net, &id), AppState::NotAuthenticated);

    let granted = authenticate(&mut net, &photos_req("app.one", false), keys(100), md(77))
        .expect("register pipeline");
    assert_eq!(granted.app_keys, keys(100));
    assert_eq!(app_state(&net, &id), AppState::Authenticated);
}

#[test]
fn revoked_app_reuses_existing_keys() {
    let mut net = fresh_net();
    let id = b"app.two".to_vec();
    let first = keys(200);
    authenticate(&mut net, &photos_req("app.two", false), first, md(77)).expect("register");

    // Revocation removes the manifest entry while the registry record stays.
    net.remove_access_container_entry(&id);
    assert_eq!(app_state(&net, &id), AppState::Revoked);
    assert_eq!(net.registry_keys_for(&id), Some(first));

    // Re-authorization must reuse the stored keys, not the newly minted ones.
    let granted = authenticate(&mut net, &photos_req("app.two", false), keys(900), md(78))
        .expect("re-register");
    assert_eq!(granted.app_keys, first);
    assert_eq!(net.registry_keys_for(&id), Some(first));
    assert_eq!(app_state(&net, &id), AppState::Authenticated);
}

#[test]
fn regrant_without_container_writes_nothing() {
    let mut net = fresh_net();
    let id = b"app.three".to_vec();
    authenticate(&mut net, &photos_req("app.three", false), keys(300), md(77)).expect("register");

    let version_before = net.manifest_version_of(&id);
    let keylist_before = net.list_auth_keys_version();
    let granted = authenticate(&mut net, &photos_req("app.three", false), keys(901), md(78))
        .expect("re-grant");
    assert_eq!(granted.app_keys, keys(300));
    assert_eq!(net.manifest_version_of(&id), version_before);
    assert_eq!(net.list_auth_keys_version(), keylist_before);
}

#[test]
fn regrant_with_container_bumps_version_and_merges() {
    let mut net = fresh_net();
    let id = b"app.four".to_vec();
    authenticate(&mut net, &photos_req("app.four", false), keys(400), md(77)).expect("register");
    assert_eq!(net.manifest_version_of(&id), Some(0));

    let granted = authenticate(&mut net, &photos_req("app.four", true), keys(902), md(55))
        .expect("re-grant with dedicated container");
    assert_eq!(granted.app_keys, keys(400));

    let (version, entry) = net.access_container_entry(&id).expect("entry");
    assert_eq!(version, 1);
    assert_eq!(entry.get(&b"photos".to_vec()), Some((md(10), read_insert())));
    assert_eq!(entry.get(&b"apps/app.four".to_vec()), Some((md(55), full())));
    assert_eq!(entry.len(), 2);
}

#[test]
fn concurrent_registers_race_on_first_write() {
    let mut net = fresh_net();
    let id = b"app.five".to_vec();

    // Both attempts resolved the app as never seen and both target version 0;
    // the network applies them in some order.
    let winner = app_auth::entry::AccessContainerEntry::new();
    let loser = app_auth::entry::AccessContainerEntry::new();
    assert_eq!(net.put_access_container_entry(&id, winner, 0), Ok(()));
    assert_eq!(
        net.put_access_container_entry(&id, loser, 0),
        Err(AuthError::VersionConflict)
    );
    assert_eq!(net.manifest_version_of(&id), Some(0));
}

#[test]
fn pending_revocation_blocks_with_no_mutation() {
    let mut net = fresh_net();
    let id = b"app.six".to_vec();
    net.push_revocation(id.clone());

    let r = authenticate(&mut net, &photos_req("app.six", true), keys(600), md(77));
    assert_eq!(r, Err(AuthError::PendingRevocation));
    assert_eq!(net.registry_keys_for(&id), None);
    assert_eq!(net.manifest_version_of(&id), None);
    assert_eq!(net.list_auth_keys_version(), 0);
}

#[test]
fn example_scenario_full_grant() {
    let mut net = fresh_net();
    let id = b"app.demo".to_vec();
    let minted = keys(700);
    let keylist_before = net.list_auth_keys_version();

    let granted = authenticate(&mut net, &photos_req("app.demo", true), minted, md(64))
        .expect("fresh grant");

    // The registry gained one record whose keys are the minted ones.
    assert_eq!(net.registry_keys_for(&id), Some(minted));
    // The key list advanced by exactly one version.
    assert_eq!(net.list_auth_keys_version(), keylist_before + 1);
    // The manifest entry appeared at version 0 with both containers.
    let (version, entry) = net.access_container_entry(&id).expect("entry");
    assert_eq!(version, 0);
    assert_eq!(entry.get(&b"photos".to_vec()), Some((md(10), read_insert())));
    assert_eq!(entry.get(&b"apps/app.demo".to_vec()), Some((md(64), full())));
    assert_eq!(entry.len(), 2);
    // The returned credential matches the new registry record.
    assert_eq!(granted.app_keys, minted);
    assert_eq!(granted.bootstrap_config, 42);
    assert_eq!(granted.access_container, md(1));
}

#[test]
fn reregistration_reuses_dedicated_container() {
    let mut net = fresh_net();
    let id = b"app.eight".to_vec();
    authenticate(&mut net, &photos_req("app.eight", true), keys(500), md(55)).expect("register");
    let (_, entry) = net.access_container_entry(&id).expect("entry");
    assert_eq!(entry.get(&b"apps/app.eight".to_vec()), Some((md(55), full())));

    net.remove_access_container_entry(&id);
    // The provisioner is idempotent: the existing descriptor is returned,
    // the freshly provisioned one is discarded.
    authenticate(&mut net, &photos_req("app.eight", true), keys(903), md(99))
        .expect("re-register");
    let (version, entry) = net.access_container_entry(&id).expect("entry");
    assert_eq!(version, 0);
    assert_eq!(entry.get(&b"apps/app.eight".to_vec()), Some((md(55), full())));
}

#[test]
fn registrations_do_not_disturb_each_other() {
    let mut net = fresh_net();
    let first = b"app.nine".to_vec();
    let second = b"app.ten".to_vec();
    authenticate(&mut net, &photos_req("app.nine", false), keys(10), md(77)).expect("first");
    authenticate(&mut net, &photos_req("app.ten", false), keys(20), md(78)).expect("second");

    assert_eq!(app_state(&net, &first), AppState::Authenticated);
    assert_eq!(app_state(&net, &second), AppState::Authenticated);
    assert_eq!(net.registry_keys_for(&first), Some(keys(10)));
    assert_eq!(net.registry_keys_for(&second), Some(keys(20)));
    assert_eq!(net.manifest_version_of(&first), Some(0));
    assert_eq!(net.manifest_version_of(&second), Some(0));
    assert_eq!(net.list_auth_keys_version(), 2);
}

#[test]
fn unknown_container_fails_after_key_append() {
    let mut net = fresh_net();
    let req = AuthReq {
        app: identity("app.seven"),
        app_container: false,
        containers: vec![(b"videos".to_vec(), read_insert())],
    };
    let r = authenticate(&mut net, &req, keys(800), md(77));
    assert_eq!(r, Err(AuthError::NoSuchContainer));
    // The key-list append is not rolled back, and the registry record stays.
    assert_eq!(net.list_auth_keys_version(), 1);
    assert_eq!(net.registry_keys_for(&b"app.seven".to_vec()), Some(keys(800)));
    // No manifest entry was written.
    assert_eq!(net.manifest_version_of(&b"app.seven".to_vec()), None);
}
