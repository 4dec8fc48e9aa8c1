//! Unit tests of the protocol's pieces: permission sets, entry handling, the
//! reserved dedicated-container name, the hash, and the versioned stores.

use app_auth::app_auth::{check_revocation, update_container_perms};
use app_auth::entry::{dedicated_name, insert_app_container, AccessContainerEntry};
use app_auth::hash::sha3_hash;
use app_auth::network::Network;
use app_auth::types::{
    bytes_eq, copy_bytes, AppExchangeInfo, AppInfo, AppKeys, AuthError, MDataInfo, Permission,
    PermissionSet,
};

fn md(name: u64) -> MDataInfo {
    MDataInfo { name, type_tag: 15000 }
}

fn sample_app(id: &str, seed: u64) -> AppInfo {
    AppInfo {
        info: AppExchangeInfo {
            id: id.as_bytes().to_vec(),
            name: b"n".to_vec(),
            vendor: b"v".to_vec(),
        },
        keys: AppKeys { sign_pk: seed, sign_sk: seed + 1, enc_key: seed + 2 },
    }
}

#[test]
fn permission_set_operations() {
    let none = PermissionSet::empty();
    assert!(!none.contains(Permission::Read));
    assert!(!none.contains(Permission::ManagePermissions));

    let all = PermissionSet::full();
    assert!(all.contains(Permission::Read));
    assert!(all.contains(Permission::Insert));
    assert!(all.contains(Permission::Update));
    assert!(all.contains(Permission::Delete));
    assert!(all.contains(Permission::ManagePermissions));

    let ri = PermissionSet::empty().grant(Permission::Read).grant(Permission::Insert);
    assert!(ri.contains(Permission::Read));
    assert!(ri.contains(Permission::Insert));
    assert!(!ri.contains(Permission::Delete));
}

#[test]
fn byte_helpers() {
    let a = b"abc".to_vec();
    let b = b"abc".to_vec();
    let c = b"abd".to_vec();
    assert!(bytes_eq(&a, &b));
    assert!(!bytes_eq(&a, &c));
    assert!(!bytes_eq(&a, &b"ab".to_vec()));
    assert_eq!(copy_bytes(&c), c);
}

#[test]
fn dedicated_name_is_reserved_form() {
    assert_eq!(dedicated_name(&b"app.demo".to_vec()), b"apps/app.demo".to_vec());
    assert_eq!(dedicated_name(&b"".to_vec()), b"apps/".to_vec());
}

#[test]
fn merge_keeps_other_entries_and_is_idempotent() {
    let mut entry = AccessContainerEntry::new();
    entry.set(b"docs".to_vec(), (md(3), PermissionSet::empty().grant(Permission::Read)));

    let merged = insert_app_container(entry, &b"x".to_vec(), md(9));
    assert_eq!(merged.get(&b"docs".to_vec()), Some((md(3), PermissionSet::empty().grant(Permission::Read))));
    assert_eq!(merged.get(&b"apps/x".to_vec()), Some((md(9), PermissionSet::full())));
    assert_eq!(merged.len(), 2);

    let again = insert_app_container(merged, &b"x".to_vec(), md(9));
    assert_eq!(again.get(&b"docs".to_vec()), Some((md(3), PermissionSet::empty().grant(Permission::Read))));
    assert_eq!(again.get(&b"apps/x".to_vec()), Some((md(9), PermissionSet::full())));
    assert_eq!(again.len(), 2);
}

#[test]
fn sha3_digest_shape() {
    let h1 = sha3_hash(&b"app.demo".to_vec());
    let h2 = sha3_hash(&b"app.demo".to_vec());
    let h3 = sha3_hash(&b"app.demo2".to_vec());
    assert_eq!(h1.len(), 32);
    assert_eq!(h1, h2);
    assert_ne!(h1, h3);
    assert_ne!(h1, b"app.demo".to_vec());
}

#[test]
fn revocation_guard() {
    let mut net = Network::new(md(1), 0);
    let id = b"app".to_vec();
    assert_eq!(check_revocation(&net, &id), Ok(()));
    net.push_revocation(id.clone());
    assert_eq!(check_revocation(&net, &id), Err(AuthError::PendingRevocation));
    assert_eq!(check_revocation(&net, &b"other".to_vec()), Ok(()));
}

#[test]
fn container_permission_resolution() {
    let mut net = Network::new(md(1), 0);
    net.add_user_container(b"photos".to_vec(), md(10));
    net.add_user_container(b"music".to_vec(), md(11));

    let ri = PermissionSet::empty().grant(Permission::Read).grant(Permission::Insert);
    let resolved = update_container_perms(
        &net,
        &vec![(b"photos".to_vec(), ri), (b"music".to_vec(), PermissionSet::full())],
    )
    .expect("both names resolve");
    assert_eq!(resolved.get(&b"photos".to_vec()), Some((md(10), ri)));
    assert_eq!(resolved.get(&b"music".to_vec()), Some((md(11), PermissionSet::full())));
    assert_eq!(resolved.len(), 2);

    let empty = update_container_perms(&net, &vec![]).expect("empty request");
    assert_eq!(empty.len(), 0);

    let missing = update_container_perms(&net, &vec![(b"videos".to_vec(), ri)]);
    assert!(matches!(missing, Err(AuthError::NoSuchContainer)));
}

#[test]
fn registry_rejects_duplicate_record() {
    let mut net = Network::new(md(1), 0);
    assert_eq!(net.insert_app(sample_app("app", 1)), Ok(()));
    assert_eq!(net.insert_app(sample_app("app", 2)), Err(AuthError::AlreadyExists));
    assert_eq!(net.insert_app(sample_app("app2", 3)), Ok(()));
    assert_eq!(net.registry_keys_for(&b"app".to_vec()).map(|k| k.sign_pk), Some(1));
}

#[test]
fn key_list_append_is_a_cas() {
    let mut net = Network::new(md(1), 0);
    assert_eq!(net.list_auth_keys_version(), 0);
    assert_eq!(net.ins_auth_key(7, 2), Err(AuthError::VersionConflict));
    assert_eq!(net.ins_auth_key(7, 1), Ok(()));
    assert_eq!(net.list_auth_keys_version(), 1);
    assert_eq!(net.ins_auth_key(8, 1), Err(AuthError::VersionConflict));
    assert_eq!(net.ins_auth_key(8, 2), Ok(()));
    assert_eq!(net.list_auth_keys_version(), 2);
}

#[test]
fn manifest_write_is_a_cas() {
    let mut net = Network::new(md(1), 0);
    let id = b"app".to_vec();
    let entry = AccessContainerEntry::new();
    // A fresh entry must be written at version 0.
    assert_eq!(net.put_access_container_entry(&id, entry, 1), Err(AuthError::VersionConflict));
    assert_eq!(net.put_access_container_entry(&id, AccessContainerEntry::new(), 0), Ok(()));
    // An update must target exactly one past the current version.
    assert_eq!(
        net.put_access_container_entry(&id, AccessContainerEntry::new(), 0),
        Err(AuthError::VersionConflict)
    );
    assert_eq!(net.put_access_container_entry(&id, AccessContainerEntry::new(), 1), Ok(()));
    assert_eq!(net.manifest_version_of(&id), Some(1));
}
