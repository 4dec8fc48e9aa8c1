//! Core data types of the authorization protocol: permissions, container
//! descriptors, application keys and identity, requests, results and errors.

use vstd::prelude::*;

verus! {

/// A single capability on a container.
#[derive(Clone, Copy, PartialEq, Eq, Structural, Debug)]
pub enum Permission {
    Read,
    Insert,
    Update,
    Delete,
    ManagePermissions,
}

/// A subset of the five container capabilities.
#[derive(Clone, Copy, PartialEq, Eq, Structural, Debug)]
pub struct PermissionSet {
    pub read: bool,
    pub insert: bool,
    pub update: bool,
    pub delete: bool,
    pub manage_permissions: bool,
}

impl PermissionSet {
    /// The empty permission set.
    pub fn empty() -> (r: PermissionSet)
        ensures
            r == (PermissionSet {
                read: false,
                insert: false,
                update: false,
                delete: false,
                manage_permissions: false,
            }),
    {
        PermissionSet { read: false, insert: false, update: false, delete: false, manage_permissions: false }
    }

    /// The full permission set, granted on an application's dedicated container.
    pub fn full() -> (r: PermissionSet)
        ensures
            r == Self::full_spec(),
    {
        PermissionSet { read: true, insert: true, update: true, delete: true, manage_permissions: true }
    }

    /// The full permission set, as a specification value.
    pub open spec fn full_spec() -> PermissionSet {
        PermissionSet { read: true, insert: true, update: true, delete: true, manage_permissions: true }
    }

    /// Whether the set contains the given capability.
    pub fn contains(&self, p: Permission) -> (r: bool)
        ensures
            r == self.contains_spec(p),
    {
        match p {
            Permission::Read => self.read,
            Permission::Insert => self.insert,
            Permission::Update => self.update,
            Permission::Delete => self.delete,
            Permission::ManagePermissions => self.manage_permissions,
        }
    }

    /// Membership of a capability, as a specification predicate.
    pub open spec fn contains_spec(&self, p: Permission) -> bool {
        match p {
            Permission::Read => self.read,
            Permission::Insert => self.insert,
            Permission::Update => self.update,
            Permission::Delete => self.delete,
            Permission::ManagePermissions => self.manage_permissions,
        }
    }

    /// A copy of the set with the given capability added.
    pub fn grant(&self, p: Permission) -> (r: PermissionSet)
        ensures
            forall|q: Permission| r.contains_spec(q) == (self.contains_spec(q) || q == p),
    {
        let mut r = *self;
        match p {
            Permission::Read => { r.read = true; }
            Permission::Insert => { r.insert = true; }
            Permission::Update => { r.update = true; }
            Permission::Delete => { r.delete = true; }
            Permission::ManagePermissions => { r.manage_permissions = true; }
        }
        r
    }
}

/// Descriptor of one mutable-data object on the network: its name and type
/// tag, the pointer a client needs to address it.
#[derive(Clone, Copy, PartialEq, Eq, Structural, Debug)]
pub struct MDataInfo {
    pub name: u64,
    pub type_tag: u64,
}

/// The cryptographic material issued to an application at its first
/// registration: a signing keypair for network authorization and a symmetric
/// key for its private container. Issued once and reused verbatim across
/// re-authorization after revocation.
#[derive(Clone, Copy, PartialEq, Eq, Structural, Debug)]
pub struct AppKeys {
    pub sign_pk: u64,
    pub sign_sk: u64,
    pub enc_key: u64,
}

/// The identity an application presents in a request. `id` is the stable
/// external identifier and is never mutated after creation.
#[derive(Debug)]
pub struct AppExchangeInfo {
    pub id: Vec<u8>,
    pub name: Vec<u8>,
    pub vendor: Vec<u8>,
}

/// A registry record: identity plus the keys issued to the application.
#[derive(Debug)]
pub struct AppInfo {
    pub info: AppExchangeInfo,
    pub keys: AppKeys,
}

/// An authorization request: the application's identity, the container
/// permissions it asks for, and whether it wants a dedicated container.
pub struct AuthReq {
    pub app: AppExchangeInfo,
    pub app_container: bool,
    pub containers: Vec<(Vec<u8>, PermissionSet)>,
}

/// The credential bundle returned on success: the application's keys, the
/// network bootstrap configuration, and the pointer to the access-control
/// manifest holding its permission record.
#[derive(Clone, Copy, PartialEq, Eq, Structural, Debug)]
pub struct AuthGranted {
    pub app_keys: AppKeys,
    pub bootstrap_config: u64,
    pub access_container: MDataInfo,
}

/// Current authorization state of an application.
#[derive(Clone, Copy, PartialEq, Eq, Structural, Debug)]
pub enum AppState {
    /// Has a registry record and a live manifest entry.
    Authenticated,
    /// Has a registry record but no manifest entry.
    Revoked,
    /// Has no registry record.
    NotAuthenticated,
}

/// Failures of the authorization protocol.
#[derive(Clone, Copy, PartialEq, Eq, Structural, Debug)]
pub enum AuthError {
    /// The application is in the pending-revocation set.
    PendingRevocation,
    /// A versioned write lost the race against a concurrent writer.
    VersionConflict,
    /// A requested logical container name is unknown.
    NoSuchContainer,
    /// A registry record for this key already exists.
    AlreadyExists,
    /// A logical invariant was violated; not recoverable.
    Unexpected,
}

/// Byte-wise equality of two byte strings.
pub fn bytes_eq(a: &Vec<u8>, b: &Vec<u8>) -> (r: bool)
    ensures
        r == (a@ == b@),
{
    if a.len() != b.len() {
        assert(a@ != b@);
        return false;
    }
    let n = a.len();
    let mut i: usize = 0;
    while i < n
        invariant
            n == a.len() == b.len(),
            i <= n,
            forall|j: int| 0 <= j < i ==> a@[j] == b@[j],
        decreases n - i,
    {
        if a[i] != b[i] {
            assert(a@ != b@);
            return false;
        }
        i += 1;
    }
    assert(a@ =~= b@);
    true
}

/// A fresh copy of a byte string.
pub fn copy_bytes(a: &Vec<u8>) -> (r: Vec<u8>)
    ensures
        r@ == a@,
{
    let mut r: Vec<u8> = Vec::new();
    let n = a.len();
    let mut i: usize = 0;
    while i < n
        invariant
            n == a.len(),
            i <= n,
            r@ == a@.subrange(0, i as int),
        decreases n - i,
    {
        r.push(a[i]);
        assert(r@ =~= a@.subrange(0, i as int + 1));
        i += 1;
    }
    assert(r@ =~= a@);
    r
}

/// A fresh copy of an application identity.
pub fn copy_app_exchange_info(a: &AppExchangeInfo) -> (r: AppExchangeInfo)
    ensures
        r.id@ == a.id@,
        r.name@ == a.name@,
        r.vendor@ == a.vendor@,
{
    AppExchangeInfo { id: copy_bytes(&a.id), name: copy_bytes(&a.name), vendor: copy_bytes(&a.vendor) }
}

/// A fresh copy of a registry record.
pub fn copy_app_info(a: &AppInfo) -> (r: AppInfo)
    ensures
        r.info.id@ == a.info.id@,
        r.info.name@ == a.info.name@,
        r.info.vendor@ == a.info.vendor@,
        r.keys == a.keys,
{
    AppInfo { info: copy_app_exchange_info(&a.info), keys: a.keys }
}

} // verus!
