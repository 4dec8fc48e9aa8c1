//! Per-application manifest entries: the containers an application may reach,
//! each with a descriptor and a permission set, and the merge that adds the
//! application's dedicated container under the reserved name `apps/<id>`.

use vstd::prelude::*;
use crate::assoc::{assoc_find, assoc_map, assoc_set, lemma_assoc_map_index, unique_keys};
use crate::types::{copy_bytes, MDataInfo, PermissionSet};

verus! {

/// One application's manifest entry: container name to descriptor and
/// permission set, with pairwise-distinct names.
pub struct AccessContainerEntry {
    pub items: Vec<(Vec<u8>, (MDataInfo, PermissionSet))>,
}

impl View for AccessContainerEntry {
    type V = Map<Seq<u8>, (MDataInfo, PermissionSet)>;

    open spec fn view(&self) -> Map<Seq<u8>, (MDataInfo, PermissionSet)> {
        assoc_map(self.items@)
    }
}

impl AccessContainerEntry {
    /// Pairwise-distinct container names.
    pub open spec fn wf(&self) -> bool {
        unique_keys(self.items@)
    }

    /// The empty entry.
    pub fn new() -> (r: AccessContainerEntry)
        ensures
            r.wf(),
            r@ == Map::<Seq<u8>, (MDataInfo, PermissionSet)>::empty(),
    {
        AccessContainerEntry { items: Vec::new() }
    }

    /// The descriptor and permission set recorded for a container name.
    pub fn get(&self, name: &Vec<u8>) -> (r: Option<(MDataInfo, PermissionSet)>)
        requires
            self.wf(),
        ensures
            match r {
                Some(p) => self@.contains_key(name@) && self@[name@] == p,
                None => !self@.contains_key(name@),
            },
    {
        proof {
            crate::assoc::lemma_assoc_map_domain(self.items@, name@);
        }
        match assoc_find(&self.items, name) {
            Some(i) => {
                proof {
                    lemma_assoc_map_index(self.items@, i as int);
                }
                Some(self.items[i].1)
            },
            None => None,
        }
    }

    /// Record a descriptor and permission set under a container name,
    /// replacing any previous record for that name.
    pub fn set(&mut self, name: Vec<u8>, value: (MDataInfo, PermissionSet))
        requires
            old(self).wf(),
        ensures
            final(self).wf(),
            final(self)@ == old(self)@.insert(name@, value),
    {
        assoc_set(&mut self.items, name, value);
    }

    /// How many container names the entry records.
    pub fn len(&self) -> (r: usize)
        ensures
            r == self.items@.len(),
    {
        self.items.len()
    }

    /// A fresh copy of the entry.
    pub fn duplicate(&self) -> (r: AccessContainerEntry)
        ensures
            r.items@.len() == self.items@.len(),
            forall|i: int|
                0 <= i < self.items@.len() ==> r.items@[i].0@ == self.items@[i].0@
                    && r.items@[i].1 == self.items@[i].1,
            r@ == self@,
            self.wf() ==> r.wf(),
    {
        let mut items: Vec<(Vec<u8>, (MDataInfo, PermissionSet))> = Vec::new();
        let n = self.items.len();
        let mut i: usize = 0;
        while i < n
            invariant
                n == self.items@.len(),
                i <= n,
                items@.len() == i,
                forall|j: int|
                    0 <= j < i ==> items@[j].0@ == self.items@[j].0@ && items@[j].1
                        == self.items@[j].1,
            decreases n - i,
        {
            items.push((copy_bytes(&self.items[i].0), self.items[i].1));
            i += 1;
        }
        let r = AccessContainerEntry { items };
        proof {
            lemma_assoc_map_congruent(r.items@, self.items@);
        }
        r
    }
}

/// Two lists whose pairs hold equal keys and equal values describe the same
/// map.
pub proof fn lemma_assoc_map_congruent<V>(a: Seq<(Vec<u8>, V)>, b: Seq<(Vec<u8>, V)>)
    requires
        a.len() == b.len(),
        forall|i: int| 0 <= i < a.len() ==> a[i].0@ == b[i].0@ && a[i].1 == b[i].1,
    ensures
        assoc_map(a) == assoc_map(b),
    decreases a.len(),
{
    if a.len() > 0 {
        assert(forall|i: int|
            0 <= i < a.drop_last().len() ==> a.drop_last()[i].0@ == b.drop_last()[i].0@
                && a.drop_last()[i].1 == b.drop_last()[i].1);
        lemma_assoc_map_congruent(a.drop_last(), b.drop_last());
    }
}

/// The reserved manifest name of an application's dedicated container:
/// `apps/` followed by the application identifier.
pub open spec fn dedicated_name_spec(app_id: Seq<u8>) -> Seq<u8> {
    seq![97u8, 112u8, 112u8, 115u8, 47u8] + app_id
}

/// Build the reserved name `apps/<app_id>`.
pub fn dedicated_name(app_id: &Vec<u8>) -> (r: Vec<u8>)
    ensures
        r@ == dedicated_name_spec(app_id@),
{
    let mut r: Vec<u8> = Vec::new();
    // "apps/" in bytes
    r.push(97);
    r.push(112);
    r.push(112);
    r.push(115);
    r.push(47);
    let n = app_id.len();
    let mut i: usize = 0;
    while i < n
        invariant
            n == app_id@.len(),
            i <= n,
            r@ == seq![97u8, 112u8, 112u8, 115u8, 47u8] + app_id@.subrange(0, i as int),
        decreases n - i,
    {
        r.push(app_id[i]);
        assert(r@ =~= seq![97u8, 112u8, 112u8, 115u8, 47u8] + app_id@.subrange(0, i as int + 1));
        i += 1;
    }
    assert(r@ =~= dedicated_name_spec(app_id@));
    r
}

/// The merged entry after provisioning a dedicated container: the given entry
/// plus `apps/<app_id>` with the full permission set.
pub open spec fn with_dedicated(
    entry: Map<Seq<u8>, (MDataInfo, PermissionSet)>,
    app_id: Seq<u8>,
    container: MDataInfo,
) -> Map<Seq<u8>, (MDataInfo, PermissionSet)> {
    entry.insert(dedicated_name_spec(app_id), (container, PermissionSet::full_spec()))
}

/// Record the application's dedicated container in its manifest entry under
/// the reserved name `apps/<app_id>`, with the full permission set. Never
/// removes or weakens any other record, and is idempotent in the descriptor.
pub fn insert_app_container(
    permissions: AccessContainerEntry,
    app_id: &Vec<u8>,
    app_container_info: MDataInfo,
) -> (r: AccessContainerEntry)
    requires
        permissions.wf(),
    ensures
        r.wf(),
        r@ == with_dedicated(permissions@, app_id@, app_container_info),
{
    let mut permissions = permissions;
    let access = PermissionSet::full();
    permissions.set(dedicated_name(app_id), (app_container_info, access));
    permissions
}

} // verus!
