//! Laws of the protocol that relate several operations: the outcome of
//! racing manifest writes, the state classification, and the behaviour of
//! the dedicated-container merge.

use vstd::prelude::*;
use crate::app_auth::app_state_of;
use crate::entry::{dedicated_name_spec, with_dedicated, AccessContainerEntry};
use crate::hash::sha3_of;
use crate::network::Network;
use crate::types::{AppState, MDataInfo, PermissionSet};

verus! {

/// Of two writes that both target version 0 of an application's absent
/// manifest entry, the first succeeds and the second meets a version
/// conflict: once the winner's entry is in place at version 0, a write
/// expecting 0 no longer satisfies the compare-and-swap rule.
pub proof fn lemma_first_write_wins(
    m0: Map<Seq<u8>, (u64, AccessContainerEntry)>,
    app_id: Seq<u8>,
    winner: AccessContainerEntry,
    loser: AccessContainerEntry,
)
    requires
        !m0.contains_key(app_id),
    ensures
        Network::cas_ok(m0, app_id, 0),
        !Network::cas_ok(m0.insert(app_id, (0, winner)), app_id, 0),
{
}

/// An application with no registry record resolves as never authenticated.
pub proof fn lemma_resolve_never_seen(net: Network, app_id: Seq<u8>)
    requires
        !net.registry_map().contains_key(sha3_of(app_id)),
    ensures
        app_state_of(net, app_id) == AppState::NotAuthenticated,
{
}

/// An application whose registry record remains while its manifest entry is
/// gone resolves as revoked, never as partially registered.
pub proof fn lemma_resolve_revoked(net: Network, app_id: Seq<u8>)
    requires
        net.registry_map().contains_key(sha3_of(app_id)),
        !net.manifest_map().contains_key(app_id),
    ensures
        app_state_of(net, app_id) == AppState::Revoked,
{
}

/// The dedicated-container merge is idempotent: merging the same descriptor
/// twice yields the entry that one merge yields.
pub proof fn lemma_merge_idempotent(
    entry: Map<Seq<u8>, (MDataInfo, PermissionSet)>,
    app_id: Seq<u8>,
    container: MDataInfo,
)
    ensures
        with_dedicated(with_dedicated(entry, app_id, container), app_id, container)
            == with_dedicated(entry, app_id, container),
{
    assert(with_dedicated(with_dedicated(entry, app_id, container), app_id, container)
        =~= with_dedicated(entry, app_id, container));
}

/// The dedicated-container merge never removes or weakens another record:
/// every name other than the reserved one keeps exactly its prior record.
pub proof fn lemma_merge_preserves_others(
    entry: Map<Seq<u8>, (MDataInfo, PermissionSet)>,
    app_id: Seq<u8>,
    container: MDataInfo,
)
    ensures
        forall|k: Seq<u8>|
            k != dedicated_name_spec(app_id) ==> (with_dedicated(entry, app_id, container).contains_key(k)
                <==> entry.contains_key(k)),
        forall|k: Seq<u8>|
            k != dedicated_name_spec(app_id) && entry.contains_key(k) ==> with_dedicated(
                entry,
                app_id,
                container,
            )[k] == entry[k],
{
}

} // verus!
