//! Association lists keyed by byte strings, with a finite-map view.
//!
//! Every store of the protocol — the registry, the manifest, the container
//! tables — is a list of key/value pairs with pairwise-distinct keys, read
//! through the map `assoc_map` that the list describes.

use vstd::prelude::*;
use crate::types::bytes_eq;

verus! {

/// The finite map described by an association list; a later pair shadows an
/// earlier one with the same key.
pub open spec fn assoc_map<V>(s: Seq<(Vec<u8>, V)>) -> Map<Seq<u8>, V>
    decreases s.len(),
{
    if s.len() == 0 {
        Map::empty()
    } else {
        assoc_map(s.drop_last()).insert(s.last().0@, s.last().1)
    }
}

/// No two pairs share a key.
pub open spec fn unique_keys<V>(s: Seq<(Vec<u8>, V)>) -> bool {
    forall|i: int, j: int| 0 <= i < j < s.len() ==> s[i].0@ != s[j].0@
}

/// A prefix of a list with pairwise-distinct keys has pairwise-distinct keys.
pub proof fn lemma_unique_drop_last<V>(s: Seq<(Vec<u8>, V)>)
    requires
        unique_keys(s),
        s.len() > 0,
    ensures
        unique_keys(s.drop_last()),
{
    assert forall|i: int, j: int| 0 <= i < j < s.drop_last().len() implies s.drop_last()[i].0@
        != s.drop_last()[j].0@ by {
        assert(s.drop_last()[i] == s[i]);
        assert(s.drop_last()[j] == s[j]);
    }
}

/// A key is in the map exactly when some pair holds it.
pub proof fn lemma_assoc_map_domain<V>(s: Seq<(Vec<u8>, V)>, k: Seq<u8>)
    ensures
        assoc_map(s).contains_key(k) <==> exists|i: int| 0 <= i < s.len() && s[i].0@ == k,
    decreases s.len(),
{
    if s.len() > 0 {
        lemma_assoc_map_domain(s.drop_last(), k);
        if s.last().0@ == k {
            assert(s[s.len() - 1].0@ == k);
        } else {
            if assoc_map(s).contains_key(k) {
                let i = choose|i: int| 0 <= i < s.drop_last().len() && s.drop_last()[i].0@ == k;
                assert(s[i].0@ == k);
            }
            if exists|i: int| 0 <= i < s.len() && s[i].0@ == k {
                let i = choose|i: int| 0 <= i < s.len() && s[i].0@ == k;
                assert(i != s.len() - 1);
                assert(s.drop_last()[i].0@ == k);
            }
        }
    }
}

/// With pairwise-distinct keys, the pair at any index gives the map's value
/// at its key.
pub proof fn lemma_assoc_map_index<V>(s: Seq<(Vec<u8>, V)>, i: int)
    requires
        unique_keys(s),
        0 <= i < s.len(),
    ensures
        assoc_map(s).contains_key(s[i].0@),
        assoc_map(s)[s[i].0@] == s[i].1,
    decreases s.len(),
{
    if i < s.len() - 1 {
        lemma_unique_drop_last(s);
        lemma_assoc_map_index(s.drop_last(), i);
        assert(s.drop_last()[i] == s[i]);
        assert(s[i].0@ != s.last().0@);
    }
}

/// Appending a pair inserts its key into the map.
pub proof fn lemma_assoc_map_push<V>(s: Seq<(Vec<u8>, V)>, p: (Vec<u8>, V))
    ensures
        assoc_map(s.push(p)) == assoc_map(s).insert(p.0@, p.1),
{
    assert(s.push(p).drop_last() =~= s);
    assert(s.push(p).last() == p);
}

/// Replacing the pair at an index, keeping its key, updates the map at that
/// key.
pub proof fn lemma_assoc_map_update<V>(s: Seq<(Vec<u8>, V)>, i: int, p: (Vec<u8>, V))
    requires
        unique_keys(s),
        0 <= i < s.len(),
        p.0@ == s[i].0@,
    ensures
        assoc_map(s.update(i, p)) == assoc_map(s).insert(p.0@, p.1),
    decreases s.len(),
{
    let t = s.update(i, p);
    if i == s.len() - 1 {
        assert(t.drop_last() =~= s.drop_last());
        assert(t.last() == p);
        assert(assoc_map(s).insert(p.0@, p.1) =~= assoc_map(s.drop_last()).insert(p.0@, p.1));
    } else {
        lemma_unique_drop_last(s);
        lemma_assoc_map_update(s.drop_last(), i, p);
        assert(t.drop_last() =~= s.drop_last().update(i, p));
        assert(t.last() == s.last());
        assert(s[i].0@ != s.last().0@);
        assert(assoc_map(t) == assoc_map(s.drop_last()).insert(p.0@, p.1).insert(
            s.last().0@,
            s.last().1,
        ));
        assert(assoc_map(t) =~= assoc_map(s).insert(p.0@, p.1));
    }
}

/// Removing the pair at an index removes its key from the map.
pub proof fn lemma_assoc_map_remove<V>(s: Seq<(Vec<u8>, V)>, i: int)
    requires
        unique_keys(s),
        0 <= i < s.len(),
    ensures
        assoc_map(s.remove(i)) == assoc_map(s).remove(s[i].0@),
        unique_keys(s.remove(i)),
    decreases s.len(),
{
    let t = s.remove(i);
    assert forall|a: int, b: int| 0 <= a < b < t.len() implies t[a].0@ != t[b].0@ by {
        if b < i {
            assert(t[a] == s[a] && t[b] == s[b]);
        } else if a < i {
            assert(t[a] == s[a] && t[b] == s[b + 1]);
        } else {
            assert(t[a] == s[a + 1] && t[b] == s[b + 1]);
        }
    }
    if i == s.len() - 1 {
        assert(t =~= s.drop_last());
        lemma_unique_drop_last(s);
        lemma_assoc_map_domain(s.drop_last(), s[i].0@);
        assert(forall|j: int| 0 <= j < s.drop_last().len() ==> s.drop_last()[j] == s[j]);
        assert(!assoc_map(s.drop_last()).contains_key(s[i].0@));
        assert(assoc_map(t) =~= assoc_map(s).remove(s[i].0@));
    } else {
        lemma_unique_drop_last(s);
        lemma_assoc_map_remove(s.drop_last(), i);
        assert(t.drop_last() =~= s.drop_last().remove(i));
        assert(t.last() == s.last());
        assert(s[i].0@ != s.last().0@);
        assert(assoc_map(t) == assoc_map(s.drop_last()).remove(s[i].0@).insert(
            s.last().0@,
            s.last().1,
        ));
        assert(assoc_map(t) =~= assoc_map(s).remove(s[i].0@));
    }
}

/// Index of the pair holding the given key, if any.
pub fn assoc_find<V>(v: &Vec<(Vec<u8>, V)>, key: &Vec<u8>) -> (r: Option<usize>)
    ensures
        match r {
            Some(i) => i < v@.len() && v@[i as int].0@ == key@,
            None => forall|j: int| 0 <= j < v@.len() ==> v@[j].0@ != key@,
        },
{
    let n = v.len();
    let mut i: usize = 0;
    while i < n
        invariant
            n == v@.len(),
            i <= n,
            forall|j: int| 0 <= j < i ==> v@[j].0@ != key@,
        decreases n - i,
    {
        if bytes_eq(&v[i].0, key) {
            return Some(i);
        }
        i += 1;
    }
    None
}

/// Whether the map holds the given key.
pub fn assoc_contains<V>(v: &Vec<(Vec<u8>, V)>, key: &Vec<u8>) -> (r: bool)
    ensures
        r == assoc_map(v@).contains_key(key@),
{
    proof {
        lemma_assoc_map_domain(v@, key@);
    }
    assoc_find(v, key).is_some()
}

/// Insert or replace the value at a key.
pub fn assoc_set<V>(v: &mut Vec<(Vec<u8>, V)>, key: Vec<u8>, val: V)
    requires
        unique_keys(old(v)@),
    ensures
        unique_keys(final(v)@),
        assoc_map(final(v)@) == assoc_map(old(v)@).insert(key@, val),
{
    let ghost s0 = v@;
    match assoc_find(v, &key) {
        Some(i) => {
            proof {
                lemma_assoc_map_update(s0, i as int, (key, val));
            }
            v[i] = (key, val);
            assert forall|a: int, b: int| 0 <= a < b < v@.len() implies v@[a].0@ != v@[b].0@ by {
                assert(s0[a].0@ != s0[b].0@);
            }
        },
        None => {
            proof {
                lemma_assoc_map_push(s0, (key, val));
            }
            v.push((key, val));
            assert forall|a: int, b: int| 0 <= a < b < v@.len() implies v@[a].0@ != v@[b].0@ by {
                if b < v@.len() - 1 {
                    assert(s0[a].0@ != s0[b].0@);
                }
            }
        },
    }
}

/// Remove the pair at a key, if present.
pub fn assoc_remove<V>(v: &mut Vec<(Vec<u8>, V)>, key: &Vec<u8>)
    requires
        unique_keys(old(v)@),
    ensures
        unique_keys(final(v)@),
        assoc_map(final(v)@) == assoc_map(old(v)@).remove(key@),
{
    let ghost s0 = v@;
    match assoc_find(v, key) {
        Some(i) => {
            proof {
                lemma_assoc_map_remove(s0, i as int);
            }
            let _ = v.remove(i);
        },
        None => {
            proof {
                lemma_assoc_map_domain(s0, key@);
                assert(assoc_map(s0) =~= assoc_map(s0).remove(key@));
            }
        },
    }
}

} // verus!
