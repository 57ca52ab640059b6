//! What the operations of a map mean, over the digests it stores.
//!
//! A map is modelled by its hash state and by a mathematical map from digests
//! to values. Every function here goes from a key to its digest first, so keys
//! that collide are indistinguishable by construction.

use vstd::prelude::*;
use ahash::RandomState;
use crate::key::KeyBytes;
use crate::state::digest_under;

verus! {

/// The digest under which `state` files `key`.
pub open spec fn digest_of<Q: KeyBytes + ?Sized>(state: RandomState, key: &Q) -> u64 {
    digest_under(state, key.key_bytes())
}

/// The value stored for `key`, if its digest is present.
pub open spec fn lookup<Q: KeyBytes + ?Sized, V>(
    state: RandomState,
    entries: Map<u64, V>,
    key: &Q,
) -> Option<V> {
    entries.get(digest_of(state, key))
}

/// Whether the digest of `key` is present.
pub open spec fn member<Q: KeyBytes + ?Sized, V>(
    state: RandomState,
    entries: Map<u64, V>,
    key: &Q,
) -> bool {
    entries.contains_key(digest_of(state, key))
}

/// The entries after `value` has been stored for `key`, replacing whatever
/// was stored under the same digest.
pub open spec fn inserted<Q: KeyBytes + ?Sized, V>(
    state: RandomState,
    entries: Map<u64, V>,
    key: &Q,
    value: V,
) -> Map<u64, V> {
    entries.insert(digest_of(state, key), value)
}

/// The entries after the digest of `key` has been taken out.
pub open spec fn removed<Q: KeyBytes + ?Sized, V>(
    state: RandomState,
    entries: Map<u64, V>,
    key: &Q,
) -> Map<u64, V> {
    entries.remove(digest_of(state, key))
}

/// The entries after `keys[0]`, `keys[1]`, ... have been stored in turn, each
/// with the value at the same position of `values`. Sequences of different
/// lengths store nothing.
pub open spec fn inserted_all<K: KeyBytes, V>(
    state: RandomState,
    entries: Map<u64, V>,
    keys: Seq<K>,
    values: Seq<V>,
) -> Map<u64, V>
    decreases keys.len(),
{
    if keys.len() == 0 || keys.len() != values.len() {
        entries
    } else {
        inserted(
            state,
            inserted_all(state, entries, keys.drop_last(), values.drop_last()),
            &keys.last(),
            values.last(),
        )
    }
}

/// No two keys of `keys` have the same digest under `state`.
pub open spec fn collision_free<K: KeyBytes>(state: RandomState, keys: Seq<K>) -> bool {
    forall|i: int, j: int|
        0 <= i < j < keys.len() ==> digest_of(state, &keys[i]) != digest_of(state, &keys[j])
}

/// The digest of `key` differs from that of every key of `keys`.
pub open spec fn digest_unused<K: KeyBytes, Q: KeyBytes + ?Sized>(
    state: RandomState,
    keys: Seq<K>,
    key: &Q,
) -> bool {
    forall|i: int| 0 <= i < keys.len() ==> digest_of(state, &keys[i]) != digest_of(state, key)
}

} // verus!
