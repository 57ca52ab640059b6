//! What holds of every map, proved from the model.

use vstd::prelude::*;
use ahash::RandomState;
use crate::key::KeyBytes;
use crate::model::{
    collision_free, digest_of, digest_unused, inserted, inserted_all, lookup, member, removed,
};

verus! {

/// Storing a run of keys leaves every digest that none of them has as it was.
pub proof fn other_digests_untouched<K: KeyBytes, V>(
    state: RandomState,
    entries: Map<u64, V>,
    keys: Seq<K>,
    values: Seq<V>,
    digest: u64,
)
    requires
        forall|i: int| 0 <= i < keys.len() ==> digest_of(state, &keys[i]) != digest,
    ensures
        inserted_all(state, entries, keys, values).get(digest) == entries.get(digest),
    decreases keys.len(),
{
    if keys.len() != 0 && keys.len() == values.len() {
        let head = keys.drop_last();
        assert forall|i: int| 0 <= i < head.len() implies digest_of(state, &head[i])
            != digest by {
            assert(head[i] == keys[i]);
        }
        other_digests_untouched(state, entries, head, values.drop_last(), digest);
    }
}

/// After keys with pairwise different digests have been stored, each with
/// its value, looking any of them up gives the value it was stored with.
pub proof fn insert_get_roundtrip<K: KeyBytes, V>(
    state: RandomState,
    entries: Map<u64, V>,
    keys: Seq<K>,
    values: Seq<V>,
)
    requires
        keys.len() == values.len(),
        collision_free(state, keys),
    ensures
        forall|i: int|
            0 <= i < keys.len() ==> #[trigger] lookup(
                state,
                inserted_all(state, entries, keys, values),
                &keys[i],
            ) == Some(values[i]),
    decreases keys.len(),
{
    if keys.len() != 0 {
        let head = keys.drop_last();
        let head_values = values.drop_last();
        let last = keys.len() - 1;
        assert forall|i: int, j: int| 0 <= i < j < head.len() implies digest_of(state, &head[i])
            != digest_of(state, &head[j]) by {
            assert(head[i] == keys[i] && head[j] == keys[j]);
        }
        insert_get_roundtrip(state, entries, head, head_values);
        assert forall|i: int| 0 <= i < keys.len() implies #[trigger] lookup(
            state,
            inserted_all(state, entries, keys, values),
            &keys[i],
        ) == Some(values[i]) by {
            if i < last {
                assert(head[i] == keys[i] && head_values[i] == values[i]);
                assert(digest_of(state, &keys[i]) != digest_of(state, &keys[last]));
                assert(lookup(state, inserted_all(state, entries, head, head_values), &head[i])
                    == Some(head_values[i]));
            }
        }
    }
}

/// A key whose digest no stored key has is absent: looking it up in a map
/// that started empty gives nothing, and it is not contained.
pub proof fn never_inserted_is_absent<K: KeyBytes, Q: KeyBytes + ?Sized, V>(
    state: RandomState,
    keys: Seq<K>,
    values: Seq<V>,
    key: &Q,
)
    requires
        digest_unused(state, keys, key),
    ensures
        lookup(state, inserted_all(state, Map::<u64, V>::empty(), keys, values), key) is None,
        !member(state, inserted_all(state, Map::<u64, V>::empty(), keys, values), key),
{
    other_digests_untouched(state, Map::<u64, V>::empty(), keys, values, digest_of(state, key));
}

/// Storing a key twice: the second store finds the first value, and a lookup
/// afterwards gives the second.
pub proof fn second_insert_overwrites<Q: KeyBytes + ?Sized, V>(
    state: RandomState,
    entries: Map<u64, V>,
    key: &Q,
    first: V,
    second: V,
)
    ensures
        lookup(state, inserted(state, entries, key, first), key) == Some(first),
        lookup(state, inserted(state, inserted(state, entries, key, first), key, second), key)
            == Some(second),
{
}

/// After a key has been removed it is neither found nor contained, and
/// removing it again takes nothing out and changes nothing.
pub proof fn remove_then_absent<Q: KeyBytes + ?Sized, V>(
    state: RandomState,
    entries: Map<u64, V>,
    key: &Q,
)
    ensures
        lookup(state, removed(state, entries, key), key) is None,
        !member(state, removed(state, entries, key), key),
        removed(state, removed(state, entries, key), key) == removed(state, entries, key),
{
    assert(removed(state, removed(state, entries, key), key) =~= removed(state, entries, key));
}

/// Owned text and a slice of the same text have the same digest, so a map
/// answers every query alike for the two forms.
pub proof fn text_forms_agree<V>(
    state: RandomState,
    entries: Map<u64, V>,
    owned: String,
    slice: &str,
)
    requires
        owned@ == slice@,
    ensures
        digest_of(state, &owned) == digest_of(state, slice),
        member(state, entries, &owned) == member(state, entries, slice),
        lookup(state, entries, &owned) == lookup(state, entries, slice),
        removed(state, entries, &owned) == removed(state, entries, slice),
{
}

} // verus!
