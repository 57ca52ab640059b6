//! The map itself.

use vstd::prelude::*;
use ahash::RandomState;
use std::borrow::Borrow;
use std::collections::HashMap;
use std::marker::PhantomData;
use crate::item::ExistsItem;
use crate::key::KeyBytes;
use crate::model::{inserted, lookup, member, removed};

verus! {

broadcast use vstd::std_specs::hash::group_hash_axioms;

/// A map from keys of type `K` to values of type `V` that stores the digest
/// of each key and not the key.
///
/// Its view is the map from stored digests to values. The hash state is fixed
/// when the map is built; no operation changes it.
pub struct ExistsMap<K, V> {
    state: RandomState,
    map: HashMap<u64, V>,
    marker: PhantomData<K>,
}

impl<K, V> View for ExistsMap<K, V> {
    type V = Map<u64, V>;

    closed spec fn view(&self) -> Map<u64, V> {
        self.map@
    }
}

impl<K, V> ExistsMap<K, V> {
    /// The hash state that reduces this map's keys to digests.
    pub closed spec fn hash_state(&self) -> RandomState {
        self.state
    }

    /// An empty map whose hash state is keyed at random.
    pub fn new() -> (m: Self)
        ensures
            m@ == Map::<u64, V>::empty(),
    {
        ExistsMap { state: RandomState::new(), map: HashMap::new(), marker: PhantomData }
    }

    /// An empty map whose hash state is built from `seed`.
    ///
    /// The state is the one that the hashing crate builds from the seed and
    /// from keys that the process draws once at random. Within one process
    /// equal seeds give states that hash alike; which state a seed gives is
    /// not fixed beyond that, so nothing is promised of it here. What is
    /// promised of a map with a given state is the contract of
    /// [`ExistsMap::with_hasher`].
    pub fn with_seed(seed: usize) -> (m: Self)
        ensures
            m@ == Map::<u64, V>::empty(),
    {
        Self::with_hasher(RandomState::with_seed(seed))
    }

    /// An empty map that hashes its keys with `state`.
    pub fn with_hasher(state: RandomState) -> (m: Self)
        ensures
            m.hash_state() == state,
            m@ == Map::<u64, V>::empty(),
    {
        ExistsMap { state, map: HashMap::new(), marker: PhantomData }
    }

    /// Stores `value` under the digest of `item` and returns what was stored
    /// under that digest before.
    pub fn insert_item(&mut self, item: ExistsItem<K>, value: V) -> (previous: Option<V>)
        ensures
            final(self).hash_state() == old(self).hash_state(),
            final(self)@ == old(self)@.insert(item@, value),
            previous == old(self)@.get(item@),
    {
        self.map.insert(item.hashed_key, value)
    }

    /// The value stored under the digest of `item`.
    pub fn get_item(&self, item: &ExistsItem<K>) -> (found: Option<&V>)
        ensures
            match found {
                Some(value) => self@.get(item@) == Some(*value),
                None => self@.get(item@) is None,
            },
    {
        self.map.get(&item.hashed_key)
    }

    /// Whether anything is stored under the digest of `item`.
    pub fn contains_item(&self, item: &ExistsItem<K>) -> (present: bool)
        ensures
            present == self@.contains_key(item@),
    {
        self.map.contains_key(&item.hashed_key)
    }

    /// Takes out what is stored under the digest of `item` and returns it.
    pub fn remove_item(&mut self, item: &ExistsItem<K>) -> (taken: Option<V>)
        ensures
            final(self).hash_state() == old(self).hash_state(),
            final(self)@ == old(self)@.remove(item@),
            taken == old(self)@.get(item@),
    {
        self.map.remove(&item.hashed_key)
    }
}

impl<K: KeyBytes, V> ExistsMap<K, V> {
    /// Stores `value` for `key` and returns the value that the key, or a key
    /// with the same digest, had before.
    pub fn insert(&mut self, key: K, value: V) -> (previous: Option<V>)
        ensures
            final(self).hash_state() == old(self).hash_state(),
            final(self)@ == inserted(old(self).hash_state(), old(self)@, &key, value),
            previous == lookup(old(self).hash_state(), old(self)@, &key),
    {
        let item = ExistsItem::new(&key, &self.state);
        self.insert_item(item, value)
    }

    /// The value stored for `key`, or for a key with the same digest.
    pub fn get(&self, key: &K) -> (found: Option<&V>)
        ensures
            match found {
                Some(value) => lookup(self.hash_state(), self@, key) == Some(*value),
                None => lookup(self.hash_state(), self@, key) is None,
            },
    {
        let item = ExistsItem::new(key, &self.state);
        self.get_item(&item)
    }

    /// Whether a value is stored for `key`, given in any form that `K` can be
    /// borrowed as.
    pub fn contains<Q>(&self, key: &Q) -> (present: bool) where
        K: Borrow<Q>,
        Q: KeyBytes + ?Sized,

        ensures
            present == member(self.hash_state(), self@, key),
    {
        let item: ExistsItem<K> = ExistsItem::from(key.digest(&self.state));
        self.contains_item(&item)
    }

    /// Takes out the value stored for `key`, given in any form that `K` can be
    /// borrowed as, and returns it.
    pub fn remove<Q>(&mut self, key: &Q) -> (taken: Option<V>) where
        K: Borrow<Q>,
        Q: KeyBytes + ?Sized,

        ensures
            final(self).hash_state() == old(self).hash_state(),
            final(self)@ == removed(old(self).hash_state(), old(self)@, key),
            taken == lookup(old(self).hash_state(), old(self)@, key),
    {
        let item: ExistsItem<K> = ExistsItem::from(key.digest(&self.state));
        self.remove_item(&item)
    }
}

impl<K, V: Clone> Clone for ExistsMap<K, V> {
    fn clone(&self) -> (copy: Self)
        ensures
            copy.hash_state() == self.hash_state(),
            copy@ == self@,
    {
        ExistsMap { state: self.state.clone(), map: self.map.clone(), marker: PhantomData }
    }
}

impl<K, V> Default for ExistsMap<K, V> {
    fn default() -> (m: Self)
        ensures
            m@ == Map::<u64, V>::empty(),
    {
        ExistsMap::new()
    }
}

} // verus!
