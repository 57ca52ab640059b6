//! The surrogate that stands in a map for a key: its digest.

use vstd::prelude::*;
use ahash::RandomState;
use std::marker::PhantomData;
use crate::key::KeyBytes;
use crate::model::digest_of;

verus! {

/// The digest of a key of type `K`. The key type is a tag only: it takes no
/// room and plays no part in equality or hashing: an item hashes as its digest.
#[derive(Hash)]
pub struct ExistsItem<K> {
    pub hashed_key: u64,
    pub marker: PhantomData<K>,
}

impl<K> View for ExistsItem<K> {
    type V = u64;

    open spec fn view(&self) -> u64 {
        self.hashed_key
    }
}

impl<K> ExistsItem<K> {
    /// The digest that the item wraps.
    pub fn digest(&self) -> (digest: u64)
        ensures
            digest == self@,
    {
        self.hashed_key
    }
}

impl<K: KeyBytes> ExistsItem<K> {
    /// Hashes `key` under `state` and wraps the digest.
    pub fn new(key: &K, state: &RandomState) -> (item: Self)
        ensures
            item@ == digest_of(*state, key),
    {
        ExistsItem { hashed_key: key.digest(state), marker: PhantomData }
    }
}

impl<K> Clone for ExistsItem<K> {
    fn clone(&self) -> (copy: Self)
        ensures
            copy@ == self@,
    {
        ExistsItem { hashed_key: self.hashed_key, marker: PhantomData }
    }
}

impl<K> From<u64> for ExistsItem<K> {
    fn from(hashed_key: u64) -> (item: Self) {
        ExistsItem { hashed_key, marker: PhantomData }
    }
}

impl<K> vstd::std_specs::convert::FromSpecImpl<u64> for ExistsItem<K> {
    open spec fn obeys_from_spec() -> bool {
        true
    }

    open spec fn from_spec(hashed_key: u64) -> Self {
        ExistsItem { hashed_key, marker: PhantomData }
    }
}

impl<K> PartialEq for ExistsItem<K> {
    fn eq(&self, other: &Self) -> (equal: bool) {
        self.hashed_key == other.hashed_key
    }
}

impl<K> vstd::std_specs::cmp::PartialEqSpecImpl for ExistsItem<K> {
    open spec fn obeys_eq_spec() -> bool {
        true
    }

    open spec fn eq_spec(&self, other: &Self) -> bool {
        self@ == other@
    }
}

impl<K> Eq for ExistsItem<K> {}

} // verus!
