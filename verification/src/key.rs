//! Keys as byte strings.

use vstd::prelude::*;
use ahash::RandomState;
use crate::state::{digest_under, hash_bytes};

verus! {

/// A key that a map can hash: it stands for a byte string, and its digest
/// under a hash state is the digest of that byte string.
///
/// An owned key and the form it is borrowed as must stand for the same byte
/// string, or a lookup by the borrowed form will not find what was stored
/// under the owned one.
pub trait KeyBytes {
    /// The byte string that the key stands for.
    spec fn key_bytes(&self) -> Seq<u8>;

    /// Hashes the key under `state`.
    fn digest(&self, state: &RandomState) -> (digest: u64)
        ensures
            digest == digest_under(*state, self.key_bytes()),
    ;
}

impl KeyBytes for str {
    open spec fn key_bytes(&self) -> Seq<u8> {
        vstd::utf8::encode_utf8(self@)
    }

    fn digest(&self, state: &RandomState) -> (digest: u64) {
        hash_bytes(state, self.as_bytes())
    }
}

impl KeyBytes for String {
    open spec fn key_bytes(&self) -> Seq<u8> {
        vstd::utf8::encode_utf8(self@)
    }

    fn digest(&self, state: &RandomState) -> (digest: u64) {
        hash_bytes(state, self.as_str().as_bytes())
    }
}

impl KeyBytes for u64 {
    open spec fn key_bytes(&self) -> Seq<u8> {
        vstd::bytes::spec_u64_to_le_bytes(*self)
    }

    fn digest(&self, state: &RandomState) -> (digest: u64) {
        let bytes = vstd::bytes::u64_to_le_bytes(*self);
        hash_bytes(state, bytes.as_slice())
    }
}

impl KeyBytes for usize {
    open spec fn key_bytes(&self) -> Seq<u8> {
        vstd::bytes::spec_u64_to_le_bytes(*self as u64)
    }

    fn digest(&self, state: &RandomState) -> (digest: u64) {
        let bytes = vstd::bytes::u64_to_le_bytes(*self as u64);
        hash_bytes(state, bytes.as_slice())
    }
}

impl KeyBytes for u32 {
    open spec fn key_bytes(&self) -> Seq<u8> {
        vstd::bytes::spec_u32_to_le_bytes(*self)
    }

    fn digest(&self, state: &RandomState) -> (digest: u64) {
        let bytes = vstd::bytes::u32_to_le_bytes(*self);
        hash_bytes(state, bytes.as_slice())
    }
}

impl KeyBytes for i64 {
    open spec fn key_bytes(&self) -> Seq<u8> {
        vstd::bytes::spec_u64_to_le_bytes(*self as u64)
    }

    fn digest(&self, state: &RandomState) -> (digest: u64) {
        let bytes = vstd::bytes::u64_to_le_bytes(*self as u64);
        hash_bytes(state, bytes.as_slice())
    }
}

impl KeyBytes for i32 {
    open spec fn key_bytes(&self) -> Seq<u8> {
        vstd::bytes::spec_u32_to_le_bytes(*self as u32)
    }

    fn digest(&self, state: &RandomState) -> (digest: u64) {
        let bytes = vstd::bytes::u32_to_le_bytes(*self as u32);
        hash_bytes(state, bytes.as_slice())
    }
}

} // verus!
