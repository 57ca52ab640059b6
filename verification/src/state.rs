//! The seeded hash state and the digest it gives to a byte string.

use vstd::prelude::*;
use ahash::RandomState;

verus! {

/// `ahash::RandomState`, the keyed hash state. Its keys are private to the
/// hashing crate, so a value of it is carried around and never looked into.
#[verifier::external_type_specification]
#[verifier::external_body]
pub struct ExRandomState(ahash::RandomState);

/// The digest that a hash state gives to a byte string.
///
/// A state fixes its keys when it is built and never changes them, and hashing
/// reads nothing but those keys and the bytes handed in, so one state always
/// gives one byte string the same digest. Nothing else is known of the value:
/// in particular, different byte strings may have the same digest.
pub uninterp spec fn digest_under(state: RandomState, bytes: Seq<u8>) -> u64;

/// `ahash::RandomState::with_seed`: builds a state from one seed. The state
/// also takes in keys that the process draws once from the operating system's
/// random source, so nothing is said of it here: equal seeds need not give
/// equal states in two processes. The call fails only where that source has
/// no bytes to give.
pub assume_specification[ ahash::RandomState::with_seed ](key: usize) -> (state: RandomState)
;

/// `ahash::RandomState::new`: builds a state whose keys differ from one call
/// to the next. Nothing is said of the state. The call fails only where the
/// operating system's random source has no bytes to give.
pub assume_specification[ ahash::RandomState::new ]() -> (state: RandomState)
;

/// `Clone::clone` of `ahash::RandomState`, which the hashing crate derives:
/// the copy has the same keys, so the two are one state.
pub assume_specification[ <ahash::RandomState as Clone>::clone ](state: &RandomState) -> (copy:
    RandomState)
    ensures
        copy == *state,
;

/// `ahash::RandomState::hash_one` on a byte slice: builds a hasher from the
/// state's keys, feeds it the slice and returns what the hasher finishes
/// with. The contract claims only that this is the digest named by
/// [`digest_under`], that is, that it depends on the state and the bytes alone.
#[verifier::external_body]
pub(crate) fn hash_bytes(state: &RandomState, bytes: &[u8]) -> (digest: u64)
    ensures
        digest == digest_under(*state, bytes@),
{
    state.hash_one(bytes)
}

} // verus!
