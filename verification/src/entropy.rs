//! Where random bytes come from.

use vstd::prelude::*;
use std::hash::BuildHasher;
use std::hash::RandomState;

verus! {

/// Calls `RandomState::new`, which makes hashing keys that differ from one
/// call to the next. Nothing is claimed of the keys.
#[verifier::external_body]
fn fresh_keys() -> (keys: RandomState) {
    RandomState::new()
}

/// Calls `BuildHasher::hash_one` on `keys` with `word`. Nothing is claimed of
/// the hash.
#[verifier::external_body]
fn keyed_hash(keys: &RandomState, word: u64) -> (hash: u64) {
    keys.hash_one(word)
}

/// Draws a byte that cannot be predicted: the low byte of a hash under fresh
/// keys.
pub(crate) fn random_byte() -> (byte: u8) {
    let keys = fresh_keys();
    let hash: u64 = keyed_hash(&keys, 0);
    (hash % 256) as u8
}

} // verus!
