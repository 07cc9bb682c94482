use vstd::prelude::*;

use vstd::bytes::{spec_u64_from_le_bytes, u64_from_le_bytes};
use vstd::slice::slice_subrange;
use vstd::string::StringSliceAdditionalSpecFns;

verus! {

/// `a - b`, or zero when `b` exceeds `a`.
pub open spec fn saturating_difference(a: u64, b: u64) -> u64 {
    if a > b {
        (a - b) as u64
    } else {
        0
    }
}

/// The number that `random_number` mixes from the eight bytes at offset 12 of the
/// recent slot hashes, the eight bytes at offset 96 of the seed, and the time.
pub open spec fn mixed_number(recent_slothashes: Seq<u8>, seed: Seq<u8>, now: u64) -> u64 {
    saturating_difference(
        spec_u64_from_le_bytes(seed.subrange(96, 104)),
        saturating_difference(spec_u64_from_le_bytes(recent_slothashes.subrange(12, 20)), now),
    )
}

/// A number derived from the most recent slot hash, the seed and the time: the
/// little-endian word at bytes 96..104 of `seed`, less the little-endian word at
/// bytes 12..20 of `recent_slothashes` less `now`, each difference saturating at
/// zero. `None` when either input is too short to hold its word.
pub fn random_number(recent_slothashes: &[u8], seed: &str, now: u64) -> (r: Option<u64>)
    ensures
        (recent_slothashes@.len() >= 20 && seed.spec_bytes().len() >= 104) ==> r
            == Some(mixed_number(recent_slothashes@, seed.spec_bytes(), now)),
        !(recent_slothashes@.len() >= 20 && seed.spec_bytes().len() >= 104) ==> r is None,
{
    let bytes = seed.as_bytes();
    if recent_slothashes.len() < 20 || bytes.len() < 104 {
        return None;
    }
    let most_recent = u64_from_le_bytes(slice_subrange(recent_slothashes, 12, 20));
    let seed_word = u64_from_le_bytes(slice_subrange(bytes, 96, 104));
    Some(seed_word.saturating_sub(most_recent.saturating_sub(now)))
}

} // verus!
