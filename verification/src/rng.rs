//! Randomness for spawn planning and NPC wandering.

use rand::Rng;
use vstd::prelude::*;

verus! {

/// Relies on `rand::Rng::gen_range` over a half-open integer range, on the
/// thread-local generator from `rand::thread_rng`: the sample always lies in
/// the range, and the call panics only on an empty range, which the
/// precondition rules out. Nothing more is assumed of the value: every caller
/// is verified for any result in the range.
#[verifier::external_body]
pub(crate) fn random_in_range(lo: i64, hi: i64) -> (r: i64)
    requires
        lo < hi,
    ensures
        lo <= r < hi,
{
    rand::thread_rng().gen_range(lo..hi)
}

/// A uniformly drawn index below `len`.
pub(crate) fn random_index(len: usize) -> (r: usize)
    requires
        0 < len <= 0x7fff_ffff,
    ensures
        r < len,
{
    let i = random_in_range(0, len as i64);
    i as usize
}

} // verus!
