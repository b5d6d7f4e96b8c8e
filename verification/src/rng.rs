//! Trusted access to the process's entropy source.
//!
//! Every random draw the library makes goes through one of these wrappers.
//! Each states only what rand's documentation and source promise of every
//! outcome; which value comes back is never assumed.

use rand::Rng;
use vstd::prelude::*;

verus! {

/// Relies on rand's `Rng::gen_range` on `thread_rng`: the sample lies in
/// the half-open range `lo..hi`. The call panics on an empty range, which
/// the precondition rules out.
#[verifier::external_body]
pub(crate) fn rand_range_i32(lo: i32, hi: i32) -> (r: i32)
    requires
        lo < hi,
    ensures
        lo <= r < hi,
{
    rand::thread_rng().gen_range(lo..hi)
}

/// Relies on rand's `Rng::gen_range` on `thread_rng`: the sample lies in
/// the half-open range `lo..hi`. The call panics on an empty range, which
/// the precondition rules out.
#[verifier::external_body]
pub(crate) fn rand_range_u64(lo: u64, hi: u64) -> (r: u64)
    requires
        lo < hi,
    ensures
        lo <= r < hi,
{
    rand::thread_rng().gen_range(lo..hi)
}

/// Relies on rand's `Rng::gen_ratio` on `thread_rng`: true with
/// probability `num/den`; always true when `num == den` and always false
/// when `num == 0`. The call panics when `den == 0` or `num > den`, which
/// the precondition rules out.
#[verifier::external_body]
pub(crate) fn rand_ratio(num: u32, den: u32) -> (r: bool)
    requires
        0 < den,
        num <= den,
    ensures
        num == den ==> r,
        num == 0 ==> !r,
{
    rand::thread_rng().gen_ratio(num, den)
}

} // verus!
