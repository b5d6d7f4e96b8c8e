//! Trusted access to the wall clock, and its total, verified reading.

use vstd::prelude::*;

verus! {

/// Relies on `std::time::SystemTime::elapsed`, applied to the `UNIX_EPOCH`
/// constant: the time elapsed since the Unix epoch, in milliseconds, or
/// `None` when the system clock stands before the epoch. Nothing is
/// assumed about the value itself.
#[verifier::external_body]
fn epoch_elapsed_millis() -> (r: Option<u128>)
{
    std::time::UNIX_EPOCH.elapsed().ok().map(|d| d.as_millis())
}

/// Fix a clock reading as a signed timestamp, totally: the reading is
/// carried through unchanged, a reading beyond `i64::MAX` saturates, and
/// an absent reading (a clock before the epoch) maps to zero.
pub fn clamp_reading(r: Option<u128>) -> (t: i64)
    ensures
        r is Some && r->0 <= i64::MAX as u128 ==> t == r->0 as i64,
        r is Some && r->0 > i64::MAX as u128 ==> t == i64::MAX,
        r is None ==> t == 0,
        0 <= t,
{
    match r {
        Some(ms) => {
            if ms > i64::MAX as u128 {
                i64::MAX
            } else {
                ms as i64
            }
        },
        None => 0,
    }
}

/// The current wall-clock reading as non-negative milliseconds since the
/// Unix epoch, fixed by [`clamp_reading`], so that signal stamping can
/// never fail.
pub fn current_millis() -> (t: i64)
    ensures
        0 <= t,
{
    clamp_reading(epoch_elapsed_millis())
}

} // verus!
