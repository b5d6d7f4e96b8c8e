//! The tiered inter-tick delay.
//!
//! The loop spaces its ticks with a randomized delay drawn from a
//! three-tier distribution: with a 1-in-8 chance a rapid delay, with a
//! 2-in-3 chance among the remainder a normal delay, otherwise a slow
//! one. The tier shape — rare-fast, common-normal, rare-slow — produces
//! realistic jitter rather than uniform spacing. All randomness for a
//! tick is drawn here, before any of the tick's I/O begins.

use crate::rng::{rand_range_u64, rand_ratio};
use vstd::prelude::*;

verus! {

/// Rapid tier bounds, in milliseconds (half-open).
pub const RAPID_MIN_MS: u64 = 3000;

pub const RAPID_MAX_MS: u64 = 4000;

/// Normal tier bounds, in milliseconds (half-open).
pub const NORMAL_MIN_MS: u64 = 5000;

pub const NORMAL_MAX_MS: u64 = 8000;

/// Slow tier bounds, in milliseconds (half-open).
pub const SLOW_MIN_MS: u64 = 10000;

pub const SLOW_MAX_MS: u64 = 15000;

/// Whether `d` lies in the rapid tier's range.
pub open spec fn in_rapid_tier(d: u64) -> bool {
    RAPID_MIN_MS <= d < RAPID_MAX_MS
}

/// Whether `d` lies in the normal tier's range.
pub open spec fn in_normal_tier(d: u64) -> bool {
    NORMAL_MIN_MS <= d < NORMAL_MAX_MS
}

/// Whether `d` lies in the slow tier's range.
pub open spec fn in_slow_tier(d: u64) -> bool {
    SLOW_MIN_MS <= d < SLOW_MAX_MS
}

/// Whether `d` is a delay that the scheduler can produce: a member of
/// exactly one of the three tiers' ranges.
pub open spec fn valid_delay(d: u64) -> bool {
    in_rapid_tier(d) || in_normal_tier(d) || in_slow_tier(d)
}

/// Draw the next inter-tick delay: with probability 1/8 a rapid delay,
/// with probability 2/3 of the remainder a normal one, otherwise a slow
/// one. Whatever the draws, the result lies in one of the three tiers'
/// ranges.
pub fn pick_delay_ms() -> (d: u64)
    ensures
        valid_delay(d),
{
    if rand_ratio(1, 8) {
        rand_range_u64(RAPID_MIN_MS, RAPID_MAX_MS)
    } else if rand_ratio(2, 3) {
        rand_range_u64(NORMAL_MIN_MS, NORMAL_MAX_MS)
    } else {
        rand_range_u64(SLOW_MIN_MS, SLOW_MAX_MS)
    }
}

} // verus!
