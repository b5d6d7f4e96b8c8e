//! Signal generation.
//!
//! A signal is a timestamped 2D coordinate event. Coordinates are drawn
//! from a tiered pattern around a centroid — a dense center region, a ring
//! at a random radius, a coarse grid, and an edge-avoiding scatter — so
//! that the downstream consumer sees structured, varied positions. Every
//! generated coordinate lies in the valid domain `COORD_MIN..=COORD_MAX`.

use crate::clock::current_millis;
use crate::rng::rand_range_i32;
use vstd::prelude::*;

verus! {

/// Smallest coordinate any generated signal can carry.
pub const COORD_MIN: i32 = 150;

/// Largest coordinate any generated signal can carry: the ring tier
/// reaches the centroid plus its largest radius, 349, and no other tier
/// reaches further.
pub const COORD_MAX: i32 = 849;

/// The centroid that the generation pattern is arranged around.
pub const CENTROID: i32 = 500;

/// Smallest Chebyshev radius of the ring tier.
pub const RING_RADIUS_MIN: i32 = 250;

/// Radius bound of the ring tier (exclusive).
pub const RING_RADIUS_MAX: i32 = 350;

/// A timestamped 2D coordinate event, immutable once created.
#[derive(Clone, Copy, Debug, PartialEq, Eq, Structural)]
pub struct Signal {
    pub x: i32,
    pub y: i32,
    /// Milliseconds since the Unix epoch; never negative.
    pub timestamp: i64,
}

/// Whether one coordinate lies in the valid domain.
pub open spec fn coord_in_domain(c: int) -> bool {
    COORD_MIN <= c <= COORD_MAX
}

/// Whether both of a signal's coordinates lie in the valid domain.
pub open spec fn signal_in_domain(s: Signal) -> bool {
    coord_in_domain(s.x as int) && coord_in_domain(s.y as int)
}

/// Whether `(x, y)` lies on the square ring of Chebyshev radius `r` about
/// the centroid: both offsets are bounded by `r` and at least one attains
/// it.
pub open spec fn on_square_ring(x: int, y: int, r: int) -> bool {
    let dx = x - CENTROID;
    let dy = y - CENTROID;
    &&& -r <= dx <= r
    &&& -r <= dy <= r
    &&& (dx == r || dx == -r || dy == r || dy == -r)
}

/// Map a position along the perimeter of the square ring of Chebyshev
/// radius `radius` about the centroid to its point, walking the top,
/// right, bottom and left sides in turn; each side covers a quarter of
/// the perimeter.
pub fn ring_point(radius: i32, pos: i32) -> (p: (i32, i32))
    requires
        RING_RADIUS_MIN <= radius < RING_RADIUS_MAX,
        0 <= pos < 8 * radius,
    ensures
        on_square_ring(p.0 as int, p.1 as int, radius as int),
        coord_in_domain(p.0 as int),
        coord_in_domain(p.1 as int),
        pos < 2 * radius ==> p == (((CENTROID - radius + pos) as i32, (CENTROID - radius) as i32)),
        2 * radius <= pos < 4 * radius ==> p == (((CENTROID + radius) as i32, (CENTROID - 3
            * radius + pos) as i32)),
        4 * radius <= pos < 6 * radius ==> p == (((CENTROID + 5 * radius - pos) as i32, (CENTROID
            + radius) as i32)),
        6 * radius <= pos ==> p == (((CENTROID - radius) as i32, (CENTROID + 7 * radius
            - pos) as i32)),
{
    let side = 2 * radius;
    if pos < side {
        (CENTROID - radius + pos, CENTROID - radius)
    } else if pos < 2 * side {
        (CENTROID + radius, CENTROID - radius + (pos - side))
    } else if pos < 3 * side {
        (CENTROID + radius - (pos - 2 * side), CENTROID + radius)
    } else {
        (CENTROID - radius, CENTROID + radius - (pos - 3 * side))
    }
}

/// Draw one signal carrying the given timestamp. A pattern draw picks one
/// of four tiers: the center region about the centroid, a square ring at a
/// random radius, a coarse hundred-spaced grid, or an edge-avoiding
/// scatter. Whatever the draws, the coordinates land in the valid domain
/// and the timestamp is carried through unchanged.
pub fn generate_signal_at(timestamp_ms: i64) -> (s: Signal)
    requires
        0 <= timestamp_ms,
    ensures
        signal_in_domain(s),
        s.timestamp == timestamp_ms,
{
    let pattern = rand_range_i32(0, 100);
    let (x, y): (i32, i32) = if pattern < 20 {
        // Dense region about the centroid.
        (rand_range_i32(400, 600), rand_range_i32(400, 600))
    } else if pattern < 40 {
        // A ring at a random radius, for radial coverage.
        let radius = rand_range_i32(RING_RADIUS_MIN, RING_RADIUS_MAX);
        let pos = rand_range_i32(0, 8 * radius);
        ring_point(radius, pos)
    } else if pattern < 60 {
        // A coarse grid, for systematic coverage.
        (rand_range_i32(2, 8) * 100 + 100, rand_range_i32(2, 8) * 100 + 100)
    } else {
        // Scatter that keeps clear of the domain's edges.
        (rand_range_i32(200, 800), rand_range_i32(200, 800))
    };
    Signal { x, y, timestamp: timestamp_ms }
}

/// Draw one signal stamped with the current wall clock. Never fails: the
/// clock reading is total and the coordinate draws land in the domain for
/// every outcome.
pub fn generate_signal() -> (s: Signal)
    ensures
        signal_in_domain(s),
        0 <= s.timestamp,
{
    let now = current_millis();
    generate_signal_at(now)
}

/// Law: a run of signals stamped from non-decreasing clock readings
/// carries non-decreasing timestamps. The premise that each signal carries
/// its reading unchanged is exactly what [`generate_signal_at`] ensures.
pub proof fn lemma_timestamps_monotone(stamps: Seq<i64>, signals: Seq<Signal>)
    requires
        signals.len() == stamps.len(),
        forall|i: int| 0 <= i < signals.len() ==> signals[i].timestamp == stamps[i],
        forall|i: int, j: int| 0 <= i <= j < stamps.len() ==> stamps[i] <= stamps[j],
    ensures
        forall|i: int, j: int|
            0 <= i <= j < signals.len() ==> signals[i].timestamp <= signals[j].timestamp,
{
    assert forall|i: int, j: int|
        0 <= i <= j < signals.len() implies signals[i].timestamp <= signals[j].timestamp by {
        assert(signals[i].timestamp == stamps[i]);
        assert(signals[j].timestamp == stamps[j]);
        assert(stamps[i] <= stamps[j]);
    }
}

} // verus!
