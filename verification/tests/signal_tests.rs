use signal_source::clock::{clamp_reading, current_millis};
use signal_source::signal::{generate_signal, generate_signal_at, ring_point, Signal};

const COORD_MIN: i32 = 150;
const COORD_MAX: i32 = 849;

#[test]
fn generated_signals_stay_in_domain() {
    for _ in 0..200 {
        let s = generate_signal();
        assert!(COORD_MIN <= s.x && s.x <= COORD_MAX);
        assert!(COORD_MIN <= s.y && s.y <= COORD_MAX);
        assert!(s.timestamp >= 0);
    }
}

#[test]
fn clock_readings_are_fixed_totally() {
    assert_eq!(clamp_reading(None), 0);
    assert_eq!(clamp_reading(Some(0)), 0);
    assert_eq!(clamp_reading(Some(1_700_000_000_000)), 1_700_000_000_000);
    assert_eq!(clamp_reading(Some(i64::MAX as u128)), i64::MAX);
    assert_eq!(clamp_reading(Some(i64::MAX as u128 + 1)), i64::MAX);
    assert_eq!(clamp_reading(Some(u128::MAX)), i64::MAX);
    assert!(current_millis() >= 0);
}

#[test]
fn generated_timestamp_reads_a_real_clock() {
    // Any sane wall clock is far past this reading.
    let s = generate_signal();
    assert!(s.timestamp > 1_600_000_000_000);
}

#[test]
fn generate_signal_at_carries_timestamp_unchanged() {
    for &ts in &[0i64, 5, 1_700_000_000_000] {
        let s = generate_signal_at(ts);
        assert_eq!(s.timestamp, ts);
        assert!(COORD_MIN <= s.x && s.x <= COORD_MAX);
        assert!(COORD_MIN <= s.y && s.y <= COORD_MAX);
    }
}

#[test]
fn timestamps_do_not_decrease_for_a_monotone_clock() {
    let mut last = i64::MIN;
    for &ts in &[0i64, 0, 7, 7, 1_000, 1_700_000_000_000] {
        let s = generate_signal_at(ts);
        assert!(s.timestamp >= last);
        last = s.timestamp;
    }
}

#[test]
fn ring_point_walks_the_square_ring() {
    // Start of the top side.
    assert_eq!(ring_point(250, 0), (250, 250));
    // Start of the right side.
    assert_eq!(ring_point(300, 600), (800, 200));
    // Start of the bottom side.
    assert_eq!(ring_point(300, 1200), (800, 800));
    // Start of the left side.
    assert_eq!(ring_point(300, 1800), (200, 800));
    // Last position before wrapping.
    assert_eq!(ring_point(250, 8 * 250 - 1), (250, 251));
}

#[test]
fn ring_point_keeps_chebyshev_radius() {
    for radius in [250, 300, 349] {
        for pos in (0..8 * radius).step_by(97) {
            let (x, y) = ring_point(radius, pos);
            let dx = (x - 500).abs();
            let dy = (y - 500).abs();
            assert_eq!(dx.max(dy), radius);
        }
    }
}

#[test]
fn generator_returns_independent_values() {
    // Each call hands back an owned value; changing a copy of one leaves
    // the other untouched.
    let a = generate_signal();
    let b = generate_signal();
    let mut a_copy: Signal = a;
    a_copy.x = a_copy.x.wrapping_add(1);
    a_copy.timestamp = -1;
    assert_eq!(a.x.wrapping_add(1), a_copy.x);
    assert!(a.timestamp >= 0);
    assert!(b.timestamp >= 0);
}
