use signal_source::scheduler::pick_delay_ms;

fn tier_of(d: u64) -> usize {
    if (3000..4000).contains(&d) {
        0
    } else if (5000..8000).contains(&d) {
        1
    } else if (10000..15000).contains(&d) {
        2
    } else {
        panic!("delay {d} outside every tier");
    }
}

#[test]
fn every_delay_lands_in_a_tier() {
    for _ in 0..1000 {
        let d = pick_delay_ms();
        tier_of(d);
    }
}

#[test]
fn delay_tiers_follow_the_expected_proportions() {
    // Expected shares over 10,000 samples: rapid 1/8 = 12.5%, normal
    // 7/8 x 2/3 = 58.33%, slow the remaining 29.17%; each must land
    // within five percentage points of its share.
    let n = 10_000usize;
    let mut counts = [0usize; 3];
    for _ in 0..n {
        counts[tier_of(pick_delay_ms())] += 1;
    }
    let shares = [0.125f64, 7.0 / 8.0 * 2.0 / 3.0, 7.0 / 8.0 / 3.0];
    for (count, share) in counts.iter().zip(shares.iter()) {
        let got = *count as f64 / n as f64;
        assert!(
            (got - share).abs() < 0.05,
            "tier share {got} strays from expected {share}"
        );
    }
}
