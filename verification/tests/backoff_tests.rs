use nautilus_network::backoff::ExponentialBackoff;

fn standard() -> ExponentialBackoff {
    // initial 2000 ms, cap 30000 ms, factor 1.5, jitter bound 100 ms
    ExponentialBackoff::new(2_000, 30_000, 1_500, 100)
}

#[test]
fn fresh_state_starts_at_initial_delay() {
    let b = standard();
    assert_eq!(b.consecutive_failures, 0);
    assert_eq!(b.current_delay_ms, 2_000);
    assert_eq!(b.delay_with_jitter(0), 2_000);
    assert_eq!(b.delay_with_jitter(100), 2_100);
}

#[test]
fn five_failures_grow_delay_geometrically() {
    let mut b = standard();
    let mut observed = Vec::new();
    for _ in 0..5 {
        b.advance();
        observed.push(b.current_delay_ms);
    }
    // 2000 * 1.5^n, truncated to whole milliseconds at each step
    assert_eq!(observed, vec![3_000, 4_500, 6_750, 10_125, 15_187]);
    assert_eq!(b.consecutive_failures, 5);
    // the jittered delay is min(30000, 2000 * 1.5^5) plus the drawn jitter
    assert_eq!(b.delay_with_jitter(0), 15_187);
    assert_eq!(b.delay_with_jitter(99), 15_286);
}

#[test]
fn delay_is_capped_at_maximum() {
    let mut b = standard();
    let mut previous = b.current_delay_ms;
    for _ in 0..20 {
        b.advance();
        assert!(b.current_delay_ms >= previous, "delay must never shrink");
        assert!(b.current_delay_ms >= 2_000);
        assert!(b.current_delay_ms <= 30_000);
        previous = b.current_delay_ms;
    }
    assert_eq!(b.current_delay_ms, 30_000);
    // even at the cap, jitter only widens the delay
    assert_eq!(b.delay_with_jitter(100), 30_100);
}

#[test]
fn reset_returns_to_initial_delay_regardless_of_failures() {
    let mut b = standard();
    for _ in 0..7 {
        b.advance();
    }
    assert!(b.current_delay_ms > 2_000);
    b.reset();
    assert_eq!(b.consecutive_failures, 0);
    assert_eq!(b.current_delay_ms, 2_000);
    assert_eq!(b.delay_with_jitter(37), 2_037);
}

#[test]
fn factor_of_one_keeps_delay_constant() {
    let mut b = ExponentialBackoff::new(500, 10_000, 1_000, 0);
    for _ in 0..4 {
        b.advance();
        assert_eq!(b.current_delay_ms, 500);
    }
    assert_eq!(b.consecutive_failures, 4);
}

#[test]
fn failure_count_tracks_every_advance() {
    let mut b = standard();
    b.advance();
    b.advance();
    assert_eq!(b.consecutive_failures, 2);
    b.reset();
    b.advance();
    assert_eq!(b.consecutive_failures, 1);
    assert_eq!(b.current_delay_ms, 3_000);
}
