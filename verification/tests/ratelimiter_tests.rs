use nautilus_network::ratelimiter::{KeyedRateLimiter, TokenBucket};

#[test]
fn full_burst_is_admitted_then_denied() {
    // capacity 2, one unit per 100 ns
    let mut b = TokenBucket::new(2, 100, 0);
    assert!(b.try_acquire(0));
    assert!(b.try_acquire(0));
    // within the same instant the burst is spent
    assert!(!b.try_acquire(0));
}

#[test]
fn no_more_than_capacity_within_one_period() {
    let mut b = TokenBucket::new(3, 1_000, 0);
    let mut admitted = 0u64;
    // a dense pattern of attempts, all inside the window [500, 1500)
    for t in [500u64, 500, 600, 700, 900, 1_100, 1_300, 1_499] {
        if b.try_acquire(t) {
            admitted += 1;
        }
    }
    assert!(admitted <= 3, "admitted {admitted} of capacity 3 within one period");
}

#[test]
fn credit_refills_with_elapsed_time() {
    let mut b = TokenBucket::new(1, 100, 0);
    assert!(b.try_acquire(0));
    assert!(!b.try_acquire(50));
    // one full period after the start, one unit is available again
    assert!(b.try_acquire(100));
}

#[test]
fn denied_attempt_consumes_nothing() {
    let mut b = TokenBucket::new(1, 100, 0);
    assert!(b.try_acquire(0));
    // repeated denied attempts do not postpone availability
    assert!(!b.try_acquire(10));
    assert!(!b.try_acquire(20));
    assert!(b.try_acquire(100));
}

#[test]
fn next_ready_names_the_admitting_instant() {
    let mut b = TokenBucket::new(1, 100, 0);
    assert!(b.try_acquire(40));
    assert!(!b.try_acquire(60));
    let ready = b.next_ready_ns();
    assert_eq!(ready, 140);
    assert!(!b.try_acquire(139));
    assert!(b.try_acquire(ready));
}

#[test]
fn idle_time_never_accrues_beyond_capacity() {
    let mut b = TokenBucket::new(2, 100, 0);
    // a very long idle stretch refills to the burst capacity, not beyond
    assert!(b.try_acquire(1_000_000));
    assert!(b.try_acquire(1_000_000));
    assert!(!b.try_acquire(1_000_000));
}

#[test]
fn randomized_pattern_respects_the_window_bound() {
    let mut b = TokenBucket::new(5, 1_000, 0);
    let window_start: u64 = 10_000;
    let mut seed: u64 = 0x1234_5678;
    let mut t = window_start;
    let mut times = Vec::new();
    loop {
        seed = seed.wrapping_mul(6364136223846793005).wrapping_add(1442695040888963407);
        t += seed % 9;
        if t >= window_start + 1_000 {
            break;
        }
        times.push(t);
    }
    assert!(times.len() > 50, "the pattern should be dense");
    let mut admitted = 0u64;
    for &instant in &times {
        if b.try_acquire(instant) {
            admitted += 1;
        }
    }
    assert!(admitted <= 5, "admitted {admitted} of capacity 5 within one period");
}

#[test]
fn keys_are_throttled_independently() {
    let mut limiter = KeyedRateLimiter::new(1, 100);
    // the first request of each key opens a full bucket
    assert!(limiter.acquire(1, 0));
    assert!(limiter.acquire(2, 0));
    // each key's burst is spent separately
    assert!(!limiter.acquire(1, 50));
    assert!(!limiter.acquire(2, 50));
    // and each refills separately
    assert!(limiter.acquire(1, 100));
    assert!(!limiter.acquire(1, 150));
    assert!(limiter.acquire(2, 100));
}

#[test]
fn keyed_limiter_reuses_the_bucket_of_a_key() {
    let mut limiter = KeyedRateLimiter::new(2, 1_000);
    assert!(limiter.acquire(9, 0));
    assert!(limiter.acquire(9, 0));
    assert!(!limiter.acquire(9, 0));
    assert_eq!(limiter.buckets.len(), 1);
}

#[test]
fn clock_going_backwards_is_harmless() {
    let mut b = TokenBucket::new(1, 100, 500);
    assert!(b.try_acquire(500));
    // an earlier timestamp contributes no refill and admits nothing
    assert!(!b.try_acquire(400));
    assert!(b.try_acquire(600));
}
