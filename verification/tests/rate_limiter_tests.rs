use scan_engine::rate_limiter::{RateLimiter, MILLIONTH, TOKEN};

#[test]
fn full_bucket_gives_exactly_its_capacity() {
    let mut l = RateLimiter::new(5, 0);
    assert_eq!(l.available(), 5 * TOKEN);
    for taken in 1..=5u128 {
        assert!(l.acquire_at(0));
        assert_eq!(l.available(), (5 - taken) * TOKEN);
    }
    assert!(!l.acquire_at(0));
    assert_eq!(l.available(), 0);
    assert!(!l.acquire_at(0));
    assert_eq!(l.available(), 0);
}

#[test]
fn refill_is_rate_times_time() {
    let mut l = RateLimiter::new(100, 50);
    for _ in 0..100 {
        assert!(l.acquire_at(0));
    }
    assert!(!l.acquire_at(10_000));
    assert_eq!(l.available(), TOKEN / 2);
    assert!(l.acquire_at(20_000));
    assert_eq!(l.available(), 0);
    assert!(l.acquire_at(1_020_000));
    assert_eq!(l.available(), 49 * TOKEN);
}

#[test]
fn time_is_counted_once() {
    let mut l = RateLimiter::new(10, 1);
    for _ in 0..10 {
        assert!(l.acquire_at(0));
    }
    assert_eq!(l.last_refill(), 0);
    assert!(l.acquire_at(1_000_000));
    assert_eq!(l.last_refill(), 1_000_000);
    assert_eq!(l.available(), 0);
    assert!(!l.acquire_at(1_000_000));
    assert!(!l.acquire_at(1_000_000));
    assert_eq!(l.available(), 0);
    assert!(!l.acquire_at(1_500_000));
    assert_eq!(l.available(), TOKEN / 2);
    assert!(l.acquire_at(2_000_000));
    assert_eq!(l.available(), 0);
}

#[test]
fn clock_that_reads_earlier_gains_nothing() {
    let mut l = RateLimiter::new(1, 1000);
    assert!(l.acquire_at(5_000_000));
    assert!(!l.acquire_at(1_000_000));
    assert_eq!(l.last_refill(), 5_000_000);
    assert_eq!(l.available(), 0);
}

#[test]
fn refill_stops_at_capacity() {
    let mut l = RateLimiter::new(3, 1000);
    assert!(l.acquire_at(0));
    assert!(l.acquire_at(u64::MAX));
    assert_eq!(l.available(), 2 * TOKEN);
    let mut big = RateLimiter::with_millionths(u64::MAX, u64::MAX);
    assert!(big.acquire_at(u64::MAX));
    assert_eq!(big.available(), u64::MAX as u128 * MILLIONTH - TOKEN);
}

#[test]
fn partial_tokens_are_kept_but_not_spent() {
    let mut l = RateLimiter::new(1, 1);
    assert!(l.acquire_at(0));
    assert!(!l.acquire_at(999_999));
    assert_eq!(l.available(), 999_999 * MILLIONTH);
    assert!(l.acquire_at(1_000_000));
    assert_eq!(l.available(), 0);
}

#[test]
fn capacities_and_rates_may_be_fractions() {
    let mut half = RateLimiter::with_millionths(500_000, 250_000);
    assert_eq!(half.available(), TOKEN / 2);
    assert!(!half.acquire_at(0));
    assert!(!half.acquire_at(10_000_000));
    assert_eq!(half.available(), TOKEN / 2);
    let mut slow = RateLimiter::with_millionths(1_500_000, 250_000);
    assert!(slow.acquire_at(0));
    assert_eq!(slow.available(), TOKEN / 2);
    assert!(!slow.acquire_at(1_000_000));
    assert_eq!(slow.available(), 750_000 * MILLIONTH);
    assert!(slow.acquire_at(2_000_000));
    assert_eq!(slow.available(), 0);
}

#[test]
fn empty_capacity_never_gives() {
    let mut l = RateLimiter::new(0, 50);
    assert!(!l.acquire_at(1_000_000));
    assert!(!l.acquire());
}

#[test]
fn clock_driven_requests_drain_the_bucket() {
    let mut l = RateLimiter::new(2, 0);
    assert!(l.acquire());
    assert!(l.acquire());
    assert!(!l.acquire());
    let mark = l.last_refill();
    assert!(!l.acquire());
    assert!(l.last_refill() >= mark);
}
