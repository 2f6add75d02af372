use discli::hooks::executor::RateLimiter;

const SECOND: u128 = 1_000_000_000;

#[test]
fn test_rate_limiter_user() {
    let mut limiter = RateLimiter::new(2, 10, 60);

    assert!(limiter.check_user("user1"));
    assert!(limiter.check_user("user1"));

    assert!(!limiter.check_user("user1"));

    assert!(limiter.check_user("user2"));
}

#[test]
fn test_rate_limiter_channel() {
    let mut limiter = RateLimiter::new(5, 2, 60);

    assert!(limiter.check_channel("chan1"));
    assert!(limiter.check_channel("chan1"));

    assert!(!limiter.check_channel("chan1"));

    assert!(limiter.check_channel("chan2"));
}

#[test]
fn third_request_within_window_is_rejected_and_admitted_after_it() {
    let mut limiter = RateLimiter::new(2, 10, 60);
    assert!(limiter.check_user_at("u1", 0));
    assert!(limiter.check_user_at("u1", SECOND));
    assert!(!limiter.check_user_at("u1", 2 * SECOND));
    assert!(limiter.check_user_at("u1", 61 * SECOND));
}

#[test]
fn entry_exactly_one_window_old_still_counts() {
    let mut limiter = RateLimiter::new(1, 1, 60);
    assert!(limiter.check_user_at("u1", 0));
    assert!(!limiter.check_user_at("u1", 60 * SECOND));
    assert!(limiter.check_user_at("u1", 60 * SECOND + 1));
}

#[test]
fn rejected_requests_are_not_recorded() {
    let mut limiter = RateLimiter::new(1, 1, 10);
    assert!(limiter.check_user_at("u1", 0));
    assert!(!limiter.check_user_at("u1", 5 * SECOND));
    assert!(!limiter.check_user_at("u1", 10 * SECOND));
    // Only the admission at 0 counts: it is gone just after 10 s.
    assert!(limiter.check_user_at("u1", 10 * SECOND + 1));
}

#[test]
fn users_and_channels_are_counted_apart() {
    let mut limiter = RateLimiter::new(1, 1, 60);
    assert!(limiter.check_user_at("x", 0));
    assert!(limiter.check_channel_at("x", 0));
    assert!(!limiter.check_user_at("x", 1));
    assert!(!limiter.check_channel_at("x", 1));
}

#[test]
fn limit_of_zero_admits_nobody() {
    let mut limiter = RateLimiter::new(0, 0, 60);
    assert!(!limiter.check_user_at("u1", 0));
    assert!(!limiter.check_channel_at("c1", 0));
    assert!(!limiter.check_user_at("u1", 1000 * SECOND));
}

#[test]
fn window_of_zero_seconds_forgets_at_once() {
    let mut limiter = RateLimiter::new(1, 1, 0);
    assert!(limiter.check_user_at("u1", 5));
    assert!(!limiter.check_user_at("u1", 5));
    assert!(limiter.check_user_at("u1", 6));
}

#[test]
fn eviction_stops_at_the_first_young_entry() {
    let mut limiter = RateLimiter::new(2, 2, 10);
    assert!(limiter.check_user_at("a", 0));
    assert!(limiter.check_user_at("b", 8 * SECOND));
    assert!(limiter.check_user_at("a", 9 * SECOND));
    assert!(!limiter.check_user_at("a", 10 * SECOND));
    // At 11 s the entry of `a` made at 0 is gone, the one made at 9 s is not.
    assert!(limiter.check_user_at("a", 11 * SECOND));
    assert!(!limiter.check_user_at("a", 12 * SECOND));
}

#[test]
fn clock_of_the_limiter_does_not_run_backwards() {
    let mut limiter = RateLimiter::new(1, 1, 60);
    assert!(limiter.check_user_at("u1", 1_000 * SECOND));
    let now = limiter.now();
    assert!(now >= 1_000 * SECOND);
    assert!(!limiter.check_user("u1"));
}

#[test]
fn burst_of_max_plus_one() {
    for max in 0u32..6 {
        let mut limiter = RateLimiter::new(max, max, 60);
        for k in 0..max {
            assert!(limiter.check_user_at("u", u128::from(k) * SECOND));
        }
        assert!(!limiter.check_user_at("u", u128::from(max) * SECOND));
    }
}
