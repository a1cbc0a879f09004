use proyects_api::RateLimiter;

const IP_A: u128 = 0x7f000001;
const IP_B: u128 = 0x7f000002;

#[test]
fn test_burst_limit_within_one_second() {
    let mut limiter = RateLimiter::new(100, 2);
    assert!(limiter.check_rate_limit(IP_A, 1_000));
    assert!(limiter.check_rate_limit(IP_A, 1_100));
    assert!(!limiter.check_rate_limit(IP_A, 1_200));
}

#[test]
fn test_window_slides() {
    let mut limiter = RateLimiter::new(100, 2);
    assert!(limiter.check_rate_limit(IP_A, 1_000));
    assert!(limiter.check_rate_limit(IP_A, 1_100));
    assert!(!limiter.check_rate_limit(IP_A, 1_200));
    // 1_000 has left the trailing second by 2_050; one slot is free again.
    assert!(limiter.check_rate_limit(IP_A, 2_050));
    assert!(!limiter.check_rate_limit(IP_A, 2_060));
}

#[test]
fn test_clients_are_independent() {
    let mut limiter = RateLimiter::new(100, 1);
    assert!(limiter.check_rate_limit(IP_A, 1_000));
    assert!(limiter.check_rate_limit(IP_B, 1_000));
    assert!(!limiter.check_rate_limit(IP_A, 1_001));
}

#[test]
fn test_zero_burst_admits_nothing() {
    let mut limiter = RateLimiter::new(100, 0);
    assert!(!limiter.check_rate_limit(IP_A, 1_000));
}

#[test]
fn test_stale_clients_are_swept() {
    let mut limiter = RateLimiter::new(100, 5);
    assert!(limiter.check_rate_limit(IP_A, 1_000));
    assert_eq!(limiter.clients.len(), 1);
    // More than a minute later another client arrives; the sweep runs and
    // the idle client's record is discarded.
    assert!(limiter.check_rate_limit(IP_B, 70_000));
    assert_eq!(limiter.clients.len(), 1);
    assert_eq!(limiter.clients[0].ip, IP_B);
}
