use std::time::Duration;
use std::time::Instant;
use std::time::SystemTime;

use entitlement_stream::clock::positive_instant_at;
use entitlement_stream::clock::positive_instant_now;
use entitlement_stream::clock::to_positive_instant;

#[test]
fn test_to_instant() {
    let now_system_time = SystemTime::now();
    let now_instant = Instant::now();
    let future_system_time = now_system_time + Duration::from_secs(1024);
    let future_instant = to_positive_instant(future_system_time).unwrap();
    assert!(future_instant < now_instant + Duration::from_secs(1025));
    assert!(future_instant > now_instant + Duration::from_secs(1023));

    // An instant in the past will return something greater than the original now_instant, but less than a new instant.
    let past_system_time = now_system_time - Duration::from_secs(1024);
    let past_instant = to_positive_instant(past_system_time).unwrap();
    assert!(past_instant > now_instant);
    assert!(past_instant < Instant::now());
}

#[test]
fn a_time_ahead_lands_as_far_ahead() {
    let wall = SystemTime::UNIX_EPOCH + Duration::from_secs(1_000);
    let now = Instant::now();
    let time = wall + Duration::from_nanos(12_345_678_901);
    assert_eq!(
        positive_instant_at(time, wall, now),
        Some(now + Duration::from_nanos(12_345_678_901))
    );
}

#[test]
fn a_time_that_has_passed_lands_on_now() {
    let wall = SystemTime::UNIX_EPOCH + Duration::from_secs(1_000);
    let now = Instant::now();
    assert_eq!(positive_instant_at(SystemTime::UNIX_EPOCH, wall, now), Some(now));
    assert_eq!(
        positive_instant_at(wall - Duration::from_nanos(100), wall, now),
        Some(now)
    );
    assert_eq!(positive_instant_at(wall, wall, now), Some(now));
}

#[test]
fn a_time_that_no_instant_represents() {
    let half = Duration::from_secs(1 << 62);
    let time = SystemTime::UNIX_EPOCH + half;
    let wall = SystemTime::UNIX_EPOCH - half;
    assert_eq!(positive_instant_at(time, wall, Instant::now()), None);
}

#[test]
fn order_and_distance_of_times_are_kept() {
    let wall = SystemTime::UNIX_EPOCH + Duration::from_secs(1_000);
    let now = Instant::now();
    let one = positive_instant_at(wall + Duration::from_secs(5), wall, now).unwrap();
    let other = positive_instant_at(wall + Duration::from_secs(8), wall, now).unwrap();
    assert!(one < other);
    assert_eq!(other - one, Duration::from_secs(3));
    let passed = positive_instant_at(wall - Duration::from_secs(8), wall, now).unwrap();
    assert!(passed < one);
}

#[test]
fn a_time_ahead_lands_on_one_point() {
    let wall = SystemTime::UNIX_EPOCH + Duration::from_secs(1_000);
    let now = Instant::now();
    let time = wall + Duration::from_secs(60);
    let passed = Duration::from_secs(20);
    assert_eq!(
        positive_instant_at(time, wall + passed, now + passed),
        positive_instant_at(time, wall, now)
    );
}

#[test]
fn a_time_is_placed_by_the_moment_that_comes_with_it() {
    let (_, earlier) = positive_instant_now(SystemTime::UNIX_EPOCH, None);
    let time = SystemTime::now() + Duration::from_secs(60);
    let (instant, moment) = positive_instant_now(time, Some(earlier.get_reading()));
    assert!(earlier.get_reading().get() <= moment.get_reading().get());
    assert_eq!(
        instant,
        positive_instant_at(time, moment.get_time(), moment.get_reading().get())
    );
    assert!(instant.unwrap() > moment.get_reading().get());
}
