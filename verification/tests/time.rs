use calendar2discord::time::{
    idle_sleep, sleep_until, Instant, SleepDuration, IDLE_POLL_SECONDS, NANOS_PER_SECOND,
};

fn at(secs: i64, nanos: u32) -> Instant {
    Instant { secs, nanos }
}

fn wait(secs: u64, nanos: u32) -> SleepDuration {
    SleepDuration { secs, nanos }
}

#[test]
fn constants_have_their_values() {
    assert_eq!(IDLE_POLL_SECONDS, 60);
    assert_eq!(NANOS_PER_SECOND, 1_000_000_000);
    assert_eq!(idle_sleep(), wait(60, 0));
}

#[test]
fn end_ninety_seconds_ahead_gives_ninety_seconds() {
    let now = at(1_700_000_000, 0);
    let end = at(1_700_000_090, 0);
    assert_eq!(sleep_until(&end, &now), wait(90, 0));
}

#[test]
fn wait_is_exact_to_the_nanosecond() {
    assert_eq!(sleep_until(&at(10, 500_000_000), &at(7, 250_000_000)), wait(3, 250_000_000));
    assert_eq!(sleep_until(&at(10, 100_000_000), &at(7, 900_000_000)), wait(2, 200_000_000));
    assert_eq!(sleep_until(&at(5, 1), &at(5, 0)), wait(0, 1));
    assert_eq!(sleep_until(&at(6, 0), &at(5, 999_999_999)), wait(0, 1));
}

#[test]
fn wait_shorter_than_idle_interval_is_kept() {
    assert_eq!(sleep_until(&at(101, 0), &at(100, 0)), wait(1, 0));
}

#[test]
fn wait_longer_than_idle_interval_is_kept() {
    assert_eq!(sleep_until(&at(86_500, 0), &at(100, 0)), wait(86_400, 0));
}

#[test]
fn end_reached_gives_idle_interval() {
    assert_eq!(sleep_until(&at(100, 0), &at(100, 0)), wait(60, 0));
    assert_eq!(sleep_until(&at(100, 5), &at(100, 5)), wait(60, 0));
}

#[test]
fn end_passed_gives_idle_interval() {
    assert_eq!(sleep_until(&at(100, 0), &at(100, 1)), wait(60, 0));
    assert_eq!(sleep_until(&at(100, 0), &at(5_000, 0)), wait(60, 0));
    assert_eq!(sleep_until(&at(-5, 0), &at(5, 0)), wait(60, 0));
}

#[test]
fn times_before_1970_are_handled() {
    assert_eq!(sleep_until(&at(-10, 0), &at(-100, 0)), wait(90, 0));
    assert_eq!(sleep_until(&at(10, 0), &at(-10, 500_000_000)), wait(19, 500_000_000));
}

#[test]
fn nanoseconds_above_one_second_count_on() {
    assert_eq!(sleep_until(&at(10, 1_500_000_000), &at(10, 0)), wait(1, 500_000_000));
    assert_eq!(sleep_until(&at(11, 0), &at(10, 1_000_000_000)), wait(60, 0));
}

#[test]
fn longest_wait_is_kept() {
    let end = at(i64::MAX, 999_999_999);
    let now = at(i64::MIN, 0);
    assert_eq!(sleep_until(&end, &now), wait(u64::MAX, 999_999_999));
}

#[test]
fn wait_that_does_not_fit_gives_idle_interval() {
    let end = at(i64::MAX, 1_000_000_000);
    let now = at(i64::MIN, 0);
    assert_eq!(sleep_until(&end, &now), wait(60, 0));
    assert_eq!(sleep_until(&at(i64::MAX, 4_000_000_000), &now), wait(60, 0));
}

#[test]
fn is_before_goes_by_seconds_then_nanoseconds() {
    assert!(at(1, 0).is_before(&at(2, 0)));
    assert!(at(1, 5).is_before(&at(1, 6)));
    assert!(!at(1, 5).is_before(&at(1, 5)));
    assert!(!at(2, 0).is_before(&at(1, 999_999_999)));
    assert!(at(-1, 0).is_before(&at(0, 0)));
    assert!(!at(1, 0).is_before(&at(0, 1_000_000_000)));
    assert!(at(i64::MIN, 0).is_before(&at(i64::MAX, u32::MAX)));
}
