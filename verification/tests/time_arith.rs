use time_quiz::difference;
use time_quiz::Duration;
use time_quiz::Hours;
use time_quiz::Minutes;
use time_quiz::Time;

fn time(h: u8, m: u8) -> Time {
    Time { hours: Hours(h), minutes: Minutes(m) }
}

fn duration(h: u8, m: u8) -> Duration {
    Duration { hours: Hours(h), minutes: Minutes(m) }
}

#[test]
fn add_without_carry() {
    assert_eq!(time(10, 20).add(&Minutes(15)), time(10, 35));
}

#[test]
fn add_with_minute_carry() {
    assert_eq!(time(10, 50).add(&Minutes(20)), time(11, 10));
}

#[test]
fn add_wraps_around_midnight() {
    assert_eq!(time(23, 45).add(&Minutes(30)), time(0, 15));
}

#[test]
fn add_zero_offset_is_identity() {
    assert_eq!(time(7, 9).add(&Minutes(0)), time(7, 9));
}

#[test]
fn add_stays_in_range_at_the_edges() {
    let r = time(23, 59).add(&Minutes(59));
    assert!(r.hours.0 <= 23);
    assert!(r.minutes.0 <= 59);
    assert_eq!(r, time(0, 58));
}

#[test]
fn difference_componentwise() {
    assert_eq!(difference(&time(10, 30), &time(8, 15)), duration(2, 15));
}

#[test]
fn difference_is_symmetric() {
    assert_eq!(difference(&time(8, 15), &time(10, 30)), duration(2, 15));
}

#[test]
fn difference_with_minute_borrow_stays_componentwise() {
    // Deliberately not calendar subtraction: each field on its own.
    assert_eq!(difference(&time(10, 10), &time(9, 50)), duration(1, 40));
}

#[test]
fn difference_of_equal_times_is_zero() {
    assert_eq!(difference(&time(6, 6), &time(6, 6)), duration(0, 0));
}
