use time_quiz::random_hours;
use time_quiz::random_minutes;
use time_quiz::random_offset;
use time_quiz::random_question;
use time_quiz::random_time;
use time_quiz::Question;

#[test]
fn random_hours_stay_in_range() {
    for _ in 0..500 {
        assert!(random_hours().0 <= 23);
    }
}

#[test]
fn random_minutes_stay_in_range() {
    for _ in 0..500 {
        assert!(random_minutes().0 <= 59);
    }
}

#[test]
fn random_offsets_are_nonzero_and_in_range() {
    for _ in 0..500 {
        let m = random_offset();
        assert!(1 <= m.0 && m.0 <= 59);
    }
}

#[test]
fn random_times_are_valid() {
    for _ in 0..500 {
        let t = random_time();
        assert!(t.hours.0 <= 23);
        assert!(t.minutes.0 <= 59);
    }
}

#[test]
fn random_questions_are_valid_and_both_kinds_occur() {
    let mut additions: usize = 0;
    let mut differences: usize = 0;
    for _ in 0..600 {
        match random_question() {
            Question::TimePlusMinutes { base_time, minutes_diff } => {
                assert!(base_time.hours.0 <= 23);
                assert!(base_time.minutes.0 <= 59);
                assert!(1 <= minutes_diff.0 && minutes_diff.0 <= 59);
                additions += 1;
            }
            Question::TimeDifference { start_time, end_time } => {
                assert!(start_time.hours.0 <= 23);
                assert!(start_time.minutes.0 <= 59);
                assert!(end_time.hours.0 <= 23);
                assert!(end_time.minutes.0 <= 59);
                differences += 1;
            }
        }
    }
    // Weighted two to one: both kinds all but surely show up in 600 draws.
    assert!(additions > 0);
    assert!(differences > 0);
}

#[test]
fn random_values_vary() {
    // A generator that returned one fixed time every call would fail this.
    let first = random_time();
    let mut saw_other = false;
    for _ in 0..2000 {
        if random_time() != first {
            saw_other = true;
            break;
        }
    }
    assert!(saw_other);
}
