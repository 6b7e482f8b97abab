use vstd::prelude::*;

use crate::fmt::digit_char;
use crate::fmt::hhmm_text;
use crate::fmt::two_digit_text;
use crate::parse::all_digits;
use crate::parse::digit_val;
use crate::parse::duration_parse_spec;
use crate::parse::hhmm_hours;
use crate::parse::hhmm_minutes;
use crate::parse::is_digit;
use crate::parse::is_space_char;
use crate::parse::lemma_h_pos_at;
use crate::parse::lemma_trim_end_at;
use crate::parse::lemma_trim_start_at;
use crate::parse::num_val;
use crate::parse::time_parse_spec;
use crate::parse::trim_spec;
use crate::parse::valid_hhmm;
use crate::parse::ParseError;
use crate::question::is_correct_spec;
use crate::question::Question;
use crate::time::difference_spec;
use crate::time::Duration;
use crate::time::Hours;
use crate::time::Minutes;
use crate::time::Time;

verus! {

proof fn lemma_digit_char_facts(d: int)
    requires
        0 <= d <= 9,
    ensures
        is_digit(digit_char(d)),
        digit_val(digit_char(d)) == d,
        digit_char(d) != 'h',
        !is_space_char(digit_char(d)),
{
}

proof fn lemma_two_digit_val(n: int)
    requires
        0 <= n <= 99,
    ensures
        two_digit_text(n).len() == 2,
        all_digits(two_digit_text(n)),
        num_val(two_digit_text(n)) == n,
{
    lemma_digit_char_facts(n / 10);
    lemma_digit_char_facts(n % 10);
    let t = two_digit_text(n);
    assert(t.drop_last() =~= seq![digit_char(n / 10)]);
    assert(seq![digit_char(n / 10)].drop_last() =~= Seq::<char>::empty());
    assert(num_val(Seq::<char>::empty()) == 0);
    assert(seq![digit_char(n / 10)].last() == digit_char(n / 10));
    assert(num_val(seq![digit_char(n / 10)]) == digit_val(digit_char(n / 10)));
    assert(num_val(t) == n);
}

/// A "HHhMM" rendering is untouched by trimming, has the valid answer
/// shape, and its fields denote the rendered values.
proof fn lemma_hhmm_text_parses(h: int, m: int)
    requires
        0 <= h <= 99,
        0 <= m <= 99,
    ensures
        trim_spec(hhmm_text(h, m)) == hhmm_text(h, m),
        valid_hhmm(hhmm_text(h, m)),
        hhmm_hours(hhmm_text(h, m)) == h,
        hhmm_minutes(hhmm_text(h, m)) == m,
{
    let s = hhmm_text(h, m);
    lemma_two_digit_val(h);
    lemma_two_digit_val(m);
    lemma_digit_char_facts(h / 10);
    lemma_digit_char_facts(h % 10);
    lemma_digit_char_facts(m / 10);
    lemma_digit_char_facts(m % 10);
    assert(s.len() == 5);
    assert(s[0] == digit_char(h / 10));
    assert(s[1] == digit_char(h % 10));
    assert(s[2] == 'h');
    assert(s[3] == digit_char(m / 10));
    assert(s[4] == digit_char(m % 10));
    assert('h' as int == 104);
    lemma_trim_start_at(s, 0);
    lemma_trim_end_at(s, 5);
    assert(s.subrange(0, 5) =~= s);
    assert(trim_spec(s) == s);
    lemma_h_pos_at(s, 2);
    assert(s.subrange(0, 2) =~= two_digit_text(h));
    assert(s.subrange(3, 5) =~= two_digit_text(m));
    assert(valid_hhmm(s));
    assert(hhmm_hours(s) == h);
    assert(hhmm_minutes(s) == m);
}

/// Formatting a valid time as "HHhMM" and parsing the result yields
/// the original time back.
pub proof fn lemma_time_round_trip(t: Time)
    requires
        t.wf(),
    ensures
        time_parse_spec(t.text()) == Ok::<Time, ParseError>(t),
{
    lemma_hhmm_text_parses(t.hours.0 as int, t.minutes.0 as int);
    assert(t == Time { hours: Hours(t.hours.0), minutes: Minutes(t.minutes.0) });
}

/// Formatting a valid duration as "HHhMM" and parsing the result
/// yields the original duration back.
pub proof fn lemma_duration_round_trip(d: Duration)
    requires
        d.wf(),
    ensures
        duration_parse_spec(d.text()) == Ok::<Duration, ParseError>(d),
{
    lemma_hhmm_text_parses(d.hours.0 as int, d.minutes.0 as int);
    assert(d == Duration { hours: Hours(d.hours.0), minutes: Minutes(d.minutes.0) });
}

/// Adding any valid minute offset to a valid time yields a valid time:
/// the wrapped hour stays in `[0, 23]` and the wrapped minute count in
/// `[0, 59]`.
pub proof fn lemma_add_stays_valid(t: Time, m: Minutes)
    requires
        t.wf(),
        m.wf(),
    ensures
        t.add_spec(m).wf(),
{
}

/// The component-wise absolute difference of two valid times is a
/// valid duration.
pub proof fn lemma_difference_stays_valid(a: Time, b: Time)
    requires
        a.wf(),
        b.wf(),
    ensures
        difference_spec(a, b).wf(),
{
}

/// The canonical "HHhMM" rendering of a question's expected answer.
pub open spec fn expected_answer_text(q: Question) -> Seq<char> {
    match q {
        Question::TimePlusMinutes { base_time, minutes_diff } => base_time.add_spec(
            minutes_diff,
        ).text(),
        Question::TimeDifference { start_time, end_time } => difference_spec(
            start_time,
            end_time,
        ).text(),
    }
}

/// The rendered expected answer of a question is accepted as correct.
pub proof fn lemma_expected_answer_accepted(q: Question)
    requires
        q.wf(),
    ensures
        is_correct_spec(expected_answer_text(q), q),
{
    match q {
        Question::TimePlusMinutes { base_time, minutes_diff } => {
            lemma_add_stays_valid(base_time, minutes_diff);
            lemma_time_round_trip(base_time.add_spec(minutes_diff));
        },
        Question::TimeDifference { start_time, end_time } => {
            lemma_difference_stays_valid(start_time, end_time);
            lemma_duration_round_trip(difference_spec(start_time, end_time));
        },
    }
}

} // verus!
