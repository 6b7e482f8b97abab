use time_quiz::is_correct;
use time_quiz::quiz_step;
use time_quiz::Hours;
use time_quiz::Minutes;
use time_quiz::Question;
use time_quiz::QuizState;
use time_quiz::Time;

fn time(h: u8, m: u8) -> Time {
    Time { hours: Hours(h), minutes: Minutes(m) }
}

fn addition_question() -> Question {
    // 23h45 + 30m, whose expected answer is 00h15.
    Question::TimePlusMinutes { base_time: time(23, 45), minutes_diff: Minutes(30) }
}

fn difference_question() -> Question {
    // Difference between 10h30 and 08h15, expected 02h15.
    Question::TimeDifference { start_time: time(10, 30), end_time: time(8, 15) }
}

#[test]
fn addition_answer_is_checked_structurally() {
    let q = addition_question();
    assert!(is_correct("00h15", &q));
    assert!(is_correct("0h15", &q));
    assert!(is_correct(" 00h15\n", &q));
    assert!(!is_correct("00h16", &q));
    assert!(!is_correct("23h45", &q));
    assert!(!is_correct("nonsense", &q));
}

#[test]
fn difference_answer_is_checked_structurally() {
    let q = difference_question();
    assert!(is_correct("02h15", &q));
    assert!(is_correct("2h15", &q));
    assert!(!is_correct("02h16", &q));
    assert!(!is_correct("", &q));
}

#[test]
fn render_addition_prompt() {
    let q = Question::TimePlusMinutes { base_time: time(9, 5), minutes_diff: Minutes(7) };
    assert_eq!(q.render(), "09h05 + 7m ?");
    let q2 = Question::TimePlusMinutes { base_time: time(23, 45), minutes_diff: Minutes(30) };
    assert_eq!(q2.render(), "23h45 + 30m ?");
}

#[test]
fn render_difference_prompt_names_end_time_first() {
    let q = difference_question();
    assert_eq!(q.render(), "Difference between 08h15 and 10h30 ?");
}

#[test]
fn quiz_step_finishes_only_on_the_expected_answer() {
    let q = addition_question();
    let s0 = QuizState::AwaitingInput;
    let s1 = quiz_step(s0, &q, "23h45");
    assert_eq!(s1, QuizState::AwaitingInput);
    let s2 = quiz_step(s1, &q, "garbage");
    assert_eq!(s2, QuizState::AwaitingInput);
    let s3 = quiz_step(s2, &q, "00h15");
    assert_eq!(s3, QuizState::Correct);
    let s4 = quiz_step(s3, &q, "whatever comes later");
    assert_eq!(s4, QuizState::Correct);
}

#[test]
fn quiz_step_accepts_the_rendered_expected_answer() {
    let q = difference_question();
    let expected = time_quiz::difference(&time(10, 30), &time(8, 15));
    let next = quiz_step(QuizState::AwaitingInput, &q, expected.render().as_str());
    assert_eq!(next, QuizState::Correct);
}
