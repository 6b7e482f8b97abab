use vstd::prelude::*;

use crate::fmt::digit_char;
use crate::fmt::two_digit_string;
use crate::fmt::two_digit_text;
use crate::parse::duration_parse_spec;
use crate::parse::time_parse_spec;
use crate::parse::ParseError;
use crate::time::difference_spec;
use crate::time::Duration;
use crate::time::Minutes;
use crate::time::Time;

verus! {

/// One quiz prompt, with everything the expected answer is computed
/// from baked in at generation time.
#[derive(Clone, Copy, Debug, PartialEq, Eq, Structural)]
pub enum Question {
    TimePlusMinutes { base_time: Time, minutes_diff: Minutes },
    TimeDifference { start_time: Time, end_time: Time },
}

/// `n` in `[0, 99]` rendered without padding: one digit below ten, two
/// digits otherwise.
pub open spec fn dec_text(n: int) -> Seq<char> {
    if n < 10 {
        seq![digit_char(n)]
    } else {
        two_digit_text(n)
    }
}

/// `n` rendered without padding.
pub fn dec_string(n: u8) -> (r: String)
    requires
        n <= 99,
    ensures
        r@ =~= dec_text(n as int),
{
    if n < 10 {
        let r = crate::fmt::digit_str(n).to_owned();
        proof {
            assert(r@ =~= dec_text(n as int));
        }
        r
    } else {
        two_digit_string(n)
    }
}

/// The prompt prefix of a difference question.
pub open spec fn diff_prefix_text() -> Seq<char> {
    seq!['D', 'i', 'f', 'f', 'e', 'r', 'e', 'n', 'c', 'e', ' ', 'b', 'e', 't', 'w', 'e', 'e', 'n', ' ']
}

/// What rendering a question yields: the addition prompt
/// "HHhMM + Nm ?", or the difference prompt
/// "Difference between HHhMM and HHhMM ?" with the end time first.
pub open spec fn question_text(q: Question) -> Seq<char> {
    match q {
        Question::TimePlusMinutes { base_time, minutes_diff } => base_time.text() + seq![
            ' ',
            '+',
            ' ',
        ] + dec_text(minutes_diff.0 as int) + seq!['m', ' ', '?'],
        Question::TimeDifference { start_time, end_time } => diff_prefix_text() + end_time.text()
            + seq![' ', 'a', 'n', 'd', ' '] + start_time.text() + seq![' ', '?'],
    }
}

impl Question {
    pub open spec fn wf(self) -> bool {
        match self {
            Question::TimePlusMinutes { base_time, minutes_diff } => base_time.wf()
                && minutes_diff.wf(),
            Question::TimeDifference { start_time, end_time } => start_time.wf() && end_time.wf(),
        }
    }

    /// Render the question as the prompt line shown to the player.
    pub fn render(&self) -> (r: String)
        requires
            self.wf(),
        ensures
            r@ =~= question_text(*self),
    {
        match self {
            Question::TimePlusMinutes { base_time, minutes_diff } => {
                let plus = " + ";
                let tail = "m ?";
                proof {
                    reveal_strlit(" + ");
                    reveal_strlit("m ?");
                    assert(plus@ =~= seq![' ', '+', ' ']);
                    assert(tail@ =~= seq!['m', ' ', '?']);
                }
                let d = dec_string(minutes_diff.0);
                let r = base_time.render().concat(plus).concat(d.as_str()).concat(tail);
                proof {
                    assert(r@ =~= question_text(*self));
                }
                r
            },
            Question::TimeDifference { start_time, end_time } => {
                let prefix = "Difference between ";
                let and_sep = " and ";
                let tail = " ?";
                proof {
                    reveal_strlit("Difference between ");
                    reveal_strlit(" and ");
                    reveal_strlit(" ?");
                    assert(prefix@ =~= diff_prefix_text());
                    assert(and_sep@ =~= seq![' ', 'a', 'n', 'd', ' ']);
                    assert(tail@ =~= seq![' ', '?']);
                }
                let second = start_time.render();
                let r = prefix.to_owned().concat(end_time.render().as_str()).concat(
                    and_sep,
                ).concat(second.as_str()).concat(tail);
                proof {
                    assert(r@ =~= question_text(*self));
                }
                r
            },
        }
    }
}

/// An answer line is correct when it parses and the parsed value equals
/// the expected answer of the question: the base time plus the offset,
/// or the component-wise absolute difference of the two times.
pub open spec fn is_correct_spec(s: Seq<char>, q: Question) -> bool {
    match q {
        Question::TimePlusMinutes { base_time, minutes_diff } => time_parse_spec(s) == Ok::<
            Time,
            ParseError,
        >(base_time.add_spec(minutes_diff)),
        Question::TimeDifference { start_time, end_time } => duration_parse_spec(s) == Ok::<
            Duration,
            ParseError,
        >(difference_spec(start_time, end_time)),
    }
}

/// Decide whether an answer line answers the question; a line that does
/// not parse counts as a wrong answer.
pub fn is_correct(input: &str, question: &Question) -> (r: bool)
    requires
        question.wf(),
    ensures
        r == is_correct_spec(input@, *question),
{
    match question {
        Question::TimePlusMinutes { base_time, minutes_diff } => {
            match Time::parse(input) {
                Ok(t) => t == base_time.add(minutes_diff),
                Err(_) => false,
            }
        },
        Question::TimeDifference { start_time, end_time } => {
            match Duration::parse(input) {
                Ok(d) => d == crate::time::difference(start_time, end_time),
                Err(_) => false,
            }
        },
    }
}

/// The two states of the quiz round: still waiting for the right
/// answer, or done.
#[derive(Clone, Copy, Debug, PartialEq, Eq, Structural)]
pub enum QuizState {
    AwaitingInput,
    Correct,
}

/// One transition of the quiz loop: a round that is not yet won moves
/// to `Correct` exactly on an answer line equal to the expected answer;
/// any other line leaves it waiting, and a won round stays won.
pub fn quiz_step(state: QuizState, question: &Question, input: &str) -> (next: QuizState)
    requires
        question.wf(),
    ensures
        next == QuizState::Correct <==> (state == QuizState::Correct || is_correct_spec(
            input@,
            *question,
        )),
{
    match state {
        QuizState::Correct => QuizState::Correct,
        QuizState::AwaitingInput => {
            if is_correct(input, question) {
                QuizState::Correct
            } else {
                QuizState::AwaitingInput
            }
        },
    }
}

} // verus!
