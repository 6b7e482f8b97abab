pub mod command;
pub mod fmt;
pub mod laws;
pub mod parse;
pub mod question;
pub mod random;
pub mod time;

pub use crate::command::split_target_command;
pub use crate::fmt::hhmm_string;
pub use crate::fmt::two_digit_string;
pub use crate::parse::ParseError;
pub use crate::question::dec_string;
pub use crate::question::is_correct;
pub use crate::question::quiz_step;
pub use crate::question::Question;
pub use crate::question::QuizState;
pub use crate::random::random_hours;
pub use crate::random::random_minutes;
pub use crate::random::random_offset;
pub use crate::random::random_question;
pub use crate::random::random_time;
pub use crate::time::difference;
pub use crate::time::Duration;
pub use crate::time::Hours;
pub use crate::time::Minutes;
pub use crate::time::Time;
