use vstd::prelude::*;

use crate::time::Duration;
use crate::time::Time;

verus! {

/// The decimal digit character for `d` in `[0, 9]`.
pub open spec fn digit_char(d: int) -> char {
    if d == 0 {
        '0'
    } else if d == 1 {
        '1'
    } else if d == 2 {
        '2'
    } else if d == 3 {
        '3'
    } else if d == 4 {
        '4'
    } else if d == 5 {
        '5'
    } else if d == 6 {
        '6'
    } else if d == 7 {
        '7'
    } else if d == 8 {
        '8'
    } else {
        '9'
    }
}

/// `n` in `[0, 99]` rendered as exactly two digits, zero-padded.
pub open spec fn two_digit_text(n: int) -> Seq<char> {
    seq![digit_char(n / 10), digit_char(n % 10)]
}

/// The canonical "HHhMM" rendering of an hour/minute pair.
pub open spec fn hhmm_text(h: int, m: int) -> Seq<char> {
    two_digit_text(h) + seq!['h'] + two_digit_text(m)
}

/// The single-character string for the digit `d`.
pub(crate) fn digit_str(d: u8) -> (r: &'static str)
    requires
        d < 10,
    ensures
        r@ =~= seq![digit_char(d as int)],
{
    if d == 0 {
        let s = "0";
        proof {
            reveal_strlit("0");
        }
        s
    } else if d == 1 {
        let s = "1";
        proof {
            reveal_strlit("1");
        }
        s
    } else if d == 2 {
        let s = "2";
        proof {
            reveal_strlit("2");
        }
        s
    } else if d == 3 {
        let s = "3";
        proof {
            reveal_strlit("3");
        }
        s
    } else if d == 4 {
        let s = "4";
        proof {
            reveal_strlit("4");
        }
        s
    } else if d == 5 {
        let s = "5";
        proof {
            reveal_strlit("5");
        }
        s
    } else if d == 6 {
        let s = "6";
        proof {
            reveal_strlit("6");
        }
        s
    } else if d == 7 {
        let s = "7";
        proof {
            reveal_strlit("7");
        }
        s
    } else if d == 8 {
        let s = "8";
        proof {
            reveal_strlit("8");
        }
        s
    } else {
        let s = "9";
        proof {
            reveal_strlit("9");
        }
        s
    }
}

/// `n` rendered as exactly two digits, zero-padded.
pub fn two_digit_string(n: u8) -> (r: String)
    requires
        n <= 99,
    ensures
        r@ =~= two_digit_text(n as int),
{
    let tens = digit_str(n / 10);
    let ones = digit_str(n % 10);
    let r = tens.to_owned().concat(ones);
    proof {
        assert(r@ =~= two_digit_text(n as int));
    }
    r
}

/// An hour/minute pair rendered as zero-padded "HHhMM".
pub fn hhmm_string(h: u8, m: u8) -> (r: String)
    requires
        h <= 99,
        m <= 99,
    ensures
        r@ =~= hhmm_text(h as int, m as int),
{
    let sep = "h";
    proof {
        reveal_strlit("h");
    }
    let left = two_digit_string(h);
    let right = two_digit_string(m);
    let r = left.concat(sep).concat(right.as_str());
    proof {
        assert(r@ =~= hhmm_text(h as int, m as int));
    }
    r
}

impl Time {
    /// What `render` yields for this time.
    pub open spec fn text(self) -> Seq<char> {
        hhmm_text(self.hours.0 as int, self.minutes.0 as int)
    }

    /// Render as zero-padded "HHhMM".
    pub fn render(&self) -> (r: String)
        requires
            self.wf(),
        ensures
            r@ =~= self.text(),
    {
        hhmm_string(self.hours.0, self.minutes.0)
    }
}

impl Duration {
    /// What `render` yields for this duration.
    pub open spec fn text(self) -> Seq<char> {
        hhmm_text(self.hours.0 as int, self.minutes.0 as int)
    }

    /// Render as zero-padded "HHhMM".
    pub fn render(&self) -> (r: String)
        requires
            self.wf(),
        ensures
            r@ =~= self.text(),
    {
        hhmm_string(self.hours.0, self.minutes.0)
    }
}

} // verus!
