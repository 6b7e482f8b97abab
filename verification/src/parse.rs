use vstd::prelude::*;

use crate::time::Duration;
use crate::time::Hours;
use crate::time::Minutes;
use crate::time::Time;

verus! {

/// Why an answer string was rejected: not of the "HHhMM" shape at all,
/// or of the right shape but with a field out of range.
#[derive(Clone, Copy, Debug, PartialEq, Eq, Structural)]
pub enum ParseError {
    Malformed,
    OutOfRange,
}

/// The whitespace characters stripped from either end of an answer line.
pub open spec fn is_space_char(c: char) -> bool {
    c == ' ' || c == '\t' || c == '\n' || c == '\r'
}

/// `s` with its leading whitespace removed.
pub open spec fn trim_start_spec(s: Seq<char>) -> Seq<char>
    decreases s.len(),
{
    if s.len() > 0 && is_space_char(s[0]) {
        trim_start_spec(s.subrange(1, s.len() as int))
    } else {
        s
    }
}

/// `s` with its trailing whitespace removed.
pub open spec fn trim_end_spec(s: Seq<char>) -> Seq<char>
    decreases s.len(),
{
    if s.len() > 0 && is_space_char(s[s.len() - 1]) {
        trim_end_spec(s.subrange(0, s.len() - 1))
    } else {
        s
    }
}

/// `s` with whitespace removed from both ends.
pub open spec fn trim_spec(s: Seq<char>) -> Seq<char> {
    trim_end_spec(trim_start_spec(s))
}

/// A decimal digit character.
pub open spec fn is_digit(c: char) -> bool {
    48 <= c as int && c as int <= 57
}

/// The numeric value of a digit character.
pub open spec fn digit_val(c: char) -> int {
    c as int - 48
}

/// Every character of `s` is a decimal digit.
pub open spec fn all_digits(s: Seq<char>) -> bool {
    forall|i: int| 0 <= i < s.len() ==> is_digit(s[i])
}

/// The number that the digit string `s` denotes, most significant first.
pub open spec fn num_val(s: Seq<char>) -> int
    decreases s.len(),
{
    if s.len() == 0 {
        0
    } else {
        num_val(s.drop_last()) * 10 + digit_val(s.last())
    }
}

/// The index of the first 'h' in `s`, or `s.len()` if there is none.
pub open spec fn h_pos(s: Seq<char>) -> int
    decreases s.len(),
{
    if s.len() == 0 {
        0
    } else if s[0] == 'h' {
        0
    } else {
        1 + h_pos(s.subrange(1, s.len() as int))
    }
}

/// `t` has the shape "digits, one 'h', digits", with both digit runs
/// nonempty and no second 'h'.
pub open spec fn valid_hhmm(t: Seq<char>) -> bool {
    let k = h_pos(t);
    &&& 0 < k
    &&& k + 1 < t.len()
    &&& all_digits(t.subrange(0, k))
    &&& all_digits(t.subrange(k + 1, t.len() as int))
}

/// The value of the digit run before the 'h'.
pub open spec fn hhmm_hours(t: Seq<char>) -> int {
    num_val(t.subrange(0, h_pos(t)))
}

/// The value of the digit run after the 'h'.
pub open spec fn hhmm_minutes(t: Seq<char>) -> int {
    num_val(t.subrange(h_pos(t) + 1, t.len() as int))
}

/// What parsing an answer line as a time yields: trim the line, require
/// the "HHhMM" shape, then require the fields to be a valid hour and
/// minute count.
pub open spec fn time_parse_spec(s: Seq<char>) -> Result<Time, ParseError> {
    let t = trim_spec(s);
    if !valid_hhmm(t) {
        Err(ParseError::Malformed)
    } else if hhmm_hours(t) <= 23 && hhmm_minutes(t) <= 59 {
        Ok(
            Time {
                hours: Hours(hhmm_hours(t) as u8),
                minutes: Minutes(hhmm_minutes(t) as u8),
            },
        )
    } else {
        Err(ParseError::OutOfRange)
    }
}

/// What parsing an answer line as a duration yields; the field bounds
/// are the same as for a time.
pub open spec fn duration_parse_spec(s: Seq<char>) -> Result<Duration, ParseError> {
    let t = trim_spec(s);
    if !valid_hhmm(t) {
        Err(ParseError::Malformed)
    } else if hhmm_hours(t) <= 23 && hhmm_minutes(t) <= 59 {
        Ok(
            Duration {
                hours: Hours(hhmm_hours(t) as u8),
                minutes: Minutes(hhmm_minutes(t) as u8),
            },
        )
    } else {
        Err(ParseError::OutOfRange)
    }
}

pub(crate) proof fn lemma_trim_start_at(s: Seq<char>, i: int)
    requires
        0 <= i <= s.len(),
        forall|k: int| 0 <= k < i ==> is_space_char(s[k]),
        i < s.len() ==> !is_space_char(s[i]),
    ensures
        trim_start_spec(s) == s.subrange(i, s.len() as int),
    decreases i,
{
    if i == 0 {
        assert(s.subrange(0, s.len() as int) =~= s);
    } else {
        let t = s.subrange(1, s.len() as int);
        lemma_trim_start_at(t, i - 1);
        assert(t.subrange(i - 1, t.len() as int) =~= s.subrange(i, s.len() as int));
    }
}

pub(crate) proof fn lemma_trim_end_at(s: Seq<char>, j: int)
    requires
        0 <= j <= s.len(),
        forall|k: int| j <= k < s.len() ==> is_space_char(s[k]),
        j > 0 ==> !is_space_char(s[j - 1]),
    ensures
        trim_end_spec(s) == s.subrange(0, j),
    decreases s.len(),
{
    if j == s.len() {
        assert(s.subrange(0, j) =~= s);
    } else {
        let t = s.subrange(0, s.len() - 1);
        lemma_trim_end_at(t, j);
        assert(t.subrange(0, j) =~= s.subrange(0, j));
    }
}

pub(crate) proof fn lemma_h_pos_at(s: Seq<char>, k: int)
    requires
        0 <= k <= s.len(),
        forall|p: int| 0 <= p < k ==> s[p] != 'h',
        k < s.len() ==> s[k] == 'h',
    ensures
        h_pos(s) == k,
    decreases k,
{
    if k == 0 {
    } else {
        let t = s.subrange(1, s.len() as int);
        lemma_h_pos_at(t, k - 1);
    }
}

fn is_space_ex(c: char) -> (r: bool)
    ensures
        r == is_space_char(c),
{
    c == ' ' || c == '\t' || c == '\n' || c == '\r'
}

/// The digit value of `c`, if it is a decimal digit.
fn digit_of(c: char) -> (r: Option<u8>)
    ensures
        r is Some <==> is_digit(c),
        r matches Some(d) ==> d == digit_val(c) && d < 10,
{
    let v = c as u32;
    if 48 <= v && v <= 57 {
        Some((v - 48) as u8)
    } else {
        None
    }
}

fn at_space(s: &str, i: usize) -> (r: bool)
    requires
        i <= s@.len(),
    ensures
        r == (i < s@.len() && is_space_char(s@[i as int])),
{
    if i < s.unicode_len() {
        is_space_ex(s.get_char(i))
    } else {
        false
    }
}

fn at_space_before(s: &str, j: usize) -> (r: bool)
    requires
        j <= s@.len(),
    ensures
        r == (j > 0 && is_space_char(s@[j as int - 1])),
{
    if j > 0 {
        is_space_ex(s.get_char(j - 1))
    } else {
        false
    }
}

fn before_h(s: &str, k: usize, j: usize) -> (r: bool)
    requires
        k <= j <= s@.len(),
    ensures
        r == (k < j && s@[k as int] != 'h'),
{
    if k < j {
        s.get_char(k) != 'h'
    } else {
        false
    }
}

/// Parse the region `[a, b)` of `s` as a nonempty run of digits,
/// classifying a value above 255 apart from a malformed run.
fn parse_num_region(s: &str, a: usize, b: usize) -> (r: Result<u8, ParseError>)
    requires
        a <= b <= s@.len(),
    ensures
        ({
            let t = s@.subrange(a as int, b as int);
            &&& (r matches Ok(v) ==> t.len() > 0 && all_digits(t) && num_val(t) <= 255 && v
                == num_val(t))
            &&& (t.len() > 0 && all_digits(t) && num_val(t) <= 255 ==> r == Ok::<u8, ParseError>(
                num_val(t) as u8,
            ))
            &&& (r == Err::<u8, ParseError>(ParseError::Malformed) <==> (t.len() == 0
                || !all_digits(t)))
            &&& (r == Err::<u8, ParseError>(ParseError::OutOfRange) <==> (t.len() > 0
                && all_digits(t) && num_val(t) > 255))
        }),
{
    if a == b {
        return Err(ParseError::Malformed);
    }
    let ghost t = s@.subrange(a as int, b as int);
    let mut p = a;
    let mut acc: u32 = 0;
    let mut too_big = false;
    while p < b
        invariant
            a <= p <= b <= s@.len(),
            t == s@.subrange(a as int, b as int),
            all_digits(s@.subrange(a as int, p as int)),
            too_big <==> num_val(s@.subrange(a as int, p as int)) > 255,
            !too_big ==> acc == num_val(s@.subrange(a as int, p as int)) && acc <= 255,
        decreases b - p,
    {
        let c = s.get_char(p);
        match digit_of(c) {
            None => {
                proof {
                    assert(t[p - a] == s@[p as int]);
                    assert(!all_digits(t));
                }
                return Err(ParseError::Malformed);
            },
            Some(d) => {
                proof {
                    assert(s@.subrange(a as int, p as int + 1).drop_last() =~= s@.subrange(
                        a as int,
                        p as int,
                    ));
                    assert(s@.subrange(a as int, p as int + 1).last() == s@[p as int]);
                }
                if too_big {
                } else {
                    acc = acc * 10 + d as u32;
                    if acc > 255 {
                        too_big = true;
                    }
                }
                p = p + 1;
            },
        }
    }
    proof {
        assert(t =~= s@.subrange(a as int, p as int));
    }
    if too_big {
        Err(ParseError::OutOfRange)
    } else {
        Ok(acc as u8)
    }
}

/// Parse `s` — trimmed of surrounding whitespace — as "HHhMM" into its
/// two numeric fields, each at most 255 here; the shape errors win over
/// the range errors.
fn parse_fields(s: &str) -> (r: Result<(u8, u8), ParseError>)
    ensures
        ({
            let t = trim_spec(s@);
            &&& (r matches Ok(pair) ==> valid_hhmm(t) && hhmm_hours(t) <= 255 && hhmm_minutes(t)
                <= 255 && pair.0 == hhmm_hours(t) && pair.1 == hhmm_minutes(t))
            &&& (valid_hhmm(t) && hhmm_hours(t) <= 255 && hhmm_minutes(t) <= 255 ==> r == Ok::<
                (u8, u8),
                ParseError,
            >((hhmm_hours(t) as u8, hhmm_minutes(t) as u8)))
            &&& (r == Err::<(u8, u8), ParseError>(ParseError::Malformed) <==> !valid_hhmm(t))
            &&& (r == Err::<(u8, u8), ParseError>(ParseError::OutOfRange) <==> valid_hhmm(t) && (
            hhmm_hours(t) > 255 || hhmm_minutes(t) > 255))
        }),
{
    let n = s.unicode_len();
    let mut i: usize = 0;
    while at_space(s, i)
        invariant
            i <= s@.len(),
            n == s@.len(),
            forall|k: int| 0 <= k < i ==> is_space_char(s@[k]),
        decreases s@.len() - i,
    {
        i = i + 1;
    }
    let mut j: usize = n;
    while j > i && at_space_before(s, j)
        invariant
            i <= j <= s@.len(),
            n == s@.len(),
            forall|k: int| j <= k < s@.len() ==> is_space_char(s@[k]),
        decreases j,
    {
        j = j - 1;
    }
    let ghost t0 = s@.subrange(i as int, s@.len() as int);
    let ghost t = s@.subrange(i as int, j as int);
    proof {
        lemma_trim_start_at(s@, i as int);
        lemma_trim_end_at(t0, j - i);
        assert(t0.subrange(0, j - i) =~= t);
        assert(trim_spec(s@) == t);
    }
    let mut k: usize = i;
    while before_h(s, k, j)
        invariant
            i <= k <= j <= s@.len(),
            forall|p: int| i <= p < k ==> s@[p] != 'h',
        decreases j - k,
    {
        k = k + 1;
    }
    proof {
        assert forall|p: int| 0 <= p < k - i implies t[p] != 'h' by {
            assert(t[p] == s@[p + i]);
        }
        lemma_h_pos_at(t, k - i);
    }
    if k == j || k == i || k + 1 == j {
        proof {
            assert(!valid_hhmm(t));
        }
        return Err(ParseError::Malformed);
    }
    let rh = parse_num_region(s, i, k);
    let rm = parse_num_region(s, k + 1, j);
    proof {
        assert(t.subrange(0, k - i) =~= s@.subrange(i as int, k as int));
        assert(t.subrange(k - i + 1, t.len() as int) =~= s@.subrange(k as int + 1, j as int));
    }
    match (rh, rm) {
        (Ok(h), Ok(m)) => Ok((h, m)),
        (Err(ParseError::Malformed), _) => Err(ParseError::Malformed),
        (_, Err(ParseError::Malformed)) => Err(ParseError::Malformed),
        _ => Err(ParseError::OutOfRange),
    }
}

impl Time {
    /// Parse a trimmed "HHhMM" answer line as a time of day.
    pub fn parse(s: &str) -> (r: Result<Time, ParseError>)
        ensures
            r == time_parse_spec(s@),
            r matches Ok(t) ==> t.wf(),
    {
        match parse_fields(s) {
            Err(e) => Err(e),
            Ok((h, m)) => {
                if h <= 23 && m <= 59 {
                    Ok(Time { hours: Hours(h), minutes: Minutes(m) })
                } else {
                    Err(ParseError::OutOfRange)
                }
            },
        }
    }
}

impl Duration {
    /// Parse a trimmed "HHhMM" answer line as a duration.
    pub fn parse(s: &str) -> (r: Result<Duration, ParseError>)
        ensures
            r == duration_parse_spec(s@),
            r matches Ok(d) ==> d.wf(),
    {
        match parse_fields(s) {
            Err(e) => Err(e),
            Ok((h, m)) => {
                if h <= 23 && m <= 59 {
                    Ok(Duration { hours: Hours(h), minutes: Minutes(m) })
                } else {
                    Err(ParseError::OutOfRange)
                }
            },
        }
    }
}

} // verus!
