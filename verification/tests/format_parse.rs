use time_quiz::Duration;
use time_quiz::Hours;
use time_quiz::Minutes;
use time_quiz::ParseError;
use time_quiz::Time;

fn time(h: u8, m: u8) -> Time {
    Time { hours: Hours(h), minutes: Minutes(m) }
}

fn duration(h: u8, m: u8) -> Duration {
    Duration { hours: Hours(h), minutes: Minutes(m) }
}

#[test]
fn render_zero_pads_both_fields() {
    assert_eq!(time(9, 5).render(), "09h05");
    assert_eq!(time(0, 0).render(), "00h00");
    assert_eq!(time(23, 59).render(), "23h59");
    assert_eq!(duration(2, 15).render(), "02h15");
}

#[test]
fn parse_canonical_form() {
    assert_eq!(Time::parse("10h30"), Ok(time(10, 30)));
    assert_eq!(Duration::parse("02h15"), Ok(duration(2, 15)));
}

#[test]
fn parse_accepts_unpadded_digits() {
    assert_eq!(Time::parse("9h5"), Ok(time(9, 5)));
    assert_eq!(Time::parse("0009h0005"), Ok(time(9, 5)));
}

#[test]
fn parse_trims_surrounding_whitespace() {
    assert_eq!(Time::parse(" 10h30\n"), Ok(time(10, 30)));
    assert_eq!(Time::parse("\t23h59 \r\n"), Ok(time(23, 59)));
}

#[test]
fn format_then_parse_round_trips() {
    for h in 0..24u8 {
        for m in 0..60u8 {
            let t = time(h, m);
            assert_eq!(Time::parse(t.render().as_str()), Ok(t));
            let d = duration(h, m);
            assert_eq!(Duration::parse(d.render().as_str()), Ok(d));
        }
    }
}

#[test]
fn parse_rejects_malformed_input() {
    assert_eq!(Time::parse(""), Err(ParseError::Malformed));
    assert_eq!(Time::parse("abc"), Err(ParseError::Malformed));
    assert_eq!(Time::parse("1030"), Err(ParseError::Malformed));
    assert_eq!(Time::parse("h30"), Err(ParseError::Malformed));
    assert_eq!(Time::parse("10h"), Err(ParseError::Malformed));
    assert_eq!(Time::parse("10x30"), Err(ParseError::Malformed));
    assert_eq!(Time::parse("10h30h99"), Err(ParseError::Malformed));
    assert_eq!(Time::parse("10 h 30"), Err(ParseError::Malformed));
    assert_eq!(Time::parse("-1h30"), Err(ParseError::Malformed));
    assert_eq!(Duration::parse("two hours"), Err(ParseError::Malformed));
}

#[test]
fn parse_rejects_out_of_range_fields() {
    assert_eq!(Time::parse("24h00"), Err(ParseError::OutOfRange));
    assert_eq!(Time::parse("10h60"), Err(ParseError::OutOfRange));
    assert_eq!(Time::parse("99h99"), Err(ParseError::OutOfRange));
    assert_eq!(Time::parse("300h01"), Err(ParseError::OutOfRange));
    assert_eq!(Time::parse("10h99999999999999999999"), Err(ParseError::OutOfRange));
    assert_eq!(Duration::parse("24h00"), Err(ParseError::OutOfRange));
}
