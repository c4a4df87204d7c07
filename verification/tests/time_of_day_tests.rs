use shutdown_scheduler::time_of_day::{ParseError, TimeOfDay};

#[test]
fn parse_reads_hour_and_minute() {
    let t = TimeOfDay::parse("07:30").unwrap();
    assert_eq!(t.hour(), 7);
    assert_eq!(t.minute(), 30);
    assert_eq!(t.second_of_day(), 27000);
}

#[test]
fn parse_accepts_the_ends_of_the_day() {
    assert_eq!(TimeOfDay::parse("00:00"), Ok(TimeOfDay::new(0, 0).unwrap()));
    assert_eq!(TimeOfDay::parse("23:59"), Ok(TimeOfDay::new(23, 59).unwrap()));
    assert_eq!(TimeOfDay::parse("23:59").unwrap().second_of_day(), 86340);
}

#[test]
fn parse_then_format_roundtrips_for_every_minute_of_the_day() {
    for hour in 0u8..24 {
        for minute in 0u8..60 {
            let text = format!("{:02}:{:02}", hour, minute);
            let parsed = TimeOfDay::parse(&text).unwrap();
            assert_eq!(parsed, TimeOfDay::new(hour, minute).unwrap());
            assert_eq!(parsed.to_text(), text);
            assert_eq!(TimeOfDay::parse(&parsed.to_text()), Ok(parsed));
        }
    }
}

#[test]
fn parse_rejects_single_digit_fields() {
    assert_eq!(TimeOfDay::parse("7:30"), Err(ParseError::Malformed));
    assert_eq!(TimeOfDay::parse("07:3"), Err(ParseError::Malformed));
    assert_eq!(TimeOfDay::parse("7:3"), Err(ParseError::Malformed));
}

#[test]
fn parse_rejects_a_missing_colon() {
    assert_eq!(TimeOfDay::parse("0730"), Err(ParseError::Malformed));
    assert_eq!(TimeOfDay::parse("07300"), Err(ParseError::Malformed));
    assert_eq!(TimeOfDay::parse("07.30"), Err(ParseError::Malformed));
    assert_eq!(TimeOfDay::parse("07-30"), Err(ParseError::Malformed));
}

#[test]
fn parse_rejects_out_of_range_hour_and_minute() {
    assert_eq!(TimeOfDay::parse("24:00"), Err(ParseError::OutOfRange));
    assert_eq!(TimeOfDay::parse("25:00"), Err(ParseError::OutOfRange));
    assert_eq!(TimeOfDay::parse("12:60"), Err(ParseError::OutOfRange));
    assert_eq!(TimeOfDay::parse("99:99"), Err(ParseError::OutOfRange));
}

#[test]
fn parse_rejects_text_that_is_not_digits() {
    assert_eq!(TimeOfDay::parse(""), Err(ParseError::Malformed));
    assert_eq!(TimeOfDay::parse("ab:cd"), Err(ParseError::Malformed));
    assert_eq!(TimeOfDay::parse("1a:30"), Err(ParseError::Malformed));
    assert_eq!(TimeOfDay::parse("12:3x"), Err(ParseError::Malformed));
    assert_eq!(TimeOfDay::parse("-1:30"), Err(ParseError::Malformed));
    assert_eq!(TimeOfDay::parse("+1:30"), Err(ParseError::Malformed));
    assert_eq!(TimeOfDay::parse("\u{0661}\u{0662}:\u{0663}\u{0664}"), Err(ParseError::Malformed));
}

#[test]
fn parse_does_not_trim_or_tolerate_extra_text() {
    assert_eq!(TimeOfDay::parse(" 07:30"), Err(ParseError::Malformed));
    assert_eq!(TimeOfDay::parse("07:30 "), Err(ParseError::Malformed));
    assert_eq!(TimeOfDay::parse("07:30:00"), Err(ParseError::Malformed));
    assert_eq!(TimeOfDay::parse("07:30\n"), Err(ParseError::Malformed));
}

#[test]
fn new_checks_both_ranges() {
    assert!(TimeOfDay::new(23, 59).is_some());
    assert!(TimeOfDay::new(24, 0).is_none());
    assert!(TimeOfDay::new(0, 60).is_none());
    assert!(TimeOfDay::new(255, 255).is_none());
}

#[test]
fn to_text_pads_with_zeros() {
    assert_eq!(TimeOfDay::new(0, 0).unwrap().to_text(), "00:00");
    assert_eq!(TimeOfDay::new(9, 5).unwrap().to_text(), "09:05");
    assert_eq!(TimeOfDay::new(23, 59).unwrap().to_text(), "23:59");
}
