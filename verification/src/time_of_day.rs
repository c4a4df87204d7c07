//! A time of day to the minute, and its textual form: two digits, a colon,
//! two digits.

use vstd::prelude::*;
use vstd::string::*;

use crate::text::{char_digit, digit_char, digit_text, digit_value, is_digit};

verus! {

/// Hours in a day; an hour of a time of day is below this.
pub const HOURS_PER_DAY: u8 = 24;

/// Minutes in an hour; a minute of a time of day is below this.
pub const MINUTES_PER_HOUR: u8 = 60;

/// Why a text is not a time of day.
#[derive(Clone, Copy, Debug, PartialEq, Eq, Structural)]
pub enum ParseError {
    /// The text is not two digits, a colon, two digits.
    Malformed,
    /// The text has the right shape, but the hour is above 23 or the minute
    /// above 59.
    OutOfRange,
}

/// What a time of day stands for: its hour and its minute.
pub struct ClockReading {
    pub hour: int,
    pub minute: int,
}

impl ClockReading {
    /// Hour from 0 to 23, minute from 0 to 59.
    pub open spec fn in_range(self) -> bool {
        0 <= self.hour < 24 && 0 <= self.minute < 60
    }

    /// Seconds from midnight to the start of this minute.
    pub open spec fn second_of_day(self) -> int {
        self.hour * 3600 + self.minute * 60
    }

    /// The five characters that write this reading down.
    pub open spec fn text(self) -> Seq<char> {
        seq![
            digit_char(self.hour / 10),
            digit_char(self.hour % 10),
            ':',
            digit_char(self.minute / 10),
            digit_char(self.minute % 10),
        ]
    }
}

/// Whether `s` is two digits, a colon, two digits.
pub open spec fn is_clock_text(s: Seq<char>) -> bool {
    &&& s.len() == 5
    &&& is_digit(s[0])
    &&& is_digit(s[1])
    &&& s[2] == ':'
    &&& is_digit(s[3])
    &&& is_digit(s[4])
}

/// The hour and minute that a text of the right shape writes down, whether in
/// range or not.
pub open spec fn clock_text_reading(s: Seq<char>) -> ClockReading {
    ClockReading {
        hour: 10 * digit_value(s[0]) + digit_value(s[1]),
        minute: 10 * digit_value(s[3]) + digit_value(s[4]),
    }
}

/// The reading that `s` stands for, or the reason why it stands for none.
pub open spec fn parse_clock_text(s: Seq<char>) -> Result<ClockReading, ParseError> {
    if !is_clock_text(s) {
        Err(ParseError::Malformed)
    } else if !clock_text_reading(s).in_range() {
        Err(ParseError::OutOfRange)
    } else {
        Ok(clock_text_reading(s))
    }
}

/// A time of day: hour from 0 to 23, minute from 0 to 59.
#[derive(Clone, Copy, Debug, PartialEq, Eq, Structural)]
pub struct TimeOfDay {
    hour: u8,
    minute: u8,
}

impl View for TimeOfDay {
    type V = ClockReading;

    closed spec fn view(&self) -> ClockReading {
        ClockReading { hour: self.hour as int, minute: self.minute as int }
    }
}

impl TimeOfDay {
    #[verifier::type_invariant]
    closed spec fn in_range(self) -> bool {
        self.hour < 24 && self.minute < 60
    }

    /// The time with the given hour and minute, or `None` when either is out
    /// of range.
    pub fn new(hour: u8, minute: u8) -> (t: Option<TimeOfDay>)
        ensures
            t is Some <==> hour < HOURS_PER_DAY && minute < MINUTES_PER_HOUR,
            t is Some ==> t->0@ == (ClockReading { hour: hour as int, minute: minute as int }),
    {
        if hour < 24 && minute < 60 {
            Some(TimeOfDay { hour, minute })
        } else {
            None
        }
    }

    /// The hour, from 0 to 23.
    pub fn hour(&self) -> (h: u8)
        ensures
            h == self@.hour,
            h < HOURS_PER_DAY,
    {
        proof {
            use_type_invariant(self);
        }
        self.hour
    }

    /// The minute, from 0 to 59.
    pub fn minute(&self) -> (m: u8)
        ensures
            m == self@.minute,
            m < MINUTES_PER_HOUR,
    {
        proof {
            use_type_invariant(self);
        }
        self.minute
    }

    /// Seconds from midnight to this time.
    pub fn second_of_day(&self) -> (s: u32)
        ensures
            s == self@.second_of_day(),
            s < 86400,
            self@.in_range(),
    {
        proof {
            use_type_invariant(self);
        }
        let h: u32 = self.hour as u32;
        let m: u32 = self.minute as u32;
        h * 3600 + m * 60
    }

    /// Reads a time of day from `text`, which must be exactly two digits, a
    /// colon and two digits, with the hour below 24 and the minute below 60.
    /// Nothing is trimmed or corrected.
    pub fn parse(text: &str) -> (r: Result<TimeOfDay, ParseError>)
        ensures
            match parse_clock_text(text@) {
                Ok(reading) => r is Ok && r->Ok_0@ == reading,
                Err(e) => r == Err::<TimeOfDay, ParseError>(e),
            },
    {
        if text.unicode_len() != 5 {
            return Err(ParseError::Malformed);
        }
        let h1 = char_digit(text.get_char(0));
        let h0 = char_digit(text.get_char(1));
        let colon: char = text.get_char(2);
        let m1 = char_digit(text.get_char(3));
        let m0 = char_digit(text.get_char(4));
        match (h1, h0, m1, m0) {
            (Some(a), Some(b), Some(c), Some(d)) => {
                if colon != ':' {
                    return Err(ParseError::Malformed);
                }
                let hour: u8 = 10 * a + b;
                let minute: u8 = 10 * c + d;
                if hour < 24 && minute < 60 {
                    Ok(TimeOfDay { hour, minute })
                } else {
                    Err(ParseError::OutOfRange)
                }
            },
            _ => Err(ParseError::Malformed),
        }
    }

    /// Writes the time as two digits, a colon, two digits.
    pub fn to_text(&self) -> (s: String)
        ensures
            s@ == self@.text(),
            self@.in_range(),
    {
        proof {
            use_type_invariant(self);
            reveal_strlit(":");
        }
        let mut s = String::new();
        s.append(digit_text(self.hour / 10));
        s.append(digit_text(self.hour % 10));
        s.append(":");
        s.append(digit_text(self.minute / 10));
        s.append(digit_text(self.minute % 10));
        assert(s@ =~= self@.text());
        s
    }
}

/// Two times with the same reading are the same time.
pub proof fn lemma_reading_determines_time(a: TimeOfDay, b: TimeOfDay)
    requires
        a@ == b@,
    ensures
        a == b,
{
}

/// Writing a reading in range and reading the text back gives the reading.
pub proof fn lemma_text_parses_back(reading: ClockReading)
    requires
        reading.in_range(),
    ensures
        parse_clock_text(reading.text()) == Ok::<ClockReading, ParseError>(reading),
{
    let s = reading.text();
    assert(s.len() == 5);
    assert(forall|d: int| 0 <= d <= 9 ==> is_digit(#[trigger] digit_char(d)) && digit_value(
        digit_char(d),
    ) == d);
    assert(is_digit(s[0]) && is_digit(s[1]) && is_digit(s[3]) && is_digit(s[4]));
    assert(s[2] == ':');
}

/// Reading a text that parses and writing the result gives the same text.
pub proof fn lemma_parsed_text_writes_back(s: Seq<char>)
    requires
        parse_clock_text(s) is Ok,
    ensures
        parse_clock_text(s)->Ok_0.text() == s,
        parse_clock_text(s)->Ok_0.in_range(),
{
    let reading = clock_text_reading(s);
    assert(forall|c: char| is_digit(c) ==> 0 <= #[trigger] digit_value(c) <= 9 && digit_char(
        digit_value(c),
    ) == c);
    assert(reading.hour / 10 == digit_value(s[0]));
    assert(reading.hour % 10 == digit_value(s[1]));
    assert(reading.minute / 10 == digit_value(s[3]));
    assert(reading.minute % 10 == digit_value(s[4]));
    assert(reading.text() =~= s);
}

/// Writing down the time that a text was parsed to, and parsing that again,
/// gives the same time of day.
pub proof fn lemma_parse_format_roundtrip(s: Seq<char>)
    requires
        parse_clock_text(s) is Ok,
    ensures
        parse_clock_text(parse_clock_text(s)->Ok_0.text()) == parse_clock_text(s),
{
    lemma_parsed_text_writes_back(s);
}

/// A text parses exactly when it has the shape of a clock text and its hour
/// and minute are in range; whatever is shorter or longer than five
/// characters, lacks the colon or holds anything but digits beside it is
/// malformed.
pub proof fn lemma_parse_rejects(s: Seq<char>)
    ensures
        parse_clock_text(s) is Ok <==> is_clock_text(s) && clock_text_reading(s).in_range(),
        s.len() != 5 ==> parse_clock_text(s) == Err::<ClockReading, ParseError>(
            ParseError::Malformed,
        ),
        s.len() == 5 && s[2] != ':' ==> parse_clock_text(s) == Err::<ClockReading, ParseError>(
            ParseError::Malformed,
        ),
        is_clock_text(s) && clock_text_reading(s).hour >= 24 ==> parse_clock_text(s) == Err::<
            ClockReading,
            ParseError,
        >(ParseError::OutOfRange),
        is_clock_text(s) && clock_text_reading(s).minute >= 60 ==> parse_clock_text(s) == Err::<
            ClockReading,
            ParseError,
        >(ParseError::OutOfRange),
{
}

} // verus!
