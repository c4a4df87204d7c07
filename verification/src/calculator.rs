//! From a target on the wall clock and the present moment to the number of
//! seconds to wait: until the next occurrence of a time of day, or of a time
//! of day on a given weekday.

use chrono::{Datelike, Timelike};
use vstd::prelude::*;

use crate::time_of_day::{parse_clock_text, ClockReading, ParseError, TimeOfDay};
use crate::weekday::{days_between, Weekday};

verus! {

/// Seconds in a day.
pub const SECONDS_PER_DAY: u64 = 86400;

/// Seconds in a week.
pub const SECONDS_PER_WEEK: u64 = 604800;

/// What a moment stands for: a weekday and the seconds since its midnight.
pub struct WeekInstant {
    pub weekday: Weekday,
    pub second_of_day: int,
}

impl WeekInstant {
    /// The second lies within one day.
    pub open spec fn in_range(self) -> bool {
        0 <= self.second_of_day < 86400
    }

    /// Seconds since the start of the week, Monday at midnight.
    pub open spec fn second_of_week(self) -> int {
        self.weekday.spec_index() * 86400 + self.second_of_day
    }
}

/// Seconds from second `now` of a day to the next second `target` of a day:
/// later the same day if `target` is still ahead, else the day after.
pub open spec fn seconds_until(target: int, now: int) -> int {
    if target > now {
        target - now
    } else {
        target - now + 86400
    }
}

/// Seconds from second `now` of a day to second `target` of the day `days`
/// days on. With `days` zero and `target` not ahead of `now`, the target is
/// taken a whole week on.
pub open spec fn weekly_seconds_before_correction(target: int, days: int, now: int) -> int {
    if days == 0 && target <= now {
        target - now + 7 * 86400
    } else {
        target - now + days * 86400
    }
}

/// `weekly_seconds_before_correction`, with one day added should it be
/// negative.
pub open spec fn weekly_seconds_until(target: int, days: int, now: int) -> int {
    let total = weekly_seconds_before_correction(target, days, now);
    if total < 0 {
        total + 86400
    } else {
        total
    }
}

/// Seconds from `now` to the next time the clock shows `target`.
pub open spec fn delay_until_spec(target: ClockReading, now: WeekInstant) -> int {
    seconds_until(target.second_of_day(), now.second_of_day)
}

/// Days from the weekday of `now` to the next `weekday`, zero if they are the
/// same.
pub open spec fn days_to_wait_spec(weekday: Weekday, now: WeekInstant) -> int {
    days_between(now.weekday.spec_index(), weekday.spec_index())
}

/// Seconds from `now` to the next time the clock shows `target` on a
/// `weekday`.
pub open spec fn delay_until_weekday_spec(
    target: ClockReading,
    weekday: Weekday,
    now: WeekInstant,
) -> int {
    weekly_seconds_until(target.second_of_day(), days_to_wait_spec(weekday, now), now.second_of_day)
}

/// A moment of the week on the local wall clock, to the second.
#[derive(Clone, Copy, Debug, PartialEq, Eq, Structural)]
pub struct Moment {
    weekday: Weekday,
    second_of_day: u32,
}

impl View for Moment {
    type V = WeekInstant;

    closed spec fn view(&self) -> WeekInstant {
        WeekInstant { weekday: self.weekday, second_of_day: self.second_of_day as int }
    }
}

/// Reads the system clock with `std::time::SystemTime::now`, turns it into
/// local time with chrono's conversion from `SystemTime` to
/// `DateTime<Local>`, and hands back the weekday as days since Monday
/// (`Weekday::num_days_from_monday`) and the seconds since midnight
/// (`Timelike::num_seconds_from_midnight`). Which moment comes back is not
/// stated, only the ranges that chrono documents for the two numbers.
#[verifier::external_body]
fn read_local_clock() -> (reading: (u32, u32))
    ensures
        reading.0 < 7,
        reading.1 < 86400,
{
    let now: chrono::DateTime<chrono::Local> = std::time::SystemTime::now().into();
    (now.weekday().num_days_from_monday(), now.num_seconds_from_midnight())
}

impl Moment {
    #[verifier::type_invariant]
    closed spec fn in_range(self) -> bool {
        self.second_of_day < 86400
    }

    /// The moment `second_of_day` seconds after midnight on `weekday`, or
    /// `None` when a day has no such second.
    pub fn new(weekday: Weekday, second_of_day: u32) -> (m: Option<Moment>)
        ensures
            m is Some <==> second_of_day < SECONDS_PER_DAY,
            m is Some ==> m->0@ == (WeekInstant { weekday, second_of_day: second_of_day as int }),
    {
        if second_of_day < 86400 {
            Some(Moment { weekday, second_of_day })
        } else {
            None
        }
    }

    /// The moment at which the clock shows `hour:minute:second` on
    /// `weekday`, or `None` when it never shows that.
    pub fn at(weekday: Weekday, hour: u8, minute: u8, second: u8) -> (m: Option<Moment>)
        ensures
            m is Some <==> hour < 24 && minute < 60 && second < 60,
            m is Some ==> m->0@ == (WeekInstant {
                weekday,
                second_of_day: hour * 3600 + minute * 60 + second,
            }),
    {
        if hour < 24 && minute < 60 && second < 60 {
            let h: u32 = hour as u32;
            let m: u32 = minute as u32;
            let s: u32 = second as u32;
            Some(Moment { weekday, second_of_day: h * 3600 + m * 60 + s })
        } else {
            None
        }
    }

    /// The present moment on the local wall clock. Nothing is known of it
    /// but that it is a moment of the week.
    pub fn now_local() -> (m: Moment)
        ensures
            m@.in_range(),
    {
        let (day, second) = read_local_clock();
        Moment::from_clock_reading(day, second).unwrap()
    }

    /// The moment that a reading of the clock stands for: the weekday that
    /// lies `days_from_monday` days after Monday, and `second_of_day` seconds
    /// after its midnight. `None` when the week has no such day or the day no
    /// such second.
    pub fn from_clock_reading(days_from_monday: u32, second_of_day: u32) -> (m: Option<Moment>)
        ensures
            m is Some <==> days_from_monday < 7 && second_of_day < SECONDS_PER_DAY,
            m is Some ==> m->0@ == (WeekInstant {
                weekday: Weekday::spec_from_index(days_from_monday as int),
                second_of_day: second_of_day as int,
            }),
    {
        if days_from_monday < 7 {
            match Weekday::from_index(days_from_monday as u8) {
                Some(weekday) => Moment::new(weekday, second_of_day),
                None => None,
            }
        } else {
            None
        }
    }

    /// The weekday on which the moment falls.
    pub fn weekday(&self) -> (d: Weekday)
        ensures
            d == self@.weekday,
    {
        self.weekday
    }

    /// Seconds from midnight to the moment.
    pub fn second_of_day(&self) -> (s: u32)
        ensures
            s == self@.second_of_day,
            s < SECONDS_PER_DAY,
            self@.in_range(),
    {
        proof {
            use_type_invariant(self);
        }
        self.second_of_day
    }
}

/// Seconds from `now` until the clock next shows `target`: the rest of the
/// way today if `target` is strictly ahead of `now`, else until `target`
/// tomorrow. Never negative, never zero, at most one day.
pub fn delay_until(target: &TimeOfDay, now: &Moment) -> (delay: u64)
    ensures
        delay == delay_until_spec(target@, now@),
        0 < delay <= SECONDS_PER_DAY,
{
    let t: u64 = target.second_of_day() as u64;
    let n: u64 = now.second_of_day() as u64;
    if t > n {
        t - n
    } else {
        t + 86400 - n
    }
}

/// Days from the weekday of `now` until the next `weekday`; zero when `now`
/// falls on it.
pub fn days_to_wait(weekday: Weekday, now: &Moment) -> (days: u8)
    ensures
        days == days_to_wait_spec(weekday, now@),
        days < 7,
{
    now.weekday().days_until(weekday)
}

/// Seconds from `now` until the clock next shows `target` on a `weekday`.
///
/// The days to wait are counted around the week from the weekday of `now`.
/// The seconds between `now` and `target` within one day, which are negative
/// when `target` is earlier in the day, are added to as many whole days. Only
/// when `now` falls on `weekday` and `target` is not ahead is the target
/// taken a week on; it never rolls over to the next calendar day.
pub fn delay_until_weekday(target: &TimeOfDay, weekday: Weekday, now: &Moment) -> (delay: u64)
    ensures
        delay == delay_until_weekday_spec(target@, weekday, now@),
        0 < delay <= SECONDS_PER_WEEK,
{
    let t: i64 = target.second_of_day() as i64;
    let n: i64 = now.second_of_day() as i64;
    let days: i64 = days_to_wait(weekday, now) as i64;
    let base: i64 = t - n;
    let mut total: i64 = if days == 0 && base <= 0 {
        base + 7 * 86400
    } else {
        base + days * 86400
    };
    if total < 0 {
        total = total + 86400;
    }
    total as u64
}

/// Seconds from `now` until the clock next shows the time that `time_text`
/// writes down, or the reason why `time_text` is no time of day.
pub fn delay_until_text(time_text: &str, now: &Moment) -> (delay: Result<u64, ParseError>)
    ensures
        match parse_clock_text(time_text@) {
            Ok(reading) => delay == Ok::<u64, ParseError>(delay_until_spec(reading, now@) as u64)
                && 0 < delay_until_spec(reading, now@) <= SECONDS_PER_DAY,
            Err(reason) => delay == Err::<u64, ParseError>(reason),
        },
{
    match TimeOfDay::parse(time_text) {
        Ok(target) => Ok(delay_until(&target, now)),
        Err(reason) => Err(reason),
    }
}

/// Seconds from `now` until the clock next shows, on a `weekday`, the time
/// that `time_text` writes down, or the reason why `time_text` is no time of
/// day.
pub fn delay_until_weekday_text(time_text: &str, weekday: Weekday, now: &Moment) -> (delay: Result<
    u64,
    ParseError,
>)
    ensures
        match parse_clock_text(time_text@) {
            Ok(reading) => delay == Ok::<u64, ParseError>(
                delay_until_weekday_spec(reading, weekday, now@) as u64,
            ) && 0 < delay_until_weekday_spec(reading, weekday, now@) <= SECONDS_PER_WEEK,
            Err(reason) => delay == Err::<u64, ParseError>(reason),
        },
{
    match TimeOfDay::parse(time_text) {
        Ok(target) => Ok(delay_until_weekday(&target, weekday, now)),
        Err(reason) => Err(reason),
    }
}

/// The delay until a time of day is positive and at most one day, and after
/// it the clock shows that time.
pub proof fn lemma_delay_until_bounds(target: ClockReading, now: WeekInstant)
    requires
        target.in_range(),
        now.in_range(),
    ensures
        delay_until_spec(target, now) >= 0,
        0 < delay_until_spec(target, now) <= 86400,
        (now.second_of_day + delay_until_spec(target, now)) % 86400 == target.second_of_day(),
{
}

/// The delay until a time of day on a weekday is positive and at most one
/// week, and after it the week stands at that weekday and time.
pub proof fn lemma_delay_until_weekday_bounds(
    target: ClockReading,
    weekday: Weekday,
    now: WeekInstant,
)
    requires
        target.in_range(),
        now.in_range(),
    ensures
        0 < delay_until_weekday_spec(target, weekday, now) <= 7 * 86400,
        (now.second_of_week() + delay_until_weekday_spec(target, weekday, now)) % 604800
            == weekday.spec_index() * 86400 + target.second_of_day(),
{
}

/// The sum of whole days and seconds within the day is never negative, so
/// the correction by one day never applies.
pub proof fn lemma_correction_never_applies(target: ClockReading, weekday: Weekday, now: WeekInstant)
    requires
        target.in_range(),
        now.in_range(),
    ensures
        weekly_seconds_before_correction(
            target.second_of_day(),
            days_to_wait_spec(weekday, now),
            now.second_of_day,
        ) > 0,
        delay_until_weekday_spec(target, weekday, now) == weekly_seconds_before_correction(
            target.second_of_day(),
            days_to_wait_spec(weekday, now),
            now.second_of_day,
        ),
{
}

/// On the weekday of `now`, a time of day that has elapsed is due in the
/// seventh day from now: one week out and not the day after. A time that is
/// exactly `now` is due in one week to the second.
pub proof fn lemma_elapsed_today_waits_a_week(target: ClockReading, now: WeekInstant)
    requires
        target.in_range(),
        now.in_range(),
        target.second_of_day() <= now.second_of_day,
    ensures
        target.second_of_day() < now.second_of_day ==> 6 * 86400 <= delay_until_weekday_spec(
            target,
            now.weekday,
            now,
        ) < 7 * 86400,
        target.second_of_day() == now.second_of_day ==> delay_until_weekday_spec(
            target,
            now.weekday,
            now,
        ) == 7 * 86400,
        delay_until_weekday_spec(target, now.weekday, now) >= 86400,
{
}

/// When the target weekday is another day than that of `now`, the delay is
/// the days between the two, as whole days, plus the seconds from `now` to
/// the target within one day, whether the target is earlier or later in the
/// day. For the day after `now` exactly one day is counted.
pub proof fn lemma_other_day_has_no_rollover(
    target: ClockReading,
    weekday: Weekday,
    now: WeekInstant,
)
    requires
        target.in_range(),
        now.in_range(),
        weekday != now.weekday,
    ensures
        1 <= days_to_wait_spec(weekday, now) <= 6,
        weekday == now.weekday.spec_next() ==> days_to_wait_spec(weekday, now) == 1,
        delay_until_weekday_spec(target, weekday, now) == days_to_wait_spec(weekday, now) * 86400
            + target.second_of_day() - now.second_of_day,
{
}

/// On the weekday of `now`, a time of day that is still ahead is due the
/// same day, after as long as the one-day calculation says.
pub proof fn lemma_ahead_today_agrees_with_delay_until(target: ClockReading, now: WeekInstant)
    requires
        target.in_range(),
        now.in_range(),
        target.second_of_day() > now.second_of_day,
    ensures
        delay_until_weekday_spec(target, now.weekday, now) == delay_until_spec(target, now),
{
}

} // verus!
