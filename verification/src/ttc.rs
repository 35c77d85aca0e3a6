//! The countdown to Christmas Eve.

use chrono::Datelike;
use vstd::prelude::*;

verus! {

pub const SECONDS_PER_DAY: i64 = 86_400;

pub const NANOS_PER_SECOND: u32 = 1_000_000_000;

/// A reading of the local wall clock.
#[derive(Debug, Copy, Clone, PartialEq, Eq, Structural)]
pub struct Moment {
    /// The day, counted in the proleptic Gregorian calendar with the first of
    /// January of the year 1 as day 1.
    pub day: i32,
    /// The seconds since midnight.
    pub second: u32,
    /// The nanoseconds since the last full second.
    pub nano: u32,
}

/// The number of the given calendar day, counted in the proleptic Gregorian
/// calendar with the first of January of the year 1 as day 1, or `None` where
/// there is no such day or the calendar does not reach it.
pub uninterp spec fn day_number(year: i32, month: u32, day: u32) -> Option<i32>;

/// Looks a calendar day's number up.
///
/// Trusted: this is chrono's `NaiveDate::from_ymd_opt`, and on the date it
/// gives, `Datelike::num_days_from_ce`. The contract only gives the outcome its
/// name, `day_number`; it claims nothing about which days exist or what their
/// numbers are.
#[verifier::external_body]
pub(crate) fn day_number_of(year: i32, month: u32, day: u32) -> (number: Option<i32>)
    ensures
        number == day_number(year, month, day),
{
    match chrono::NaiveDate::from_ymd_opt(year, month, day) {
        Some(date) => Some(date.num_days_from_ce()),
        None => None,
    }
}

/// `a / b` rounded towards zero, for a positive `b`.
pub open spec fn quotient(a: int, b: int) -> int {
    if a >= 0 {
        a / b
    } else {
        -((-a) / b)
    }
}

/// What is left of `a` after `quotient(a, b)` times `b`; it has the sign of
/// `a`.
pub open spec fn remainder(a: int, b: int) -> int {
    a - b * quotient(a, b)
}

/// The time from `now` to midnight at the start of day `target`, in whole
/// seconds, rounded towards zero. It is negative once that midnight has
/// passed.
pub open spec fn seconds_until(target: int, now: Moment) -> int {
    let whole = (target - now.day) * 86_400 - now.second - now.nano / 1_000_000_000;
    if now.nano % 1_000_000_000 > 0 && whole > 0 {
        whole - 1
    } else {
        whole
    }
}

/// A number of seconds as days, hours within the day, minutes within the hour
/// and seconds within the minute, each rounded towards zero.
pub open spec fn broken_down(seconds: int) -> (int, int, int, int) {
    (
        quotient(seconds, 86_400),
        remainder(quotient(seconds, 3_600), 24),
        remainder(quotient(seconds, 60), 60),
        remainder(seconds, 60),
    )
}

/// The countdown's target: midnight at the start of the 24th of December of
/// one year.
#[derive(Debug, Copy, Clone, PartialEq, Eq, Structural)]
pub struct TimeToChristmas {
    christmas_day: i32,
}

impl TimeToChristmas {
    /// The number of the target day; see `Moment::day`.
    pub closed spec fn spec_day(&self) -> int {
        self.christmas_day as int
    }

    /// The countdown to the 24th of December of `year`, or `None` where the
    /// calendar does not reach that day.
    pub fn new(year: i32) -> (ttc: Option<TimeToChristmas>)
        ensures
            match day_number(year, 12, 24) {
                Some(day) => ttc is Some && ttc->0.spec_day() == day,
                None => ttc is None,
            },
    {
        match day_number_of(year, 12, 24) {
            Some(day) => Some(TimeToChristmas { christmas_day: day }),
            None => None,
        }
    }

    /// The countdown to midnight at the start of the day with the given number.
    pub fn on_day(day: i32) -> (ttc: TimeToChristmas)
        ensures
            ttc.spec_day() == day,
    {
        TimeToChristmas { christmas_day: day }
    }

    /// The number of the target day.
    pub fn day(&self) -> (day: i32)
        ensures
            day == self.spec_day(),
    {
        self.christmas_day
    }

    /// Whether `now` falls on the target day.
    pub fn is_christmas(&self, now: Moment) -> (today: bool)
        ensures
            today == (now.day == self.spec_day()),
    {
        now.day == self.christmas_day
    }

    /// The time from `now` to the target as days, hours, minutes and seconds.
    /// All four are zero during the whole of the target day; after it they are
    /// negative or zero.
    pub fn time_until_christmas(&self, now: Moment) -> (left: (i64, i64, i64, i64))
        ensures
            (left.0 as int, left.1 as int, left.2 as int, left.3 as int) == if now.day
                == self.spec_day() {
                (0int, 0int, 0int, 0int)
            } else {
                broken_down(seconds_until(self.spec_day(), now))
            },
    {
        if self.is_christmas(now) {
            (0, 0, 0, 0)
        } else {
            let whole: i64 = (self.christmas_day as i64 - now.day as i64) * SECONDS_PER_DAY
                - now.second as i64 - (now.nano / NANOS_PER_SECOND) as i64;
            let seconds: i64 = if now.nano % NANOS_PER_SECOND > 0 && whole > 0 {
                whole - 1
            } else {
                whole
            };
            let days = seconds / 86_400;
            let hours = (seconds / 3_600) % 24;
            let minutes = (seconds / 60) % 60;
            (days, hours, minutes, seconds % 60)
        }
    }
}

} // verus!
