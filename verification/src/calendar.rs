//! Wall-clock readings of Unix timestamps, and the date and time texts the
//! dashboard shows.
use chrono::{DateTime, Datelike, Timelike};
use vstd::prelude::*;

use crate::text::{decimal, decimal_string, two_digit_string, two_digits};

verus! {

/// A calendar date and a time of day, with the day of the week.
#[derive(Clone, Copy, Debug, PartialEq, Eq, Structural)]
pub struct LocalDateTime {
    pub year: i32,
    /// 1 ..= 12
    pub month: u32,
    /// 1 ..= 31
    pub day: u32,
    pub hour: u32,
    pub minute: u32,
    pub second: u32,
    /// Days since the last Sunday: 0 is Sunday, 6 is Saturday.
    pub weekday: u32,
}

/// A calendar date.
#[derive(Clone, Copy, Debug, PartialEq, Eq, Structural)]
pub struct LocalDate {
    pub year: i32,
    pub month: u32,
    pub day: u32,
}

impl LocalDateTime {
    /// The date part.
    pub open spec fn date_spec(self) -> LocalDate {
        LocalDate { year: self.year, month: self.month, day: self.day }
    }

    /// The date part of this reading.
    pub fn date(&self) -> (r: LocalDate)
        ensures
            r == self.date_spec(),
    {
        LocalDate { year: self.year, month: self.month, day: self.day }
    }
}

/// The proleptic Gregorian (year, month, day) that chrono's
/// `DateTime::from_timestamp(secs, 0)` gives for `secs` seconds after
/// 1970-01-01 00:00:00 UTC, or `None` where chrono has no date for it.
pub uninterp spec fn utc_calendar_date(secs: i64) -> Option<(i32, u32, u32)>;

/// Calls chrono's `DateTime::from_timestamp(secs, 0)` and reads the fields of
/// its `naive_utc()` value.
/// Trusted: the date is the one named `utc_calendar_date`, with month in 1..=12
/// and day in 1..=31; the time of day is the remainder of `secs` modulo one day
/// (chrono counts non-leap seconds); the weekday counts whole days from the
/// Thursday 1970-01-01. chrono's source gives a value for every `secs` within
/// eight trillion seconds (about 253 000 years) of the epoch; where exactly
/// its range ends is left to the name.
#[verifier::external_body]
fn utc_fields(secs: i64) -> (r: Option<(i32, u32, u32, u32, u32, u32, u32)>)
    ensures
        r is Some <==> utc_calendar_date(secs) is Some,
        -8_000_000_000_000 <= secs <= 8_000_000_000_000 ==> r is Some,
        r matches Some(f) ==> {
            &&& (f.0, f.1, f.2) == utc_calendar_date(secs)->0
            &&& 1 <= f.1 <= 12
            &&& 1 <= f.2 <= 31
            &&& f.3 == (secs % 86400) / 3600
            &&& f.4 == (secs % 3600) / 60
            &&& f.5 == secs % 60
            &&& f.6 == (secs / 86400 + 4) % 7
        },
{
    match DateTime::from_timestamp(secs, 0) {
        Some(dt) => {
            let n = dt.naive_utc();
            Some((n.year(), n.month(), n.day(), n.hour(), n.minute(), n.second(), n.weekday().num_days_from_sunday()))
        },
        None => None,
    }
}

/// Midnight of Thursday 1970-01-01, the reading given where a timestamp has no
/// date (chrono's `NaiveDateTime::default()`).
pub open spec fn epoch() -> LocalDateTime {
    LocalDateTime { year: 1970, month: 1, day: 1, hour: 0, minute: 0, second: 0, weekday: 4 }
}

/// The UTC wall-clock reading of `secs` seconds after the Unix epoch, or the
/// epoch itself where there is none.
pub open spec fn utc_reading(secs: i64) -> LocalDateTime {
    match utc_calendar_date(secs) {
        Some(d) => LocalDateTime {
            year: d.0,
            month: d.1,
            day: d.2,
            hour: ((secs % 86400) / 3600) as u32,
            minute: ((secs % 3600) / 60) as u32,
            second: (secs % 60) as u32,
            weekday: ((secs / 86400 + 4) % 7) as u32,
        },
        None => epoch(),
    }
}

/// Whether chrono has a date for `ts + tz_offset` seconds: it has one at
/// least within eight trillion seconds of the epoch.
pub open spec fn has_date_within_range(ts: i64, tz_offset: i64) -> bool {
    -8_000_000_000_000 <= ts + tz_offset <= 8_000_000_000_000 ==> utc_calendar_date((ts + tz_offset) as i64) is Some
}

/// Whether `ts + tz_offset` can be computed without overflow.
pub open spec fn shift_fits(ts: i64, tz_offset: i64) -> bool {
    i64::MIN <= ts + tz_offset <= i64::MAX
}

/// The wall-clock reading, at the forecast location, of the UTC timestamp
/// `ts`, where `tz_offset` seconds are added to UTC.
pub open spec fn local_reading(ts: i64, tz_offset: i64) -> LocalDateTime {
    utc_reading((ts + tz_offset) as i64)
}

/// The wall-clock reading of `ts` at a location `tz_offset` seconds ahead of UTC.
pub fn local_dt(ts: i64, tz_offset: i64) -> (r: LocalDateTime)
    requires
        shift_fits(ts, tz_offset),
    ensures
        r == local_reading(ts, tz_offset),
        has_date_within_range(ts, tz_offset),
{
    let secs = ts + tz_offset;
    match utc_fields(secs) {
        Some(f) => LocalDateTime {
            year: f.0,
            month: f.1,
            day: f.2,
            hour: f.3,
            minute: f.4,
            second: f.5,
            weekday: f.6,
        },
        None => LocalDateTime { year: 1970, month: 1, day: 1, hour: 0, minute: 0, second: 0, weekday: 4 },
    }
}

/// chrono's three-letter English name of a weekday (`%a`), counted from Sunday.
pub open spec fn weekday_abbrev(weekday: u32) -> Seq<char> {
    if weekday == 0 {
        "Sun"@
    } else if weekday == 1 {
        "Mon"@
    } else if weekday == 2 {
        "Tue"@
    } else if weekday == 3 {
        "Wed"@
    } else if weekday == 4 {
        "Thu"@
    } else if weekday == 5 {
        "Fri"@
    } else {
        "Sat"@
    }
}

/// The three-letter name of a weekday counted from Sunday.
pub fn weekday_name(weekday: u32) -> (r: &'static str)
    ensures
        r@ == weekday_abbrev(weekday),
{
    if weekday == 0 {
        "Sun"
    } else if weekday == 1 {
        "Mon"
    } else if weekday == 2 {
        "Tue"
    } else if weekday == 3 {
        "Wed"
    } else if weekday == 4 {
        "Thu"
    } else if weekday == 5 {
        "Fri"
    } else {
        "Sat"
    }
}

/// The English ordinal suffix of a day of the month: "st", "nd", "rd", or "th"
/// (always "th" for the 11th to the 13th).
pub open spec fn ordinal_suffix(day: u32) -> Seq<char> {
    if day == 11 || day == 12 || day == 13 {
        "th"@
    } else if day % 10 == 1 {
        "st"@
    } else if day % 10 == 2 {
        "nd"@
    } else if day % 10 == 3 {
        "rd"@
    } else {
        "th"@
    }
}

/// The ordinal suffix of a day of the month.
pub fn day_suffix(day: u32) -> (r: &'static str)
    ensures
        r@ == ordinal_suffix(day),
{
    if day == 11 || day == 12 || day == 13 {
        "th"
    } else if day % 10 == 1 {
        "st"
    } else if day % 10 == 2 {
        "nd"
    } else if day % 10 == 3 {
        "rd"
    } else {
        "th"
    }
}

/// The hour on a 12-hour clock: 0 is 12, 13 to 23 are 1 to 11.
pub open spec fn hour_on_12h_clock(hour: u32) -> nat {
    if hour == 0 {
        12
    } else if hour <= 12 {
        hour as nat
    } else {
        (hour - 12) as nat
    }
}

/// An hour of the day on a 12-hour clock with its half: `0` is "12AM", `12` is
/// "12PM", `15` is "3PM".
pub open spec fn hour_text(hour: u32) -> Seq<char> {
    decimal(hour_on_12h_clock(hour)) + if hour < 12 { "AM"@ } else { "PM"@ }
}

/// Renders an hour of the day on a 12-hour clock.
pub fn format_hour(hour: u32) -> (r: String)
    ensures
        r@ == hour_text(hour),
{
    let hour_12: u32 = if hour == 0 {
        12
    } else if hour <= 12 {
        hour
    } else {
        hour - 12
    };
    let mut s = decimal_string(hour_12 as u64);
    if hour < 12 {
        s.append("AM");
    } else {
        s.append("PM");
    }
    s
}

/// "HH:MM" of the wall-clock reading of `ts`, or a dash for a missing (zero)
/// timestamp or one without a date.
pub open spec fn clock_text(ts: i64, tz_offset: i64) -> Seq<char> {
    if ts == 0 || utc_calendar_date((ts + tz_offset) as i64) is None {
        "\u{2014}"@
    } else {
        let t = local_reading(ts, tz_offset);
        two_digits(t.hour as nat) + ":"@ + two_digits(t.minute as nat)
    }
}

/// Renders the local hour and minute of `ts` as "HH:MM"; a zero timestamp
/// (the feed's "no such event", e.g. no moonrise) or one without a date
/// gives a dash.
pub fn time_hm(ts: i64, tz_offset: i64) -> (r: String)
    requires
        ts == 0 || shift_fits(ts, tz_offset),
    ensures
        r@ == clock_text(ts, tz_offset),
        ts != 0 ==> has_date_within_range(ts, tz_offset),
{
    if ts == 0 {
        return String::from_str("\u{2014}");
    }
    match utc_fields(ts + tz_offset) {
        Some(f) => {
            let mut s = two_digit_string(f.3);
            s.append(":");
            let m = two_digit_string(f.4);
            s.append(m.as_str());
            s
        },
        None => String::from_str("\u{2014}"),
    }
}

/// On the 12-hour clock, midnight and noon are 12, the morning hours keep
/// their number and the afternoon hours lose twelve; the hours before noon
/// are "AM" and the rest "PM".
pub proof fn lemma_twelve_hour_clock(hour: u32)
    ensures
        hour == 0 ==> hour_on_12h_clock(hour) == 12,
        1 <= hour <= 12 ==> hour_on_12h_clock(hour) == hour,
        12 < hour ==> hour_on_12h_clock(hour) + 12 == hour,
        hour < 24 ==> 1 <= hour_on_12h_clock(hour) <= 12,
        hour < 12 ==> hour_text(hour) == decimal(hour_on_12h_clock(hour)) + "AM"@,
        hour >= 12 ==> hour_text(hour) == decimal(hour_on_12h_clock(hour)) + "PM"@,
{
}

/// Where chrono has a date, the wall-clock reading's time of day is the
/// shifted timestamp's remainder modulo one day, split into hours, minutes and
/// seconds, and its weekday counts whole days from the Thursday 1970-01-01;
/// where it has none, the reading is midnight of 1970-01-01.
pub proof fn lemma_local_reading_time_of_day(ts: i64, tz_offset: i64)
    requires
        shift_fits(ts, tz_offset),
    ensures
        utc_calendar_date((ts + tz_offset) as i64) is Some ==> {
            &&& local_reading(ts, tz_offset).hour == ((ts + tz_offset) % 86400) / 3600
            &&& local_reading(ts, tz_offset).minute == ((ts + tz_offset) % 3600) / 60
            &&& local_reading(ts, tz_offset).second == (ts + tz_offset) % 60
            &&& local_reading(ts, tz_offset).weekday == ((ts + tz_offset) / 86400 + 4) % 7
        },
        utc_calendar_date((ts + tz_offset) as i64) is None ==> local_reading(ts, tz_offset) == (LocalDateTime {
            year: 1970,
            month: 1,
            day: 1,
            hour: 0,
            minute: 0,
            second: 0,
            weekday: 4,
        }),
{
    let secs = (ts + tz_offset) as i64;
    assert(secs == ts + tz_offset);
    let h = (secs % 86400) / 3600;
    let m = (secs % 3600) / 60;
    assert(0 <= h < 24);
    assert(0 <= m < 60);
}

/// The clock text of a non-zero timestamp that has a date is the hour and the
/// minute of the shifted timestamp's time of day, each with two digits, joined
/// by a colon; a zero timestamp or one without a date shows a dash.
pub proof fn lemma_clock_text_hour_minute(ts: i64, tz_offset: i64)
    requires
        shift_fits(ts, tz_offset),
    ensures
        ts != 0 && utc_calendar_date((ts + tz_offset) as i64) is Some ==> clock_text(ts, tz_offset)
            == two_digits((((ts + tz_offset) % 86400) / 3600) as nat) + ":"@ + two_digits(
            (((ts + tz_offset) % 3600) / 60) as nat,
        ),
        ts == 0 || utc_calendar_date((ts + tz_offset) as i64) is None ==> clock_text(ts, tz_offset) == "\u{2014}"@,
{
    lemma_local_reading_time_of_day(ts, tz_offset);
}

/// chrono's short weekday names, from Sunday on.
pub proof fn lemma_weekday_names(weekday: u32)
    ensures
        weekday == 0 ==> weekday_abbrev(weekday) == "Sun"@,
        weekday == 1 ==> weekday_abbrev(weekday) == "Mon"@,
        weekday == 2 ==> weekday_abbrev(weekday) == "Tue"@,
        weekday == 3 ==> weekday_abbrev(weekday) == "Wed"@,
        weekday == 4 ==> weekday_abbrev(weekday) == "Thu"@,
        weekday == 5 ==> weekday_abbrev(weekday) == "Fri"@,
        weekday == 6 ==> weekday_abbrev(weekday) == "Sat"@,
{
}

} // verus!
