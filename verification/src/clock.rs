//! Points in time and their calendar dates.

use vstd::prelude::*;

use chrono::{Datelike, TimeZone, Timelike};

use crate::model::{as_signed, to_signed};
use crate::text::{dec_fill, dec_filled, push_char};

verus! {

/// A date of the Gregorian calendar with a time of day.
#[derive(Clone, Copy, PartialEq, Eq, Structural, Debug)]
pub struct Civil {
    pub year: i32,
    pub month: u32,
    pub day: u32,
    pub hour: u32,
    pub minute: u32,
    pub second: u32,
}

/// Whether a year has a 29th of February.
pub open spec fn is_leap(year: int) -> bool {
    year % 4 == 0 && (year % 100 != 0 || year % 400 == 0)
}

/// The days of a year before its month `month`.
pub open spec fn days_before_month(year: int, month: int) -> int {
    let leap: int = if is_leap(year) {
        1
    } else {
        0
    };
    if month <= 1 {
        0
    } else if month == 2 {
        31
    } else if month == 3 {
        59 + leap
    } else if month == 4 {
        90 + leap
    } else if month == 5 {
        120 + leap
    } else if month == 6 {
        151 + leap
    } else if month == 7 {
        181 + leap
    } else if month == 8 {
        212 + leap
    } else if month == 9 {
        243 + leap
    } else if month == 10 {
        273 + leap
    } else if month == 11 {
        304 + leap
    } else if month == 12 {
        334 + leap
    } else {
        365 + leap
    }
}

/// The number of the day on which a year begins, counted from January 1, 1970.
pub open spec fn year_start(year: int) -> int {
    365 * (year - 1) + (year - 1) / 4 - (year - 1) / 100 + (year - 1) / 400 - 719162
}

/// The number of a day, counted from January 1, 1970.
pub open spec fn day_number(year: int, month: int, day: int) -> int {
    year_start(year) + days_before_month(year, month) + day - 1
}

/// Whether `c` is the calendar date and the time of day of the second `t`, counted from the
/// start of January 1, 1970.
pub open spec fn is_civil(c: Civil, t: int) -> bool {
    &&& 1 <= c.month <= 12
    &&& 1 <= c.day <= days_before_month(c.year as int, c.month + 1) - days_before_month(
        c.year as int,
        c.month as int,
    )
    &&& day_number(c.year as int, c.month as int, c.day as int) == t / 86400
    &&& c.hour < 24
    &&& c.minute < 60
    &&& c.second < 60
    &&& c.hour * 3600 + c.minute * 60 + c.second == t % 86400
}

pub(crate) proof fn lemma_year_length(year: int)
    ensures
        year_start(year + 1) - year_start(year) == days_before_month(year, 13),
{
}

pub(crate) proof fn lemma_year_start_grows(a: int, b: int)
    requires
        a <= b,
    ensures
        year_start(a) <= year_start(b),
    decreases b - a,
{
    if a < b {
        lemma_year_length(b - 1);
        lemma_year_start_grows(a, b - 1);
    }
}

/// A point in time has one calendar date only.
pub proof fn law_one_date_per_second(a: Civil, b: Civil, t: int)
    requires
        is_civil(a, t),
        is_civil(b, t),
    ensures
        a == b,
{
    let (x, y) = (a.year as int, b.year as int);
    if x < y {
        lemma_year_length(x);
        lemma_year_start_grows(x + 1, y);
        assert(false);
    } else if y < x {
        lemma_year_length(y);
        lemma_year_start_grows(y + 1, x);
        assert(false);
    }
    assert(a.month == b.month);
}

/// Whether the day of `t` lies within the years that `chrono` has dates for.
pub open spec fn has_date(t: int) -> bool {
    day_number(-262143, 1, 1) <= t / 86400 <= day_number(262142, 12, 31)
}

/// Calls `chrono::Utc.timestamp_opt(secs, 0).single()` and reads the parts of the date. There
/// is a date exactly for the years from -262143 to 262142, and it is the one of the proleptic
/// Gregorian calendar.
#[verifier::external_body]
fn utc_date(secs: i64) -> (r: Option<Civil>)
    ensures
        r is Some <==> has_date(secs as int),
        r matches Some(c) ==> is_civil(c, secs as int),
{
    match chrono::Utc.timestamp_opt(secs, 0).single() {
        Some(t) => Some(
            Civil {
                year: t.year(),
                month: t.month(),
                day: t.day(),
                hour: t.hour(),
                minute: t.minute(),
                second: t.second(),
            },
        ),
        None => None,
    }
}

/// The UTC date of a count of seconds; that of the epoch where there is none.
pub open spec fn utc_civil(secs: u64) -> Civil {
    if has_date(as_signed(secs)) {
        choose|c: Civil| is_civil(c, as_signed(secs))
    } else {
        Civil { year: 1970, month: 1, day: 1, hour: 0, minute: 0, second: 0 }
    }
}

/// The UTC date of a count of seconds where it has one.
pub fn utc_date_of(secs: u64) -> (r: Option<Civil>)
    ensures
        r is Some <==> has_date(as_signed(secs)),
        r matches Some(c) ==> is_civil(c, as_signed(secs)) && c == utc_civil(secs),
{
    let r = utc_date(to_signed(secs));
    proof {
        if let Some(c) = r {
            let d = choose|c: Civil| is_civil(c, as_signed(secs));
            law_one_date_per_second(c, d, as_signed(secs));
        }
    }
    r
}

/// The UTC date of a count of seconds; that of the epoch where there is none.
pub fn utc_of(secs: u64) -> (r: Civil)
    ensures
        r == utc_civil(secs),
        has_date(as_signed(secs)) ==> r.hour * 3600 + r.minute * 60 + r.second == as_signed(secs)
            % 86400,
        r.hour < 24,
        r.minute < 60,
        r.second < 60,
{
    match utc_date_of(secs) {
        Some(c) => c,
        None => Civil { year: 1970, month: 1, day: 1, hour: 0, minute: 0, second: 0 },
    }
}

/// Whether `c` is the date and the time of day of `t` in some zone: that of a second less than a
/// day before or after it.
pub open spec fn is_local(c: Civil, t: int) -> bool {
    exists|at: int| t - 86400 < at < t + 86400 && #[trigger] is_civil(c, at)
}

/// Calls `chrono::DateTime::with_timezone(&chrono::Local)` on the UTC date of `secs` and reads
/// the parts of the local date. Which zone is local depends on the machine, so it is claimed
/// only that the clock of the zone is less than a day off UTC, as `chrono::FixedOffset` is.
#[verifier::external_body]
fn local_date(secs: i64) -> (r: Option<Civil>)
    requires
        has_date(secs as int),
    ensures
        r is Some,
        r matches Some(c) ==> is_local(c, secs as int),
{
    let t = chrono::Utc.timestamp_opt(secs, 0).single()?.with_timezone(&chrono::Local);
    Some(
        Civil {
            year: t.year(),
            month: t.month(),
            day: t.day(),
            hour: t.hour(),
            minute: t.minute(),
            second: t.second(),
        },
    )
}

/// When a record was written.
#[derive(Clone, Copy, PartialEq, Eq, Structural, Debug)]
pub struct RecordTime {
    /// Seconds since the epoch.
    pub ust_time: u64,
    /// The time of day at the machine that wrote the record.
    pub hour: u8,
    pub minute: u8,
    pub second: u8,
    /// The local date and time at the reader.
    pub local: Civil,
}

impl RecordTime {
    /// The time of a record, with the reader's local date looked up: that of the epoch where the
    /// point in time has no date.
    pub fn read(ust_time: u64, hour: u8, minute: u8, second: u8) -> (r: Self)
        ensures
            r.ust_time == ust_time,
            r.hour == hour,
            r.minute == minute,
            r.second == second,
            is_local(
                r.local,
                if has_date(as_signed(ust_time)) {
                    as_signed(ust_time)
                } else {
                    0
                },
            ),
    {
        let at: i64 = match utc_date_of(ust_time) {
            Some(_) => to_signed(ust_time),
            None => 0,
        };
        let local = match local_date(at) {
            Some(c) => c,
            None => utc_of(ust_time),
        };
        RecordTime { ust_time, hour, minute, second, local }
    }
}

/// A year with at least four characters.
pub open spec fn year_text(year: int) -> Seq<char> {
    if year < 0 {
        seq!['-'] + dec_filled((-year) as nat, 3)
    } else {
        dec_filled(year as nat, 4)
    }
}

/// `YYYY-MM-DD`.
pub open spec fn date_text(year: int, month: int, day: int) -> Seq<char> {
    year_text(year) + seq!['-'] + dec_filled(month as nat, 2) + seq!['-'] + dec_filled(
        day as nat,
        2,
    )
}

/// `HH:MM:SS`.
pub open spec fn time_text(hour: int, minute: int, second: int) -> Seq<char> {
    dec_filled(hour as nat, 2) + seq![':'] + dec_filled(minute as nat, 2) + seq![':'] + dec_filled(
        second as nat,
        2,
    )
}

/// `YYYY-MM-DD`.
pub fn format_date(year: i32, month: u32, day: u32) -> (r: String)
    ensures
        r@ == date_text(year as int, month as int, day as int),
{
    let mut out = String::new();
    if year < 0 {
        push_char(&mut out, '-');
        let y: u64 = (-(year as i64)) as u64;
        out.append(dec_fill(y, 3).as_str());
    } else {
        out.append(dec_fill(year as u64, 4).as_str());
    }
    push_char(&mut out, '-');
    out.append(dec_fill(month as u64, 2).as_str());
    push_char(&mut out, '-');
    out.append(dec_fill(day as u64, 2).as_str());
    out
}

/// `HH:MM:SS`.
pub fn format_time(hour: u32, minute: u32, second: u32) -> (r: String)
    ensures
        r@ == time_text(hour as int, minute as int, second as int),
{
    let mut out = dec_fill(hour as u64, 2);
    push_char(&mut out, ':');
    out.append(dec_fill(minute as u64, 2).as_str());
    push_char(&mut out, ':');
    out.append(dec_fill(second as u64, 2).as_str());
    out
}

}
