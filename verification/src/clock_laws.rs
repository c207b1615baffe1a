//! How dates and times read.

use vstd::prelude::*;

use crate::clock::{
    date_text, days_before_month, has_date, is_civil, lemma_year_length, lemma_year_start_grows,
    time_text, utc_civil, year_start, Civil, RecordTime,
};
use crate::model::as_signed;
use crate::sar_text::header::{short_date, stamp_text};
use crate::sar_text::options::TimeStyle;
use crate::text::{dec_filled, split};
use crate::text_laws::{
    decimal_value, is_decimal, joined_by, lacks, law_decimals_have_their_value,
    law_filled_numbers_keep_their_value, law_splitting_undoes_joining,
};

verus! {

/// Whether a text is made of three numbers with a sign between them, and which they are.
#[verifier::opaque]
pub open spec fn reads_as(s: Seq<char>, sep: char, a: int, b: int, c: int) -> bool {
    &&& split(s, sep).len() == 3
    &&& is_decimal(split(s, sep)[0]) && decimal_value(split(s, sep)[0]) == a
    &&& is_decimal(split(s, sep)[1]) && decimal_value(split(s, sep)[1]) == b
    &&& is_decimal(split(s, sep)[2]) && decimal_value(split(s, sep)[2]) == c
}

proof fn lemma_three_numbers(sep: char, a: nat, wa: nat, b: nat, wb: nat, c: nat, wc: nat)
    requires
        sep as u32 <= 47 || 58 <= sep as u32,
    ensures
        reads_as(
            dec_filled(a, wa) + seq![sep] + dec_filled(b, wb) + seq![sep] + dec_filled(c, wc),
            sep,
            a as int,
            b as int,
            c as int,
        ),
{
    reveal(reads_as);
    law_filled_numbers_keep_their_value(a, wa);
    law_filled_numbers_keep_their_value(b, wb);
    law_filled_numbers_keep_their_value(c, wc);
    let (x, y, z) = (dec_filled(a, wa), dec_filled(b, wb), dec_filled(c, wc));
    lemma_digits_are_no_sign(x, sep);
    lemma_digits_are_no_sign(y, sep);
    lemma_digits_are_no_sign(z, sep);
    let parts = seq![x, y, z];
    reveal_with_fuel(joined_by, 4);
    assert(parts.drop_last() =~= seq![x, y]);
    assert(parts.drop_last().drop_last() =~= seq![x]);
    assert(joined_by(parts, sep) =~= x + seq![sep] + y + seq![sep] + z);
    law_splitting_undoes_joining(parts, sep);
}

proof fn lemma_digits_are_no_sign(s: Seq<char>, sep: char)
    requires
        is_decimal(s),
        sep as u32 <= 47 || 58 <= sep as u32,
    ensures
        lacks(s, sep),
{
    assert forall|i: int| 0 <= i < s.len() implies #[trigger] s[i] != sep by {
        assert(48 <= s[i] as u32 <= 57);
    }
}

/// A date reads year, month and day, from left to right.
pub proof fn law_dates_read_year_month_day(year: int, month: int, day: int)
    requires
        0 <= year,
        0 <= month,
        0 <= day,
    ensures
        reads_as(date_text(year, month, day), '-', year, month, day),
{
    lemma_three_numbers('-', year as nat, 4, month as nat, 2, day as nat, 2);
}

/// The short date reads month, day, and the last two digits of the year.
pub proof fn law_short_dates_read_month_day_year(year: int, month: int, day: int)
    requires
        0 <= month,
        0 <= day,
    ensures
        reads_as(short_date(year, month, day), '/', month, day, year % 100),
{
    lemma_three_numbers('/', month as nat, 2, day as nat, 2, (year % 100) as nat, 2);
}

/// A time of day reads hour, minute and second.
pub proof fn law_times_read_hour_minute_second(hour: int, minute: int, second: int)
    requires
        0 <= hour,
        0 <= minute,
        0 <= second,
    ensures
        reads_as(time_text(hour, minute, second), ':', hour, minute, second),
{
    lemma_three_numbers(':', hour as nat, 2, minute as nat, 2, second as nat, 2);
}

proof fn lemma_year_of(d: int, from: int) -> (year: int)
    requires
        year_start(from) <= d,
    ensures
        from <= year,
        year_start(year) <= d < year_start(year + 1),
    decreases d - year_start(from),
{
    lemma_year_length(from);
    if d < year_start(from + 1) {
        from
    } else {
        lemma_year_of(d, from + 1)
    }
}

/// Each second in reach of a date has one, and it is the one that is shown for it.
pub proof fn law_each_second_has_a_date(secs: u64)
    requires
        has_date(as_signed(secs)),
    ensures
        is_civil(utc_civil(secs), as_signed(secs)),
{
    let t = as_signed(secs);
    let d = t / 86400;
    let year = lemma_year_of(d, -262143);
    if year > 262142 {
        lemma_year_start_grows(262143, year);
        lemma_year_length(262142);
    }
    lemma_year_length(year);
    let off = d - year_start(year);
    let month: int = if off < days_before_month(year, 2) {
        1
    } else if off < days_before_month(year, 3) {
        2
    } else if off < days_before_month(year, 4) {
        3
    } else if off < days_before_month(year, 5) {
        4
    } else if off < days_before_month(year, 6) {
        5
    } else if off < days_before_month(year, 7) {
        6
    } else if off < days_before_month(year, 8) {
        7
    } else if off < days_before_month(year, 9) {
        8
    } else if off < days_before_month(year, 10) {
        9
    } else if off < days_before_month(year, 11) {
        10
    } else if off < days_before_month(year, 12) {
        11
    } else {
        12
    };
    let day = off - days_before_month(year, month) + 1;
    let s = t % 86400;
    let c = Civil {
        year: year as i32,
        month: month as u32,
        day: day as u32,
        hour: (s / 3600) as u32,
        minute: (s % 3600 / 60) as u32,
        second: (s % 60) as u32,
    };
    assert(is_civil(c, t));
}

proof fn lemma_clock(hour: int, minute: int, second: int, t: int)
    requires
        0 <= hour,
        0 <= minute < 60,
        0 <= second < 60,
        hour * 3600 + minute * 60 + second == t,
    ensures
        hour == t / 3600,
        minute == t % 3600 / 60,
        second == t % 60,
{
}

proof fn lemma_utc_clock(ust_time: u64)
    requires
        has_date(as_signed(ust_time)),
    ensures
        utc_civil(ust_time).hour == as_signed(ust_time) % 86400 / 3600,
        utc_civil(ust_time).minute == as_signed(ust_time) % 86400 % 3600 / 60,
        utc_civil(ust_time).second == as_signed(ust_time) % 86400 % 60,
{
    law_each_second_has_a_date(ust_time);
    let c = utc_civil(ust_time);
    lemma_clock(c.hour as int, c.minute as int, c.second as int, as_signed(ust_time) % 86400);
}

/// A timestamp shows the time in the style that was asked for: the clock of the machine that
/// wrote the record, that of UTC, that of the reader, or the seconds since the epoch.
pub proof fn law_timestamps_show_the_time_asked_for(t: RecordTime)
    requires
        has_date(as_signed(t.ust_time)),
    ensures
        reads_as(
            stamp_text(t, TimeStyle::Recorded),
            ':',
            t.hour as int,
            t.minute as int,
            t.second as int,
        ),
        reads_as(
            stamp_text(t, TimeStyle::Local),
            ':',
            t.local.hour as int,
            t.local.minute as int,
            t.local.second as int,
        ),
        decimal_value(stamp_text(t, TimeStyle::Epoch)) == t.ust_time,
        ({
            let s = as_signed(t.ust_time) % 86400;
            reads_as(stamp_text(t, TimeStyle::Utc), ':', s / 3600, s % 3600 / 60, s % 60)
        }),
{
    law_times_read_hour_minute_second(t.hour as int, t.minute as int, t.second as int);
    law_times_read_hour_minute_second(
        t.local.hour as int,
        t.local.minute as int,
        t.local.second as int,
    );
    law_decimals_have_their_value(t.ust_time as nat);
    lemma_utc_clock(t.ust_time);
    let c = utc_civil(t.ust_time);
    law_times_read_hour_minute_second(c.hour as int, c.minute as int, c.second as int);
}

}
