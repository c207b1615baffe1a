//! How the lines of a flat format start, and what their timestamps show.

use vstd::prelude::*;

use crate::clock::{has_date, utc_civil, RecordTime};
use crate::clock_laws::{
    law_dates_read_year_month_day, law_each_second_has_a_date, law_times_read_hour_minute_second,
    reads_as,
};
use crate::model::as_signed;
use crate::sadf::config::SadfConfig;
use crate::sadf::dbppc::{comment_text, event_start, restart_text, sample_start, separator};
use crate::sadf::records::Rec;
use crate::sadf::stamp::{
    clock_offset, recorded_seconds, rounded_seconds, stamp_of, utc_second_of_day, FileInfo, TimeBase,
};
use crate::text::{dec, split};
use crate::text_laws::{
    decimal_value, is_decimal, joined_by, lacks, law_decimals_have_their_value,
    law_splitting_undoes_joining,
};

verus! {

/// The interval of a line is in seconds, and no more than half a second off.
pub proof fn law_intervals_are_rounded(itv_cs: u64)
    ensures
        itv_cs - 50 <= 100 * rounded_seconds(itv_cs) <= itv_cs + 50,
        100 * rounded_seconds(itv_cs) - itv_cs != -50,
{
}

/// The clock of the machine that wrote a record is ahead of UTC by no more than twelve hours, or
/// behind it by less than twelve.
pub proof fn law_clocks_are_half_a_day_apart(t: RecordTime)
    ensures
        -43200 < clock_offset(t) <= 43200,
{
}

/// With the times of the machine that wrote the file, a timestamp shows the clock of the record.
pub proof fn law_true_times_show_the_clock_of_the_record(t: RecordTime, info: FileInfo)
    requires
        t.hour < 24,
        t.minute < 60,
        t.second < 60,
        has_date(as_signed(t.ust_time)),
        0 <= as_signed(t.ust_time) + clock_offset(t),
        has_date(as_signed(recorded_seconds(t))),
    ensures
        reads_as(
            stamp_of(TimeBase::TrueTime, t, info).time,
            ':',
            t.hour as int,
            t.minute as int,
            t.second as int,
        ),
        stamp_of(TimeBase::TrueTime, t, info).tz == info.tzname@,
{
    law_each_second_has_a_date(t.ust_time);
    law_each_second_has_a_date(recorded_seconds(t));
    let clock = t.hour * 3600 + t.minute * 60 + t.second;
    let utc = utc_second_of_day(t.ust_time);
    let at = as_signed(t.ust_time);
    assert(utc == at % 86400);
    lemma_shift(at, clock, clock_offset(t));
    let c = utc_civil(recorded_seconds(t));
    lemma_same_clock(
        c.hour as int,
        c.minute as int,
        c.second as int,
        t.hour as int,
        t.minute as int,
        t.second as int,
    );
    law_times_read_hour_minute_second(c.hour as int, c.minute as int, c.second as int);
}

proof fn lemma_shift(at: int, clock: int, offset: int)
    requires
        0 <= clock < 86400,
        offset == (clock - at % 86400) % 86400 || offset == (clock - at % 86400) % 86400 - 86400,
    ensures
        (at + offset) % 86400 == clock,
{
}

proof fn lemma_same_clock(a: int, b: int, c: int, x: int, y: int, z: int)
    requires
        0 <= b < 60,
        0 <= c < 60,
        0 <= y < 60,
        0 <= z < 60,
        a * 3600 + b * 60 + c == x * 3600 + y * 60 + z,
    ensures
        a == x,
        b == y,
        c == z,
{
}

/// The other timestamps show what their base says: the seconds since the epoch, the time of UTC,
/// or that of the reader.
pub proof fn law_timestamps_show_their_base(t: RecordTime, info: FileInfo)
    requires
        0 <= t.local.year,
    ensures
        stamp_of(TimeBase::SecEpoch, t, info).date.len() == 0,
        decimal_value(stamp_of(TimeBase::SecEpoch, t, info).time) == t.ust_time,
        reads_as(
            stamp_of(TimeBase::LocalTime, t, info).time,
            ':',
            t.local.hour as int,
            t.local.minute as int,
            t.local.second as int,
        ),
        reads_as(
            stamp_of(TimeBase::LocalTime, t, info).date,
            '-',
            t.local.year as int,
            t.local.month as int,
            t.local.day as int,
        ),
        stamp_of(TimeBase::LocalTime, t, info).tz == info.local_tz@,
        stamp_of(TimeBase::Utc, t, info).tz == "UTC"@,
        ({
            let c = utc_civil(t.ust_time);
            reads_as(
                stamp_of(TimeBase::Utc, t, info).time,
                ':',
                c.hour as int,
                c.minute as int,
                c.second as int,
            )
        }),
        has_date(as_signed(t.ust_time)) ==> {
            let c = utc_civil(t.ust_time);
            c.hour * 3600 + c.minute * 60 + c.second == as_signed(t.ust_time) % 86400
        },
{
    let c = utc_civil(t.ust_time);
    law_decimals_have_their_value(t.ust_time as nat);
    law_times_read_hour_minute_second(c.hour as int, c.minute as int, c.second as int);
    law_times_read_hour_minute_second(
        t.local.hour as int,
        t.local.minute as int,
        t.local.second as int,
    );
    law_dates_read_year_month_day(t.local.year as int, t.local.month as int, t.local.day as int);
    if has_date(as_signed(t.ust_time)) {
        law_each_second_has_a_date(t.ust_time);
    }
}

/// The sign between the parts of a line.
pub open spec fn part_sign(isdb: bool) -> char {
    if isdb {
        ';'
    } else {
        '\t'
    }
}

proof fn lemma_separator(isdb: bool)
    ensures
        separator(isdb) == seq![part_sign(isdb)],
{
    reveal_strlit(";");
    reveal_strlit("\t");
    assert(separator(isdb) =~= seq![part_sign(isdb)]);
}

proof fn lemma_joined_three(a: Seq<char>, b: Seq<char>, c: Seq<char>, sep: char)
    requires
        lacks(a, sep),
        lacks(b, sep),
        lacks(c, sep),
    ensures
        split(a + seq![sep] + b + seq![sep] + c, sep) == seq![a, b, c],
{
    let parts = seq![a, b, c];
    reveal_with_fuel(joined_by, 4);
    assert(parts.drop_last() =~= seq![a, b]);
    assert(parts.drop_last().drop_last() =~= seq![a]);
    assert(joined_by(parts, sep) =~= a + seq![sep] + b + seq![sep] + c);
    law_splitting_undoes_joining(parts, sep);
}

/// A line of values starts with the machine, the interval and the time, in this order.
pub proof fn law_lines_start_with_machine_interval_and_time(
    cfg: SadfConfig,
    info: FileInfo,
    t: RecordTime,
    itv_cs: u64,
    isdb: bool,
)
    requires
        lacks(info.nodename@, part_sign(isdb)),
        lacks(stamp_of(cfg.time_base, t, info).flat(), part_sign(isdb)),
    ensures
        ({
            let parts = split(sample_start(cfg, info, t, itv_cs, isdb), part_sign(isdb));
            &&& parts.len() == 3
            &&& parts[0] == info.nodename@
            &&& is_decimal(parts[1])
            &&& itv_cs - 50 < 100 * decimal_value(parts[1]) <= itv_cs + 50
            &&& parts[2] == stamp_of(cfg.time_base, t, info).flat()
        }),
{
    let sep = part_sign(isdb);
    let itv = dec(rounded_seconds(itv_cs) as nat);
    lemma_separator(isdb);
    law_decimals_have_their_value(rounded_seconds(itv_cs) as nat);
    assert forall|k: int| 0 <= k < itv.len() implies #[trigger] itv[k] != sep by {
        assert(48 <= itv[k] as u32 <= 57);
    }
    lemma_joined_three(info.nodename@, itv, stamp_of(cfg.time_base, t, info).flat(), sep);
}

/// The line of a restart or a comment starts with the machine, -1 in place of an interval, and
/// the time, and then says what happened.
pub proof fn law_events_have_no_interval(
    cfg: SadfConfig,
    info: FileInfo,
    rec: Rec,
    cpu_nr: Option<u32>,
    isdb: bool,
)
    ensures
        ({
            let sep = seq![part_sign(isdb)];
            let start = info.nodename@ + sep + "-1"@ + sep + stamp_of(
                cfg.time_base,
                rec.time,
                info,
            ).flat() + sep;
            &&& (start + "LINUX-RESTART\t("@).is_prefix_of(
                restart_text(cfg, info, rec.time, cpu_nr, isdb),
            )
            &&& (start + "COM "@).is_prefix_of(comment_text(cfg, info, rec, isdb))
            &&& rec.comment matches Some(s) ==> (s@ + "\n"@).is_suffix_of(
                comment_text(cfg, info, rec, isdb),
            )
        }),
{
    lemma_separator(isdb);
    let start = event_start(cfg, info, rec.time, isdb);
    let r = restart_text(cfg, info, rec.time, cpu_nr, isdb);
    let c = comment_text(cfg, info, rec, isdb);
    let x = start + "LINUX-RESTART\t("@;
    let y = start + "COM "@;
    assert(r.take(x.len() as int) =~= x);
    assert(c.take(y.len() as int) =~= y);
    if let Some(s) = rec.comment {
        let end = s@ + "\n"@;
        assert(c.skip(c.len() - end.len()) =~= end);
    }
}

}
