//! What a pass shows of its records, and how single values and events look.

use vstd::prelude::*;

use crate::clock_laws::{law_times_read_hour_minute_second, reads_as};
use crate::doc::{bytes, chars, Form, Glyph};
use crate::model::ActivityId;
use crate::sar_el7::options::{El7Options, Tstamp};
use crate::sar_el7::report::{
    average_step, average_titles, clock_text, crosses_day, is_after, is_before,
    pass_result, pass_upto, range_time, special_glyphs, special_shown, time_of,
    step_glyphs, with_step, Kind, PassSetup, Rec, RecTime, Shared, Span, Step,
};
use crate::sar_el7::rows::{cell_glyphs, header_line, rows_glyphs, Cell, Row};
use crate::text::{dec, right_padded};
use crate::text_laws::{
    aligned, decimal_value, law_decimals_have_their_value, law_padding_keeps_the_text,
    lemma_decimals_are_ascii,
};

verus! {

/// The seconds of a day up to a time.
pub open spec fn seconds(hour: int, min: int, sec: int) -> int {
    hour * 3600 + min * 60 + sec
}

/// Times of day are ordered as the clock goes: one is before a bound exactly if fewer seconds of
/// the day have passed, and after it exactly if more have.
pub proof fn law_times_are_ordered_as_the_clock_goes(rt: RecTime, t: Tstamp)
    requires
        0 <= rt.min < 60,
        0 <= rt.sec < 60,
        0 <= t.min < 60,
        0 <= t.sec < 60,
    ensures
        is_before(rt, Some(t)) <==> seconds(rt.hour as int, rt.min as int, rt.sec as int) < seconds(
            t.hour as int,
            t.min as int,
            t.sec as int,
        ),
        is_after(rt, Some(t)) <==> seconds(rt.hour as int, rt.min as int, rt.sec as int) > seconds(
            t.hour as int,
            t.min as int,
            t.sec as int,
        ),
        !is_before(rt, None),
        !is_after(rt, None),
{
}

/// Whether a part of a pass is as it should be: a sample lies in the range of times, and its
/// interval reaches from the sample that it is compared with to itself; averages reach from the
/// first sample to the last one.
pub open spec fn is_in_place(c: PassSetup<'_>, s: Step) -> bool {
    match s {
        Step::Sample { id, rec, prev, span, mem, .. } => {
            &&& id == c.id
            &&& mem == c.mem
            &&& c.recs@[rec as int].kind == Kind::Stats
            &&& spans(c, c.recs@[prev as int], c.recs@[rec as int], 2, span)
            &&& time_of(c.recs@[rec as int].time, c.opts.time) matches Some(rt) && (in_range(
                rt,
                *c.opts,
            ) || in_range(range_time(rt, true), *c.opts))
        },
        Step::Average { id, first, last, span, mem, .. } => {
            &&& id == c.id
            &&& mem == c.mem
            &&& first == c.first
            &&& spans(c, c.recs@[first as int], c.recs@[last as int], 1, span)
        },
        Step::Special { rec } => {
            &&& c.recs@[rec as int].kind == Kind::Comment
            &&& c.opts.comment
            &&& time_of(c.recs@[rec as int].time, c.opts.time) matches Some(rt) && in_range(
                rt,
                *c.opts,
            )
        },
    }
}

/// Whether a time lies in the range that was asked for.
pub open spec fn in_range(rt: RecTime, o: El7Options) -> bool {
    !is_before(rt, o.tm_start) && !is_after(rt, o.tm_end)
}

/// Whether a span reaches from one record to another: by the uptime of the first CPU where there
/// are more CPUs than `limit` and the values are not those of the CPUs, and else by that of all of
/// them together.
pub open spec fn spans(c: PassSetup<'_>, from: Rec, to: Rec, limit: int, span: Span) -> bool {
    if c.id == ActivityId::CPU || c.cpu_nr <= limit {
        span.from == from.uptime && span.to == to.uptime
    } else {
        span.from == from.uptime0 && span.to == to.uptime0
    }
}

proof fn lemma_parts_in_place(c: PassSetup<'_>, shared: Shared, n: int, k: int)
    requires
        n <= c.recs@.len() <= usize::MAX,
        0 <= k < pass_upto(c, shared, n).1.len(),
    ensures
        is_in_place(c, pass_upto(c, shared, n).1[k]),
    decreases n,
{
    if n > c.first + 1 {
        let (p, steps) = pass_upto(c, shared, n - 1);
        if k < steps.len() {
            lemma_parts_in_place(c, shared, n - 1, k);
        }
    }
}

/// Each part of a pass is in its place: samples and comments lie in the range of times that was
/// asked for, and each interval reaches from one end to the other.
pub proof fn law_parts_of_a_pass_are_in_place(c: PassSetup<'_>, shared: Shared, k: int)
    requires
        c.recs@.len() <= usize::MAX,
        0 <= k < pass_result(c, shared).2.len(),
    ensures
        is_in_place(c, pass_result(c, shared).2[k]),
{
    let n = c.recs@.len() as int;
    let (p, steps) = pass_upto(c, shared, n);
    if k < steps.len() {
        lemma_parts_in_place(c, shared, n, k);
        assert(with_step(steps, average_step(c, p))[k] == steps[k]);
    }
}

/// Midnight is passed where a later record has an earlier hour, and only where a first time was
/// asked for.
pub proof fn law_midnight_is_passed_where_the_clock_turns_back(o: El7Options, prev: Rec, rec: Rec)
    ensures
        crosses_day(o, prev, rec) ==> rec.time.ust_time > prev.time.ust_time && rec.time.hour
            < prev.time.hour,
        o.tm_start is None ==> !crosses_day(o, prev, rec),
        o.tm_start is Some && 0 < prev.time.ust_time < rec.time.ust_time && rec.time.hour
            < prev.time.hour ==> crosses_day(o, prev, rec),
{
}

/// A value with decimals stands at the end of its cell with its own bits and as many decimals as
/// the cell has.
pub proof fn law_cells_show_their_value(v: u64)
    ensures
        ({
            let g = cell_glyphs(Cell::F92(v)).last();
            g matches Glyph::Num(s) && s.bits == v && s.form == Form::CFixed { decimals: 2 }
        }),
        ({
            let g = cell_glyphs(Cell::P62(v)).last();
            g matches Glyph::Num(s) && s.bits == v && s.form == Form::CFixed { decimals: 2 }
        }),
        ({
            let g = cell_glyphs(Cell::P72(v)).last();
            g matches Glyph::Num(s) && s.bits == v && s.form == Form::CFixed { decimals: 2 }
        }),
        ({
            let g = cell_glyphs(Cell::F90(v)).last();
            g matches Glyph::Num(s) && s.bits == v && s.form == Form::CFixed { decimals: 0 }
        }),
{
}

/// A number without decimals stands in decimal at the right end of its cell.
pub proof fn law_whole_numbers_stand_at_the_right(v: u64)
    requires
        dec(v as nat).len() <= 9,
    ensures
        exists|s: Seq<char>|
            decimal_value(s) == v && cell_glyphs(Cell::U9(v)) == #[trigger] chars(aligned(s, 10)),
{
    reveal_strlit(" ");
    let s = dec(v as nat);
    law_decimals_have_their_value(v as nat);
    lemma_decimals_are_ascii(v as nat);
    law_padding_keeps_the_text(s, 9);
    assert(cell_glyphs(Cell::U9(v)) =~= chars(aligned(s, 10)));
}

/// The lines of restarts and comments start with the time, and say what happened.
pub proof fn law_events_say_what_happened(rec: Rec, o: El7Options, rt: RecTime)
    requires
        time_of(rec.time, o.time) == Some(rt),
        0 <= rt.hour,
        0 <= rt.min,
        0 <= rt.sec,
    ensures
        reads_as(clock_text(rt), ':', rt.hour as int, rt.min as int, rt.sec as int),
        rec.kind == Kind::Restart ==> special_glyphs(rec, o) == chars(
            "\n"@ + right_padded(clock_text(rt), 11) + "       LINUX RESTART\n"@,
        ),
        rec.kind == Kind::Comment ==> special_glyphs(rec, o) == chars(
            right_padded(clock_text(rt), 11) + "  COM "@,
        ) + bytes(rec.comment@) + chars("\n"@),
        rec.kind == Kind::Comment && !o.comment ==> !special_shown(rec, o),
        rec.kind == Kind::Stats ==> !special_shown(rec, o),
{
    law_times_read_hour_minute_second(rt.hour as int, rt.min as int, rt.sec as int);
}

/// The averages are called so, but for what has none: devices on a bus and file systems are
/// summed up.
pub proof fn law_averages_are_called_so(id: ActivityId)
    ensures
        id != ActivityId::PWR_USB && id != ActivityId::FS ==> average_titles(id) == (
            "Average:"@,
            "Average:"@,
        ),
        id == ActivityId::PWR_USB ==> average_titles(id) == ("Summary"@, "Summary"@),
        id == ActivityId::FS ==> average_titles(id) == ("Summary:"@, "Summary"@),
{
}

/// The rows of a sample stand behind its own time, and the headings above them behind the time of
/// the sample before.
pub proof fn law_rows_stand_behind_their_time(
    recs: Seq<Rec>,
    o: El7Options,
    s: Step,
    rows: Seq<Row>,
    now: RecTime,
    before: RecTime,
)
    requires
        s matches Step::Sample { rec, prev, .. } && time_of(recs[rec as int].time, o.time) == Some(
            now,
        ) && time_of(recs[prev as int].time, o.time) == Some(before),
    ensures
        rows_glyphs(clock_text(now), rows).is_suffix_of(step_glyphs(recs, o, s, rows)),
        !s->Sample_header ==> step_glyphs(recs, o, s, rows) == rows_glyphs(clock_text(now), rows),
        s->Sample_header ==> chars(
            header_line(
                clock_text(before),
                s->Sample_id,
                s->Sample_mem,
                o.print.cpu_all,
                o.print.fs_mount,
            ),
        ).is_prefix_of(step_glyphs(recs, o, s, rows)),
{
    let all = step_glyphs(recs, o, s, rows);
    let body = rows_glyphs(clock_text(now), rows);
    assert(all.skip(all.len() - body.len()) =~= body);
    if s->Sample_header {
        let head = chars(
            header_line(
                clock_text(before),
                s->Sample_id,
                s->Sample_mem,
                o.print.cpu_all,
                o.print.fs_mount,
            ),
        );
        assert(all.take(head.len() as int) =~= head);
    } else {
        assert(all =~= body);
    }
}

}
