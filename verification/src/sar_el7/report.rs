//! The course of the older report: which records are shown, and where the headings stand.

use vstd::prelude::*;

use crate::clock::{has_date, time_text, utc_civil, utc_date_of, format_time, RecordTime};
use crate::doc::{bytes, chars, Doc, Glyph};
use crate::model::{as_signed, list_contains, listed, ActivityId};
use crate::sar_el7::options::{
    bits_set, capped, capped_sum, memory_parts, El7Options, Tstamp, FORMAT_MAGIC,
};
use crate::sar_el7::rows::{
    header_line, push_header, push_rows, rows_glyphs, MemOutput, Row, STAMP_WIDTH,
};
use crate::sar_text::header::{banner_date, banner_day, FileHeader};
use crate::sar_text::options::TimeStyle;
use crate::slice::{in_window, is_in_window, last_seen};
use crate::text::{dec, dec_text, pad_right, right_padded};

verus! {

/// What a record is.
#[derive(Clone, Copy, PartialEq, Eq, Structural, Debug)]
pub enum Kind {
    Stats,
    Restart,
    Comment,
}

/// A record.
#[derive(Debug)]
pub struct Rec {
    pub kind: Kind,
    pub time: RecordTime,
    /// The jiffies of all CPUs together.
    pub uptime: u64,
    /// The jiffies of one CPU.
    pub uptime0: u64,
    /// The text of a comment.
    pub comment: Vec<u8>,
    /// The activities that cannot be read at the record.
    pub unplanned: Vec<ActivityId>,
}

/// A time of day.
#[derive(Clone, Copy, PartialEq, Eq, Structural, Debug)]
pub struct RecTime {
    pub hour: i32,
    pub min: i32,
    pub sec: i32,
}

/// The time of day of a record; `None` where it has no date.
pub open spec fn time_of(t: RecordTime, style: TimeStyle) -> Option<RecTime> {
    let dated = as_signed(t.ust_time) >= 0 && has_date(as_signed(t.ust_time));
    match style {
        TimeStyle::Recorded => Some(
            RecTime { hour: t.hour as i32, min: t.minute as i32, sec: t.second as i32 },
        ),
        TimeStyle::Local => if dated {
            Some(clock_time(t.local.hour, t.local.minute, t.local.second))
        } else {
            None
        },
        _ => if dated {
            let c = utc_civil(t.ust_time);
            Some(clock_time(c.hour, c.minute, c.second))
        } else {
            None
        },
    }
}

/// A time of day in the range of a clock.
pub open spec fn clock_time(hour: u32, minute: u32, second: u32) -> RecTime {
    RecTime { hour: (hour % 24) as i32, min: (minute % 60) as i32, sec: (second % 60) as i32 }
}

fn to_clock(hour: u32, minute: u32, second: u32) -> (r: RecTime)
    ensures
        r == clock_time(hour, minute, second),
{
    RecTime { hour: (hour % 24) as i32, min: (minute % 60) as i32, sec: (second % 60) as i32 }
}

/// The time of day of a record.
pub fn rectime(t: &RecordTime, style: TimeStyle) -> (r: Option<RecTime>)
    ensures
        r == time_of(*t, style),
        r matches Some(rt) ==> 0 <= rt.hour < 256 && 0 <= rt.min < 256 && 0 <= rt.sec < 256,
{
    match style {
        TimeStyle::Recorded => Some(
            RecTime { hour: t.hour as i32, min: t.minute as i32, sec: t.second as i32 },
        ),
        TimeStyle::Local => {
            if t.ust_time >= 0x8000_0000_0000_0000 {
                return None;
            }
            match utc_date_of(t.ust_time) {
                Some(_) => Some(to_clock(t.local.hour, t.local.minute, t.local.second)),
                None => None,
            }
        },
        _ => {
            if t.ust_time >= 0x8000_0000_0000_0000 {
                return None;
            }
            match utc_date_of(t.ust_time) {
                Some(c) => Some(to_clock(c.hour, c.minute, c.second)),
                None => None,
            }
        },
    }
}

/// How far a time is after another: by the hours, else by the minutes, else by the seconds.
pub open spec fn time_order(rt: RecTime, t: Tstamp) -> int {
    if rt.hour != t.hour {
        rt.hour - t.hour
    } else if rt.min != t.min {
        rt.min - t.min
    } else {
        rt.sec - t.sec
    }
}

/// How far a time is after another.
pub fn order_times(rt: RecTime, t: Tstamp) -> (r: i64)
    ensures
        r == time_order(rt, t),
{
    if rt.hour == t.hour {
        if rt.min == t.min {
            rt.sec as i64 - t.sec as i64
        } else {
            rt.min as i64 - t.min as i64
        }
    } else {
        rt.hour as i64 - t.hour as i64
    }
}

/// Whether a time lies before the time range.
pub open spec fn is_before(rt: RecTime, start: Option<Tstamp>) -> bool {
    start matches Some(s) && time_order(rt, s) < 0
}

/// Whether a time lies after the time range.
pub open spec fn is_after(rt: RecTime, end: Option<Tstamp>) -> bool {
    end matches Some(e) && time_order(rt, e) > 0
}

fn before(rt: RecTime, start: Option<Tstamp>) -> (r: bool)
    ensures
        r == is_before(rt, start),
{
    match start {
        Some(s) => order_times(rt, s) < 0,
        None => false,
    }
}

fn after(rt: RecTime, end: Option<Tstamp>) -> (r: bool)
    ensures
        r == is_after(rt, end),
{
    match end {
        Some(e) => order_times(rt, e) > 0,
        None => false,
    }
}

/// The interval in force: what is not positive counts as C counts it without a sign, and 0 as 1.
pub open spec fn unsigned_interval(interval: i64) -> int {
    if interval > 0 {
        interval as int
    } else if interval == 0 {
        1
    } else {
        interval + 0x1_0000_0000_0000_0000
    }
}

/// Whether the sample at `uptime` is shown. This release asks so of every sample, also where
/// the interval is 1.
pub fn next_slice(
    uptime_ref: u64,
    uptime: u64,
    reset: bool,
    interval: i64,
    last_uptime: &mut u64,
) -> (r: bool)
    ensures
        r == in_window(
            uptime_ref,
            uptime,
            last_seen(uptime_ref, reset, *old(last_uptime)),
            unsigned_interval(interval),
        ),
        *final(last_uptime) == uptime,
{
    let last: u64 = if *last_uptime == 0 || reset {
        uptime_ref
    } else {
        *last_uptime
    };
    *last_uptime = uptime;
    let iv: u64 = if interval > 0 {
        interval as u64
    } else if interval == 0 {
        1
    } else {
        (interval as i128 + 0x1_0000_0000_0000_0000) as u64
    };
    is_in_window(uptime_ref, uptime, last, iv)
}

/// `HH:MM:SS`.
pub open spec fn clock_text(rt: RecTime) -> Seq<char> {
    time_text(rt.hour as int, rt.min as int, rt.sec as int)
}

fn time_string(rt: RecTime) -> (r: String)
    requires
        0 <= rt.hour,
        0 <= rt.min,
        0 <= rt.sec,
    ensures
        r@ == clock_text(rt),
{
    format_time(rt.hour as u32, rt.min as u32, rt.sec as u32)
}

/// An activity of the file.
#[derive(Clone, Copy, PartialEq, Eq, Structural, Debug)]
pub struct FileActivity {
    pub id: ActivityId,
    /// Whether this release can read it.
    pub readable: bool,
    /// The number of its items.
    pub nr: i32,
    pub nr2: i32,
}

/// The uptimes at the two ends of a stretch of time.
#[derive(Clone, Copy, PartialEq, Eq, Structural, Debug)]
pub struct Span {
    pub from: u64,
    pub to: u64,
}

/// A part of the report.
#[derive(Clone, Copy, PartialEq, Eq, Structural, Debug)]
pub enum Step {
    /// A restart or a comment.
    Special { rec: usize },
    /// A sample of an activity, compared with the sample `prev`.
    Sample {
        id: ActivityId,
        mem: MemOutput,
        rec: usize,
        prev: usize,
        header: bool,
        span: Span,
    },
    /// The averages of an activity over `count` samples.
    Average {
        id: ActivityId,
        mem: MemOutput,
        first: usize,
        last: usize,
        count: u64,
        header: bool,
        span: Span,
    },
}

/// Whether a restart or a comment is shown.
pub open spec fn special_shown(rec: Rec, o: El7Options) -> bool {
    match time_of(rec.time, o.time) {
        None => false,
        Some(rt) => !is_before(rt, o.tm_start) && !is_after(rt, o.tm_end) && (rec.kind
            == Kind::Restart || (rec.kind == Kind::Comment && o.comment)),
    }
}

/// A restart or a comment.
pub open spec fn special_glyphs(rec: Rec, o: El7Options) -> Seq<Glyph> {
    let ts = match time_of(rec.time, o.time) {
        Some(rt) => right_padded(clock_text(rt), STAMP_WIDTH as nat),
        None => Seq::empty(),
    };
    if rec.kind == Kind::Restart {
        chars("\n"@ + ts + "       LINUX RESTART\n"@)
    } else {
        chars(ts + "  COM "@) + bytes(rec.comment@) + chars("\n"@)
    }
}

/// The time that a record leaves as the last one looked at.
pub open spec fn time_after(rt: RecTime, rec: Rec, o: El7Options) -> RecTime {
    match time_of(rec.time, o.time) {
        Some(t) => t,
        None => rt,
    }
}

fn shows_special(rec: &Rec, o: &El7Options) -> (r: bool)
    ensures
        r == special_shown(*rec, *o),
{
    match rectime(&rec.time, o.time) {
        None => false,
        Some(rt) => {
            if before(rt, o.tm_start) || after(rt, o.tm_end) {
                return false;
            }
            match rec.kind {
                Kind::Restart => true,
                Kind::Comment => o.comment,
                Kind::Stats => false,
            }
        },
    }
}

fn later_time(rt: RecTime, rec: &Rec, o: &El7Options) -> (r: RecTime)
    ensures
        r == time_after(rt, *rec, *o),
{
    match rectime(&rec.time, o.time) {
        Some(t) => t,
        None => rt,
    }
}

/// A restart or a comment.
pub fn print_special(rec: &Rec, o: &El7Options) -> (r: Doc)
    ensures
        r@ == special_glyphs(*rec, *o),
{
    let ts = match rectime(&rec.time, o.time) {
        Some(rt) => pad_right(time_string(rt).as_str(), STAMP_WIDTH),
        None => String::new(),
    };
    if rec.kind == Kind::Restart {
        let mut line = "\n".to_owned();
        line.append(ts.as_str());
        line.append("       LINUX RESTART\n");
        Doc::of(line.as_str())
    } else {
        let mut line = ts;
        line.append("  COM ");
        let mut out = Doc::of(line.as_str());
        out.put_bytes(&rec.comment);
        out.put("\n");
        out
    }
}

/// How a pass over the records of a stretch has ended.
#[derive(Clone, Copy, PartialEq, Eq, Structural, Debug)]
pub struct PassEnd {
    /// The record after the last one that was read.
    pub pos: usize,
    /// Whether the file has ended.
    pub eosaf: bool,
    /// Whether a restart has ended the stretch.
    pub restart: bool,
    /// The samples that may still be shown.
    pub cnt: i64,
}

/// What is carried from one pass to the next.
#[derive(Clone, Copy, PartialEq, Eq, Structural, Debug)]
pub struct Shared {
    /// Whether midnight has been passed. It never becomes false again.
    pub cross_day: bool,
    /// The uptime of the last sample that was looked at.
    pub last_uptime: u64,
    /// The time of the last record that was looked at.
    pub rt: RecTime,
}

/// The state of a pass.
#[derive(Clone, Copy, PartialEq, Eq, Structural, Debug)]
pub struct Pass {
    pub cnt: i64,
    /// The lines since the headings.
    pub lines: u64,
    /// Whether the headings are due.
    pub dis: bool,
    /// The samples that were shown.
    pub davg: u64,
    pub reset: bool,
    /// The last sample that was shown, or the first one of the stretch.
    pub prev_at: usize,
    pub shared: Shared,
    pub end: Option<PassEnd>,
}

/// What does not change during a pass.
pub struct PassSetup<'a> {
    pub recs: &'a Vec<Rec>,
    pub opts: &'a El7Options,
    pub id: ActivityId,
    pub mem: MemOutput,
    /// The first sample of the stretch.
    pub first: usize,
    /// The lines that a sample counts for.
    pub inc: u64,
    /// The number of CPUs, plus one.
    pub cpu_nr: i64,
}

/// The state at the start of a pass.
pub open spec fn fresh_pass(c: PassSetup<'_>, shared: Shared) -> Pass {
    Pass {
        cnt: c.opts.count,
        lines: 0,
        dis: false,
        davg: 0,
        reset: true,
        prev_at: c.first,
        shared,
        end: None,
    }
}

/// The headings are due where no line, or as many as fit, have been shown since.
pub open spec fn with_headings(c: PassSetup<'_>, p: Pass) -> Pass {
    if p.lines >= c.opts.rows || p.lines == 0 {
        Pass { lines: 0, dis: true, ..p }
    } else {
        Pass { dis: false, ..p }
    }
}

/// The time between two samples. A machine with several CPUs goes by the time of one of them,
/// except in the CPU report.
pub open spec fn span_of(c: PassSetup<'_>, from: Rec, to: Rec, limit: i64) -> Span {
    if c.id != ActivityId::CPU && c.cpu_nr > limit {
        Span { from: from.uptime0, to: to.uptime0 }
    } else {
        Span { from: from.uptime, to: to.uptime }
    }
}

/// Whether midnight lies between two samples.
pub open spec fn crosses_day(o: El7Options, prev: Rec, rec: Rec) -> bool {
    o.tm_start is Some && prev.time.ust_time != 0 && rec.time.ust_time > prev.time.ust_time
        && rec.time.hour < prev.time.hour
}

/// The time that a sample is compared with the time range by.
pub open spec fn range_time(rt: RecTime, cross_day: bool) -> RecTime {
    if cross_day {
        RecTime { hour: (rt.hour + 24) as i32, ..rt }
    } else {
        rt
    }
}

/// A pass after a sample.
pub open spec fn after_stats(c: PassSetup<'_>, p: Pass, idx: usize) -> (Pass, Option<Step>) {
    let rec = c.recs@[idx as int];
    let prev = c.recs@[p.prev_at as int];
    let o = *c.opts;
    let taken = in_window(
        c.recs@[c.first as int].uptime0,
        rec.uptime0,
        last_seen(c.recs@[c.first as int].uptime0, p.reset, p.shared.last_uptime),
        unsigned_interval(o.interval),
    );
    let seen = Shared { last_uptime: rec.uptime0, ..p.shared };
    if !taken || time_of(prev.time, o.time) is None || time_of(rec.time, o.time) is None {
        (
            Pass { reset: false, shared: seen, end: if p.cnt == 0 {
                Some(PassEnd { pos: (idx + 1) as usize, eosaf: false, restart: false, cnt: 0 })
            } else {
                None
            }, ..p },
            None,
        )
    } else {
        let rt = time_of(rec.time, o.time)->0;
        let cross = p.shared.cross_day || crosses_day(o, prev, rec);
        let shared = Shared { cross_day: cross, rt, ..seen };
        let at = range_time(rt, cross);
        if is_before(at, o.tm_start) {
            (
                Pass { reset: false, shared, end: if p.cnt == 0 {
                    Some(PassEnd { pos: (idx + 1) as usize, eosaf: false, restart: false, cnt: 0 })
                } else {
                    None
                }, ..p },
                None,
            )
        } else if is_after(at, o.tm_end) {
            (
                Pass {
                    cnt: 0,
                    reset: false,
                    shared,
                    end: Some(
                        PassEnd { pos: (idx + 1) as usize, eosaf: false, restart: false, cnt: 0 },
                    ),
                    ..p
                },
                None,
            )
        } else {
            let cnt = if p.cnt > 0 {
                (p.cnt - 1) as i64
            } else {
                p.cnt
            };
            (
                Pass {
                    cnt,
                    lines: capped(p.lines + c.inc),
                    dis: p.dis,
                    davg: (p.davg + 1) as u64,
                    reset: false,
                    prev_at: idx,
                    shared,
                    end: if cnt == 0 {
                        Some(PassEnd { pos: (idx + 1) as usize, eosaf: false, restart: false, cnt: 0 })
                    } else {
                        None
                    },
                },
                Some(
                    Step::Sample {
                        id: c.id,
                        mem: c.mem,
                        rec: idx,
                        prev: p.prev_at,
                        header: p.dis,
                        span: span_of(c, prev, rec, 2),
                    },
                ),
            )
        }
    }
}

/// A pass after one more record. Comments count as a line; a restart ends the stretch.
pub open spec fn after_rec(c: PassSetup<'_>, p0: Pass, idx: usize) -> (Pass, Option<Step>) {
    let p = with_headings(c, p0);
    let rec = c.recs@[idx as int];
    match rec.kind {
        Kind::Restart => (
            Pass {
                end: Some(
                    PassEnd { pos: (idx + 1) as usize, eosaf: false, restart: true, cnt: p.cnt },
                ),
                ..p
            },
            None,
        ),
        Kind::Comment => {
            let q = Pass { shared: Shared { rt: time_after(p.shared.rt, rec, *c.opts), ..p.shared }, ..p };
            if special_shown(rec, *c.opts) {
                (Pass { lines: capped(p.lines + 1), ..q }, Some(Step::Special { rec: idx }))
            } else {
                (q, None)
            }
        },
        Kind::Stats => after_stats(c, p, idx),
    }
}

/// A list with one more part, where there is one.
pub open spec fn with_step(steps: Seq<Step>, s: Option<Step>) -> Seq<Step> {
    match s {
        Some(x) => steps.push(x),
        None => steps,
    }
}

/// A pass after the records before `n`, and the parts of the report that it has made.
pub open spec fn pass_upto(c: PassSetup<'_>, shared: Shared, n: int) -> (Pass, Seq<Step>)
    decreases n,
{
    if n <= c.first + 1 {
        (fresh_pass(c, shared), Seq::empty())
    } else {
        let (p, steps) = pass_upto(c, shared, n - 1);
        if p.end is Some {
            (p, steps)
        } else {
            let (q, s) = after_rec(c, p, (n - 1) as usize);
            (q, with_step(steps, s))
        }
    }
}

/// How a pass ends: where it has not been ended before, with the file.
pub open spec fn pass_end(c: PassSetup<'_>, p: Pass) -> PassEnd {
    match p.end {
        Some(e) => e,
        None => PassEnd { pos: c.recs@.len() as usize, eosaf: true, restart: false, cnt: p.cnt },
    }
}

/// Whether the headings are due before the averages.
pub open spec fn average_headings(c: PassSetup<'_>, p: Pass) -> bool {
    match p.end {
        Some(_) => p.dis,
        None => p.lines >= c.opts.rows || p.lines == 0,
    }
}

/// The averages at the end of a pass, where a sample was shown.
pub open spec fn average_step(c: PassSetup<'_>, p: Pass) -> Option<Step> {
    if p.davg > 0 {
        Some(
            Step::Average {
                id: c.id,
                mem: c.mem,
                first: c.first,
                last: p.prev_at,
                count: p.davg,
                header: average_headings(c, p),
                span: span_of(c, c.recs@[c.first as int], c.recs@[p.prev_at as int], 1),
            },
        )
    } else {
        None
    }
}

/// Whether the activity of a pass can be read at the first sample of the stretch.
pub open spec fn can_start(c: PassSetup<'_>) -> bool {
    !listed(c.recs@[c.first as int].unplanned@, c.id)
}

/// A pass as a whole: how it ends, what it carries on, and the parts of the report. Where the
/// activity cannot be read at the first sample, it is as if the file had ended.
pub open spec fn pass_result(c: PassSetup<'_>, shared: Shared) -> (PassEnd, Shared, Seq<Step>) {
    if can_start(c) {
        let (p, steps) = pass_upto(c, shared, c.recs@.len() as int);
        (pass_end(c, p), p.shared, with_step(steps, average_step(c, p)))
    } else {
        (pass_end(c, fresh_pass(c, shared)), shared, Seq::empty())
    }
}

/// What holds of a pass while it runs.
pub open spec fn pass_ok(c: PassSetup<'_>, p: Pass, n: int) -> bool {
    &&& c.first <= p.prev_at < n
    &&& p.davg < n
    &&& p.end matches Some(e) ==> c.first < e.pos <= n
}

/// What a setup has to meet.
pub open spec fn setup_ok(c: PassSetup<'_>) -> bool {
    c.first < c.recs@.len()
}

fn span_between(c: &PassSetup<'_>, from: usize, to: usize, limit: i64) -> (r: Span)
    requires
        from < c.recs@.len(),
        to < c.recs@.len(),
    ensures
        r == span_of(*c, c.recs@[from as int], c.recs@[to as int], limit),
{
    let a = &c.recs[from];
    let b = &c.recs[to];
    if c.id != ActivityId::CPU && c.cpu_nr > limit {
        Span { from: a.uptime0, to: b.uptime0 }
    } else {
        Span { from: a.uptime, to: b.uptime }
    }
}

fn take_stats(c: &PassSetup<'_>, p: Pass, idx: usize) -> (r: (Pass, Option<Step>))
    requires
        setup_ok(*c),
        pass_ok(*c, p, idx as int),
        idx < c.recs@.len(),
        p.end is None,
    ensures
        r == after_stats(*c, p, idx),
        pass_ok(*c, r.0, idx + 1),
{
    let o = c.opts;
    let _len: usize = c.recs.len();
    let rec = &c.recs[idx];
    let prev = &c.recs[p.prev_at];
    let mut q = p;
    let mut last: u64 = p.shared.last_uptime;
    let taken = next_slice(
        c.recs[c.first].uptime0,
        rec.uptime0,
        p.reset,
        o.interval,
        &mut last,
    );
    q.shared.last_uptime = last;
    q.reset = false;
    let stop = PassEnd { pos: idx + 1, eosaf: false, restart: false, cnt: 0 };
    let rt_prev = rectime(&prev.time, o.time);
    let rt_now = rectime(&rec.time, o.time);
    let rt = match (rt_prev, rt_now) {
        (Some(_), Some(rt)) => if taken {
            rt
        } else {
            if q.cnt == 0 {
                q.end = Some(stop);
            }
            return (q, None);
        },
        _ => {
            if q.cnt == 0 {
                q.end = Some(stop);
            }
            return (q, None);
        },
    };
    q.shared.rt = rt;
    if o.tm_start.is_some() && prev.time.ust_time != 0 && rec.time.ust_time > prev.time.ust_time
        && rec.time.hour < prev.time.hour {
        q.shared.cross_day = true;
    }
    let at = if q.shared.cross_day {
        RecTime { hour: rt.hour + 24, min: rt.min, sec: rt.sec }
    } else {
        rt
    };
    if before(at, o.tm_start) {
        if q.cnt == 0 {
            q.end = Some(stop);
        }
        return (q, None);
    }
    if after(at, o.tm_end) {
        q.cnt = 0;
        q.end = Some(stop);
        return (q, None);
    }
    if q.cnt > 0 {
        q.cnt = q.cnt - 1;
    }
    q.lines = capped_sum(q.lines, c.inc);
    q.davg = q.davg + 1;
    q.prev_at = idx;
    if q.cnt == 0 {
        q.end = Some(stop);
    }
    let step = Step::Sample {
        id: c.id,
        mem: c.mem,
        rec: idx,
        prev: p.prev_at,
        header: p.dis,
        span: span_between(c, p.prev_at, idx, 2),
    };
    (q, Some(step))
}

fn take_rec(c: &PassSetup<'_>, p0: Pass, idx: usize) -> (r: (Pass, Option<Step>))
    requires
        setup_ok(*c),
        pass_ok(*c, p0, idx as int),
        idx < c.recs@.len(),
        p0.end is None,
    ensures
        r == after_rec(*c, p0, idx),
        pass_ok(*c, r.0, idx + 1),
{
    let _len: usize = c.recs.len();
    let mut p = p0;
    if p.lines >= c.opts.rows || p.lines == 0 {
        p.lines = 0;
        p.dis = true;
    } else {
        p.dis = false;
    }
    let rec = &c.recs[idx];
    match rec.kind {
        Kind::Restart => {
            p.end = Some(PassEnd { pos: idx + 1, eosaf: false, restart: true, cnt: p.cnt });
            (p, None)
        },
        Kind::Comment => {
            p.shared.rt = later_time(p.shared.rt, rec, c.opts);
            if shows_special(rec, c.opts) {
                p.lines = capped_sum(p.lines, 1);
                (p, Some(Step::Special { rec: idx }))
            } else {
                (p, None)
            }
        },
        Kind::Stats => take_stats(c, p, idx),
    }
}

/// One pass over a stretch: one activity, or one part of the memory report.
pub fn handle_pass(c: &PassSetup<'_>, shared: Shared) -> (r: (PassEnd, Shared, Vec<Step>))
    requires
        setup_ok(*c),
    ensures
        (r.0, r.1, r.2@) == pass_result(*c, shared),
        c.first < r.0.pos <= c.recs@.len(),
{
    let n: usize = c.recs.len();
    let mut p = Pass {
        cnt: c.opts.count,
        lines: 0,
        dis: false,
        davg: 0,
        reset: true,
        prev_at: c.first,
        shared,
        end: None,
    };
    let mut steps: Vec<Step> = Vec::new();
    if list_contains(&c.recs[c.first].unplanned, c.id) {
        assert(steps@ =~= Seq::<Step>::empty());
        return (PassEnd { pos: n, eosaf: true, restart: false, cnt: p.cnt }, shared, steps);
    }
    let mut idx: usize = c.first + 1;
    assert(steps@ =~= pass_upto(*c, shared, idx as int).1);
    while idx < n && p.end.is_none()
        invariant
            n == c.recs@.len(),
            c.first + 1 <= idx <= n,
            setup_ok(*c),
            pass_ok(*c, p, idx as int),
            (p, steps@) == pass_upto(*c, shared, idx as int),
        decreases n - idx,
    {
        let (q, s) = take_rec(c, p, idx);
        p = q;
        if let Some(step) = s {
            steps.push(step);
        }
        idx = idx + 1;
    }
    proof {
        lemma_pass_stays(*c, shared, idx as int, n as int);
    }
    let end = match p.end {
        Some(e) => e,
        None => PassEnd { pos: n, eosaf: true, restart: false, cnt: p.cnt },
    };
    if p.davg > 0 {
        let header = match p.end {
            Some(_) => p.dis,
            None => p.lines >= c.opts.rows || p.lines == 0,
        };
        steps.push(
            Step::Average {
                id: c.id,
                mem: c.mem,
                first: c.first,
                last: p.prev_at,
                count: p.davg,
                header,
                span: span_between(c, c.first, p.prev_at, 1),
            },
        );
    }
    (end, p.shared, steps)
}

/// Nothing more comes of a pass that has ended.
proof fn lemma_pass_stays(c: PassSetup<'_>, shared: Shared, k: int, n: int)
    requires
        c.first + 1 <= k <= n,
        k == n || pass_upto(c, shared, k).0.end is Some,
    ensures
        pass_upto(c, shared, n) == pass_upto(c, shared, k),
    decreases n - k,
{
    if k < n {
        lemma_pass_stays(c, shared, k, n - 1);
    }
}

/// A file that this release can read.
#[derive(Debug)]
pub struct El7File {
    pub header: FileHeader,
    /// The number of its format.
    pub format_magic: u16,
    pub activities: Vec<FileActivity>,
    pub recs: Vec<Rec>,
}

/// Why there is no report.
#[derive(Clone, Copy, PartialEq, Eq, Structural, Debug)]
pub enum El7Error {
    /// The file has another format.
    Format(u16),
    /// The file has no CPU statistics.
    NoCpu,
    /// The file has none of the activities that were asked for.
    NotInFile,
}

/// The first of the activities before `n` that is the CPU activity and can be read.
pub open spec fn find_cpu(acts: Seq<FileActivity>, n: int) -> Option<FileActivity>
    decreases n,
{
    if n <= 0 {
        None
    } else {
        match find_cpu(acts, n - 1) {
            Some(a) => Some(a),
            None => if acts[n - 1].readable && acts[n - 1].id == ActivityId::CPU {
                Some(acts[n - 1])
            } else {
                None
            },
        }
    }
}

/// Whether the file has an activity that was asked for, whether it can be read or not.
pub open spec fn any_requested(acts: Seq<FileActivity>, ids: Seq<ActivityId>) -> bool {
    exists|i: int| 0 <= i < acts.len() && listed(ids, (#[trigger] acts[i]).id)
}

/// Why there is no report of a file.
pub open spec fn refusal(f: El7File, o: El7Options) -> Option<El7Error> {
    if f.format_magic != FORMAT_MAGIC {
        Some(El7Error::Format(f.format_magic))
    } else if find_cpu(f.activities@, f.activities@.len() as int) is None {
        Some(El7Error::NoCpu)
    } else if !any_requested(f.activities@, o.activities@) {
        Some(El7Error::NotInFile)
    } else {
        None
    }
}

/// A pass that a stretch needs.
#[derive(Clone, Copy, PartialEq, Eq, Structural, Debug)]
pub struct PassPlan {
    pub id: ActivityId,
    pub mem: MemOutput,
    /// The lines that a sample counts for.
    pub inc: u64,
}

/// The lines that a sample of an activity counts for: the CPUs or interrupts that are shown,
/// else the items of the file.
pub open spec fn lines_of(a: FileActivity, o: El7Options) -> u64 {
    if a.id == ActivityId::IRQ {
        capped(bits_set(o.print.irq_bitmap.bytes@) as int)
    } else if a.id == ActivityId::CPU || a.id == ActivityId::PWR_CPU || a.id
        == ActivityId::PWR_FREQ {
        capped(bits_set(o.print.cpu_bitmap.bytes@) as int)
    } else if a.nr > 0 {
        a.nr as u64
    } else {
        0
    }
}

/// The passes of an activity: one for each part of the memory report that is shown, else one.
pub open spec fn activity_passes(a: FileActivity, o: El7Options) -> Seq<PassPlan> {
    if a.id == ActivityId::MEMORY {
        Seq::new(
            memory_parts(o).len(),
            |i: int| PassPlan { id: a.id, mem: memory_parts(o)[i], inc: lines_of(a, o) },
        )
    } else {
        seq![PassPlan { id: a.id, mem: MemOutput::Amt, inc: lines_of(a, o) }]
    }
}

/// The passes of the first `n` activities: of those that can be read and were asked for.
pub open spec fn passes_of(acts: Seq<FileActivity>, o: El7Options, n: int) -> Seq<PassPlan>
    decreases n,
{
    if n <= 0 {
        Seq::empty()
    } else {
        let before = passes_of(acts, o, n - 1);
        if acts[n - 1].readable && listed(o.activities@, acts[n - 1].id) {
            before + activity_passes(acts[n - 1], o)
        } else {
            before
        }
    }
}

/// The first sample of a stretch from the record `pos` on, the time that is left, and the
/// restarts and comments that come before it.
pub open spec fn seek(recs: Seq<Rec>, o: El7Options, pos: int, rt: RecTime) -> (
    Option<int>,
    RecTime,
    Seq<Step>,
)
    decreases recs.len() - pos,
{
    if pos < 0 || pos >= recs.len() {
        (None, rt, Seq::empty())
    } else {
        let next = time_after(rt, recs[pos], o);
        if recs[pos].kind == Kind::Stats {
            if !is_before(next, o.tm_start) && !(o.tm_end matches Some(e) && time_order(next, e)
                >= 0) {
                (Some(pos), next, Seq::empty())
            } else {
                seek(recs, o, pos + 1, next)
            }
        } else {
            let (first, left, steps) = seek(recs, o, pos + 1, next);
            (
                first,
                left,
                if special_shown(recs[pos], o) {
                    seq![Step::Special { rec: pos as usize }] + steps
                } else {
                    steps
                },
            )
        }
    }
}

/// The end of the first `n` passes of a stretch, what is carried on, and the parts of the
/// report.
pub open spec fn run_passes(
    recs: &Vec<Rec>,
    o: &El7Options,
    plans: Seq<PassPlan>,
    n: int,
    first: usize,
    cpu_nr: i64,
    shared: Shared,
) -> (Option<PassEnd>, Shared, Seq<Step>)
    decreases n,
{
    if n <= 0 {
        (None, shared, Seq::empty())
    } else {
        let (_, s, steps) = run_passes(recs, o, plans, n - 1, first, cpu_nr, shared);
        let c = PassSetup {
            recs,
            opts: o,
            id: plans[n - 1].id,
            mem: plans[n - 1].mem,
            first,
            inc: plans[n - 1].inc,
            cpu_nr,
        };
        let (end, t, more) = pass_result(c, s);
        (Some(end), t, steps + more)
    }
}

/// What is left of a stretch from the record `pos` on once enough samples were shown: where the
/// next restart ends, whether there is one, the time that is left, and the comments before it.
pub open spec fn skip_rest(recs: Seq<Rec>, o: El7Options, pos: int, rt: RecTime) -> (
    int,
    bool,
    RecTime,
    Seq<Step>,
)
    decreases recs.len() - pos,
{
    if pos < 0 || pos >= recs.len() {
        (pos, false, rt, Seq::empty())
    } else if recs[pos].kind == Kind::Restart {
        (pos + 1, true, rt, Seq::empty())
    } else if recs[pos].kind == Kind::Comment {
        let (p, found, left, steps) = skip_rest(
            recs,
            o,
            pos + 1,
            time_after(rt, recs[pos], o),
        );
        (
            p,
            found,
            left,
            if special_shown(recs[pos], o) {
                seq![Step::Special { rec: pos as usize }] + steps
            } else {
                steps
            },
        )
    } else {
        skip_rest(recs, o, pos + 1, rt)
    }
}

/// The restart before the record `pos`, where it is shown.
pub open spec fn closing_restart(recs: Seq<Rec>, o: El7Options, pos: int) -> Seq<Step> {
    if special_shown(recs[pos - 1], o) {
        seq![Step::Special { rec: (pos - 1) as usize }]
    } else {
        Seq::empty()
    }
}

/// The parts of the report of the stretch from the record `pos` on, and where the next stretch
/// starts with what is carried on.
pub open spec fn stretch_from(
    recs: &Vec<Rec>,
    o: &El7Options,
    plans: Seq<PassPlan>,
    cpu_nr: i64,
    pos: int,
    shared: Shared,
) -> (Seq<Step>, Option<(int, Shared)>) {
    let (found, rt, lead) = seek(recs@, *o, pos, shared.rt);
    match found {
        None => (lead, None),
        Some(first) => {
            let (last, s1, body) = run_passes(
                recs,
                o,
                plans,
                plans.len() as int,
                first as usize,
                cpu_nr,
                Shared { rt, ..shared },
            );
            match last {
                None => (lead + body, None),
                Some(end) => {
                    let (p, restart, rt2, rest) = if end.cnt == 0 {
                        skip_rest(recs@, *o, end.pos as int, s1.rt)
                    } else {
                        (end.pos as int, !end.eosaf && end.restart, s1.rt, Seq::empty())
                    };
                    if restart {
                        (
                            lead + body + rest + closing_restart(recs@, *o, p),
                            Some((p, Shared { rt: time_after(rt2, recs@[p - 1], *o), ..s1 })),
                        )
                    } else {
                        (lead + body + rest, None)
                    }
                },
            }
        },
    }
}

/// The parts of the report from the record `pos` on, stretch by stretch.
pub open spec fn script_from(
    recs: &Vec<Rec>,
    o: &El7Options,
    plans: Seq<PassPlan>,
    cpu_nr: i64,
    pos: int,
    shared: Shared,
) -> Seq<Step>
    decreases recs@.len() - pos,
{
    let (made, next) = stretch_from(recs, o, plans, cpu_nr, pos, shared);
    match next {
        Some((p, s)) => if pos < p <= recs@.len() {
            made + script_from(recs, o, plans, cpu_nr, p, s)
        } else {
            made
        },
        None => made,
    }
}

/// The parts of the report of a file.
pub open spec fn script_of(f: El7File, o: El7Options) -> Seq<Step> {
    script_from(
        &f.recs,
        &o,
        passes_of(f.activities@, o, f.activities@.len() as int),
        match find_cpu(f.activities@, f.activities@.len() as int) {
            Some(a) => a.nr as i64,
            None => 0,
        },
        0,
        Shared { cross_day: false, last_uptime: 0, rt: RecTime { hour: 0, min: 0, sec: 0 } },
    )
}

/// The date of the banner: the one that the options give, else that of the file.
pub open spec fn date_of(h: FileHeader, o: El7Options) -> Seq<char> {
    match o.date {
        Some(d) => d@,
        None => banner_day(h, o.time),
    }
}

/// The banner. The number of CPUs is one less than the file counts, and at least 1.
pub open spec fn banner_text(h: FileHeader, o: El7Options, cpu_nr: int) -> Seq<char> {
    h.sysname@ + " "@ + h.release@ + " ("@ + h.nodename@ + ") \t"@ + date_of(h, o)
        + " \t_"@ + h.machine@ + "_\t("@ + dec(
        if cpu_nr > 1 {
            (cpu_nr - 1) as nat
        } else {
            1
        },
    ) + " CPU)\n"@
}

fn banner(h: &FileHeader, o: &El7Options, cpu_nr: i64) -> (r: String)
    ensures
        r@ == banner_text(*h, *o, cpu_nr as int),
{
    let mut out = h.sysname.clone();
    out.append(" ");
    out.append(h.release.as_str());
    out.append(" (");
    out.append(h.nodename.as_str());
    out.append(") \t");
    match &o.date {
        Some(d) => out.append(d.as_str()),
        None => out.append(banner_date(h, o.time).as_str()),
    }
    out.append(" \t_");
    out.append(h.machine.as_str());
    out.append("_\t(");
    let n: u64 = if cpu_nr > 1 {
        (cpu_nr - 1) as u64
    } else {
        1
    };
    out.append(dec_text(n).as_str());
    out.append(" CPU)\n");
    out
}

fn activity_lines(a: FileActivity, o: &El7Options) -> (r: u64)
    ensures
        r == lines_of(a, *o),
{
    match a.id {
        ActivityId::IRQ => o.print.irq_bitmap.count_bits(),
        ActivityId::CPU | ActivityId::PWR_CPU | ActivityId::PWR_FREQ =>
            o.print.cpu_bitmap.count_bits(),
        _ => if a.nr > 0 {
            a.nr as u64
        } else {
            0
        },
    }
}

fn plan_passes(f: &El7File, o: &El7Options) -> (r: Vec<PassPlan>)
    ensures
        r@ == passes_of(f.activities@, *o, f.activities@.len() as int),
{
    let mut out: Vec<PassPlan> = Vec::new();
    let mut i: usize = 0;
    while i < f.activities.len()
        invariant
            i <= f.activities.len(),
            out@ == passes_of(f.activities@, *o, i as int),
        decreases f.activities.len() - i,
    {
        let a = f.activities[i];
        let ghost start = out@;
        if a.readable && list_contains(&o.activities, a.id) {
            let inc: u64 = activity_lines(a, o);
            if a.id == ActivityId::MEMORY {
                let parts = o.mem_outputs();
                let mut k: usize = 0;
                assert(out@ =~= start + activity_passes(a, *o).take(0));
                while k < parts.len()
                    invariant
                        k <= parts.len(),
                        parts@ == memory_parts(*o),
                        a.id == ActivityId::MEMORY,
                        inc == lines_of(a, *o),
                        out@ == start + activity_passes(a, *o).take(k as int),
                    decreases parts.len() - k,
                {
                    out.push(PassPlan { id: a.id, mem: parts[k], inc });
                    k = k + 1;
                    assert(out@ =~= start + activity_passes(a, *o).take(k as int));
                }
                assert(activity_passes(a, *o).take(parts@.len() as int) =~= activity_passes(a, *o));
            } else {
                out.push(PassPlan { id: a.id, mem: MemOutput::Amt, inc });
                assert(out@ =~= start + activity_passes(a, *o));
            }
        }
        i = i + 1;
    }
    out
}

fn cpu_activity(f: &El7File) -> (r: Option<FileActivity>)
    ensures
        r == find_cpu(f.activities@, f.activities@.len() as int),
{
    let mut found: Option<FileActivity> = None;
    let mut i: usize = 0;
    while i < f.activities.len()
        invariant
            i <= f.activities.len(),
            found == find_cpu(f.activities@, i as int),
        decreases f.activities.len() - i,
    {
        let a = f.activities[i];
        if found.is_none() && a.readable && a.id == ActivityId::CPU {
            found = Some(a);
        }
        i = i + 1;
    }
    found
}

fn has_requested(f: &El7File, o: &El7Options) -> (r: bool)
    ensures
        r == any_requested(f.activities@, o.activities@),
{
    let mut i: usize = 0;
    while i < f.activities.len()
        invariant
            i <= f.activities.len(),
            forall|k: int|
                0 <= k < i ==> !listed(o.activities@, (#[trigger] f.activities@[k]).id),
        decreases f.activities.len() - i,
    {
        if list_contains(&o.activities, f.activities[i].id) {
            assert(listed(o.activities@, f.activities@[i as int].id));
            return true;
        }
        i = i + 1;
    }
    false
}

/// Appends the restarts and comments before the next sample, and finds it.
fn seek_first(recs: &Vec<Rec>, o: &El7Options, from: usize, rt: RecTime, out: &mut Vec<Step>) -> (r: (
    Option<usize>,
    RecTime,
))
    requires
        from <= recs@.len(),
    ensures
        ({
            let (first, left, steps) = seek(recs@, *o, from as int, rt);
            &&& match r.0 {
                Some(i) => first == Some(i as int) && from <= i < recs@.len(),
                None => first is None,
            }
            &&& r.1 == left
            &&& final(out)@ == old(out)@ + steps
        }),
{
    let ghost start = out@;
    let ghost goal = seek(recs@, *o, from as int, rt);
    let mut left = rt;
    let mut pos: usize = from;
    proof {
        let now = seek(recs@, *o, pos as int, left);
        assert(start + goal.2 =~= out@ + now.2);
    }
    while pos < recs.len()
        invariant
            from <= pos <= recs@.len(),
            start == old(out)@,
            goal == seek(recs@, *o, from as int, rt),
            ({
                let now = seek(recs@, *o, pos as int, left);
                &&& goal.0 == now.0
                &&& goal.1 == now.1
                &&& start + goal.2 == out@ + now.2
            }),
        decreases recs@.len() - pos,
    {
        let ghost here = seek(recs@, *o, pos as int, left);
        let ghost before_out = out@;
        let rec = &recs[pos];
        left = later_time(left, rec, o);
        let ghost next = seek(recs@, *o, pos + 1, left);
        match rec.kind {
            Kind::Stats => {
                let late = match o.tm_end {
                    Some(e) => order_times(left, e) >= 0,
                    None => false,
                };
                if !before(left, o.tm_start) && !late {
                    assert(here.2 =~= Seq::<Step>::empty());
                    assert(out@ =~= start + goal.2);
                    return (Some(pos), left);
                }
                assert(here == next);
            },
            _ => {
                if shows_special(rec, o) {
                    out.push(Step::Special { rec: pos });
                    assert(before_out + here.2 =~= out@ + next.2);
                } else {
                    assert(here.2 == next.2);
                }
            },
        }
        pos = pos + 1;
    }
    assert(out@ =~= start + goal.2);
    (None, left)
}

/// Appends the comments before the next restart, and finds its end.
fn skip_to_restart(
    recs: &Vec<Rec>,
    o: &El7Options,
    from: usize,
    rt: RecTime,
    out: &mut Vec<Step>,
) -> (r: (usize, bool, RecTime))
    requires
        from <= recs@.len(),
    ensures
        ({
            let (p, found, left, steps) = skip_rest(recs@, *o, from as int, rt);
            &&& r.0 == p
            &&& r.1 == found
            &&& r.2 == left
            &&& from <= r.0 <= recs@.len()
            &&& final(out)@ == old(out)@ + steps
        }),
{
    let ghost start = out@;
    let ghost goal = skip_rest(recs@, *o, from as int, rt);
    let mut left = rt;
    let mut pos: usize = from;
    while pos < recs.len()
        invariant
            from <= pos <= recs@.len(),
            start == old(out)@,
            goal == skip_rest(recs@, *o, from as int, rt),
            ({
                let now = skip_rest(recs@, *o, pos as int, left);
                &&& goal.0 == now.0
                &&& goal.1 == now.1
                &&& goal.2 == now.2
                &&& start + goal.3 == out@ + now.3
            }),
        decreases recs@.len() - pos,
    {
        let ghost here = skip_rest(recs@, *o, pos as int, left);
        let ghost before_out = out@;
        let rec = &recs[pos];
        match rec.kind {
            Kind::Restart => {
                assert(out@ =~= start + goal.3);
                return (pos + 1, true, left);
            },
            Kind::Comment => {
                left = later_time(left, rec, o);
                let ghost next = skip_rest(recs@, *o, pos + 1, left);
                if shows_special(rec, o) {
                    out.push(Step::Special { rec: pos });
                    assert(before_out + here.3 =~= out@ + next.3);
                } else {
                    assert(here.3 == next.3);
                }
            },
            Kind::Stats => {},
        }
        pos = pos + 1;
    }
    assert(out@ =~= start + goal.3);
    (pos, false, left)
}

/// Runs the passes of a stretch and appends their parts of the report.
fn handle_stretch(
    recs: &Vec<Rec>,
    o: &El7Options,
    plans: &Vec<PassPlan>,
    first: usize,
    cpu_nr: i64,
    shared: Shared,
    out: &mut Vec<Step>,
) -> (r: (Option<PassEnd>, Shared))
    requires
        first < recs@.len(),
    ensures
        ({
            let (end, s, steps) = run_passes(
                recs,
                o,
                plans@,
                plans@.len() as int,
                first,
                cpu_nr,
                shared,
            );
            &&& r.0 == end
            &&& r.1 == s
            &&& final(out)@ == old(out)@ + steps
        }),
        r.0 matches Some(e) ==> first < e.pos <= recs@.len(),
{
    let ghost start = out@;
    let mut last: Option<PassEnd> = None;
    let mut carried = shared;
    let mut k: usize = 0;
    assert(out@ =~= start + run_passes(recs, o, plans@, 0, first, cpu_nr, shared).2);
    while k < plans.len()
        invariant
            k <= plans.len(),
            first < recs@.len(),
            ({
                let (end, s, steps) = run_passes(
                    recs,
                    o,
                    plans@,
                    k as int,
                    first,
                    cpu_nr,
                    shared,
                );
                &&& last == end
                &&& carried == s
                &&& out@ == start + steps
            }),
            last matches Some(e) ==> first < e.pos <= recs@.len(),
        decreases plans.len() - k,
    {
        let plan = plans[k];
        let c = PassSetup {
            recs,
            opts: o,
            id: plan.id,
            mem: plan.mem,
            first,
            inc: plan.inc,
            cpu_nr,
        };
        let (end, s, steps) = handle_pass(&c, carried);
        let ghost made = steps@;
        let ghost had = out@;
        let mut more = steps;
        out.append(&mut more);
        last = Some(end);
        carried = s;
        k = k + 1;
        assert(out@ =~= start + run_passes(recs, o, plans@, k as int, first, cpu_nr, shared).2);
    }
    (last, carried)
}

/// Appends the parts of the report of the stretch from the record `pos` on.
fn plan_stretch(
    recs: &Vec<Rec>,
    o: &El7Options,
    plans: &Vec<PassPlan>,
    cpu_nr: i64,
    pos: usize,
    shared: Shared,
    out: &mut Vec<Step>,
) -> (r: Option<(usize, Shared)>)
    requires
        pos <= recs@.len(),
    ensures
        ({
            let (made, next) = stretch_from(recs, o, plans@, cpu_nr, pos as int, shared);
            &&& final(out)@ == old(out)@ + made
            &&& match r {
                Some((p, s)) => next == Some((p as int, s)) && pos < p <= recs@.len(),
                None => next is None,
            }
        }),
{
    let ghost start = out@;
    let (found, rt) = seek_first(recs, o, pos, shared.rt, out);
    let ghost lead = seek(recs@, *o, pos as int, shared.rt).2;
    let first: usize = match found {
        None => {
            return None;
        },
        Some(i) => i,
    };
    let mut carried = shared;
    carried.rt = rt;
    let ghost entry = carried;
    let (last, s1) = handle_stretch(recs, o, plans, first, cpu_nr, carried, out);
    let ghost body = run_passes(recs, o, plans@, plans@.len() as int, first, cpu_nr, entry).2;
    assert(out@ =~= start + (lead + body));
    let end = match last {
        None => {
            return None;
        },
        Some(e) => e,
    };
    let (p, restart, rt2) = if end.cnt == 0 {
        skip_to_restart(recs, o, end.pos, s1.rt, out)
    } else {
        (end.pos, !end.eosaf && end.restart, s1.rt)
    };
    let ghost rest = if end.cnt == 0 {
        skip_rest(recs@, *o, end.pos as int, s1.rt).3
    } else {
        Seq::empty()
    };
    assert(out@ =~= start + (lead + body + rest));
    if !restart {
        return None;
    }
    let rec = &recs[p - 1];
    if shows_special(rec, o) {
        out.push(Step::Special { rec: p - 1 });
    }
    assert(out@ =~= start + (lead + body + rest + closing_restart(recs@, *o, p as int)));
    let mut next = s1;
    next.rt = later_time(rt2, rec, o);
    Some((p, next))
}

/// The parts of the report of a file, or why there is none.
pub fn plan_report(f: &El7File, o: &El7Options) -> (r: Result<Vec<Step>, El7Error>)
    ensures
        match refusal(*f, *o) {
            Some(e) => r == Err::<Vec<Step>, El7Error>(e),
            None => r matches Ok(v) && v@ == script_of(*f, *o),
        },
{
    if f.format_magic != FORMAT_MAGIC {
        return Err(El7Error::Format(f.format_magic));
    }
    let cpu_nr: i64 = match cpu_activity(f) {
        Some(a) => a.nr as i64,
        None => {
            return Err(El7Error::NoCpu);
        },
    };
    if !has_requested(f, o) {
        return Err(El7Error::NotInFile);
    }
    let plans = plan_passes(f, o);
    let recs = &f.recs;
    let mut out: Vec<Step> = Vec::new();
    let mut shared = Shared {
        cross_day: false,
        last_uptime: 0,
        rt: RecTime { hour: 0, min: 0, sec: 0 },
    };
    let mut pos: usize = 0;
    let ghost goal = script_of(*f, *o);
    assert(goal =~= out@ + script_from(recs, o, plans@, cpu_nr, 0, shared));
    let mut more = true;
    while more
        invariant
            pos <= recs@.len(),
            more ==> goal == out@ + script_from(recs, o, plans@, cpu_nr, pos as int, shared),
            !more ==> goal == out@,
        decreases
            recs@.len() - pos,
            if more {
                1int
            } else {
                0int
            },
    {
        let ghost had = out@;
        let ghost made = stretch_from(recs, o, plans@, cpu_nr, pos as int, shared).0;
        match plan_stretch(recs, o, &plans, cpu_nr, pos, shared, &mut out) {
            Some((p, s)) => {
                assert(had + (made + script_from(recs, o, plans@, cpu_nr, p as int, s)) =~= out@
                    + script_from(recs, o, plans@, cpu_nr, p as int, s));
                pos = p;
                shared = s;
            },
            None => {
                more = false;
            },
        }
    }
    Ok(out)
}

/// Whether lines are made for a part of the report.
pub open spec fn needs_rows(s: Step) -> bool {
    !(s is Special)
}

/// How many of the first `n` parts have lines made for them.
pub open spec fn rows_before(steps: Seq<Step>, n: int) -> int
    decreases n,
{
    if n <= 0 {
        0
    } else {
        rows_before(steps, n - 1) + if needs_rows(steps[n - 1]) {
            1int
        } else {
            0int
        }
    }
}

/// The lines that were made for the part `k` of those that have lines.
pub open spec fn made_rows(rows: Seq<Vec<Row>>, k: int) -> Seq<Row> {
    if 0 <= k < rows.len() {
        rows[k]@
    } else {
        Seq::empty()
    }
}

/// The timestamp of a record in a line.
pub open spec fn stamp(recs: Seq<Rec>, rec: usize, o: El7Options) -> Seq<char> {
    match time_of(recs[rec as int].time, o.time) {
        Some(rt) => clock_text(rt),
        None => Seq::empty(),
    }
}

/// The titles of the averages: of the headings and of the lines.
pub open spec fn average_titles(id: ActivityId) -> (Seq<char>, Seq<char>) {
    if id == ActivityId::PWR_USB {
        ("Summary"@, "Summary"@)
    } else if id == ActivityId::FS {
        ("Summary:"@, "Summary"@)
    } else {
        ("Average:"@, "Average:"@)
    }
}

/// A part of the report.
pub open spec fn step_glyphs(recs: Seq<Rec>, o: El7Options, s: Step, rows: Seq<Row>) -> Seq<Glyph> {
    match s {
        Step::Special { rec } => special_glyphs(recs[rec as int], o),
        Step::Sample { id, mem, rec, prev, header, span } => chars(
            if header {
                header_line(stamp(recs, prev, o), id, mem, o.print.cpu_all, o.print.fs_mount)
            } else {
                Seq::empty()
            },
        ) + rows_glyphs(stamp(recs, rec, o), rows),
        Step::Average { id, mem, first, last, count, header, span } => chars(
            if header {
                header_line(average_titles(id).0, id, mem, o.print.cpu_all, o.print.fs_mount)
            } else {
                Seq::empty()
            },
        ) + rows_glyphs(average_titles(id).1, rows),
    }
}

/// The first `n` parts of the report.
pub open spec fn steps_glyphs(
    recs: Seq<Rec>,
    o: El7Options,
    steps: Seq<Step>,
    rows: Seq<Vec<Row>>,
    n: int,
) -> Seq<Glyph>
    decreases n,
{
    if n <= 0 {
        Seq::empty()
    } else {
        steps_glyphs(recs, o, steps, rows, n - 1) + step_glyphs(
            recs,
            o,
            steps[n - 1],
            made_rows(rows, rows_before(steps, n - 1)),
        )
    }
}

fn stamp_of(recs: &Vec<Rec>, rec: usize, o: &El7Options) -> (r: String)
    requires
        rec < recs@.len(),
    ensures
        r@ == stamp(recs@, rec, *o),
{
    match rectime(&recs[rec].time, o.time) {
        Some(rt) => time_string(rt),
        None => String::new(),
    }
}

fn headed_rows(header: Option<String>, title: &str, rows: &Vec<Row>) -> (r: Doc)
    ensures
        r@ == chars(
            match header {
                Some(h) => h@,
                None => Seq::empty(),
            },
        ) + rows_glyphs(title@, rows@),
{
    let mut out = match header {
        Some(h) => Doc::of(h.as_str()),
        None => {
            let d = Doc::new();
            assert(d@ =~= chars(Seq::<char>::empty()));
            d
        },
    };
    out.join(push_rows(title, rows));
    out
}

/// Whether the records that a part speaks of are there.
pub open spec fn step_ok(recs: Seq<Rec>, s: Step) -> bool {
    match s {
        Step::Special { rec } => rec < recs.len(),
        Step::Sample { rec, prev, .. } => rec < recs.len() && prev < recs.len(),
        Step::Average { first, last, .. } => true,
    }
}

fn render_step(recs: &Vec<Rec>, o: &El7Options, s: Step, rows: &Vec<Row>) -> (r: Doc)
    requires
        step_ok(recs@, s),
    ensures
        r@ == step_glyphs(recs@, *o, s, rows@),
{
    match s {
        Step::Special { rec } => print_special(&recs[rec], o),
        Step::Sample { id, mem, rec, prev, header, span: _ } => {
            let ts = stamp_of(recs, rec, o);
            let lead = if header {
                let before = stamp_of(recs, prev, o);
                Some(push_header(before.as_str(), id, mem, o.print.cpu_all, o.print.fs_mount))
            } else {
                None
            };
            headed_rows(lead, ts.as_str(), rows)
        },
        Step::Average { id, mem, first: _, last: _, count: _, header, span: _ } => {
            let (head_title, row_title) = match id {
                ActivityId::PWR_USB => ("Summary", "Summary"),
                ActivityId::FS => ("Summary:", "Summary"),
                _ => ("Average:", "Average:"),
            };
            let lead = if header {
                Some(push_header(head_title, id, mem, o.print.cpu_all, o.print.fs_mount))
            } else {
                None
            };
            headed_rows(lead, row_title, rows)
        },
    }
}

/// The text of the parts of a report. `rows` holds the lines of those parts that have some, in
/// their order.
pub fn render_steps(recs: &Vec<Rec>, o: &El7Options, steps: &Vec<Step>, rows: &Vec<Vec<Row>>) -> (r:
    Doc)
    requires
        forall|i: int| 0 <= i < steps@.len() ==> step_ok(recs@, #[trigger] steps@[i]),
    ensures
        r@ == steps_glyphs(recs@, *o, steps@, rows@, steps@.len() as int),
{
    let none: Vec<Row> = Vec::new();
    let mut out = Doc::new();
    let mut k: usize = 0;
    let mut i: usize = 0;
    while i < steps.len()
        invariant
            i <= steps.len(),
            k <= i,
            k == rows_before(steps@, i as int),
            none@ == Seq::<Row>::empty(),
            forall|i: int| 0 <= i < steps@.len() ==> step_ok(recs@, #[trigger] steps@[i]),
            out@ == steps_glyphs(recs@, *o, steps@, rows@, i as int),
        decreases steps.len() - i,
    {
        let s = steps[i];
        let lines = if k < rows.len() {
            &rows[k]
        } else {
            &none
        };
        out.join(render_step(recs, o, s, lines));
        match s {
            Step::Special { .. } => {},
            _ => {
                k = k + 1;
            },
        }
        i = i + 1;
    }
    out
}

/// A report with its banner. `rows` holds the lines of the parts of the report that have some;
/// [`plan_report`] says which they are.
pub fn write_report(f: &El7File, o: &El7Options, rows: &Vec<Vec<Row>>) -> (r: Result<Doc, El7Error>)
    ensures
        match refusal(*f, *o) {
            Some(e) => r == Err::<Doc, El7Error>(e),
            None => r matches Ok(d) && d@ == chars(
                banner_text(
                    f.header,
                    *o,
                    find_cpu(f.activities@, f.activities@.len() as int)->0.nr as int,
                ),
            ) + steps_glyphs(
                f.recs@,
                *o,
                script_of(*f, *o),
                rows@,
                script_of(*f, *o).len() as int,
            ),
        },
{
    let steps = match plan_report(f, o) {
        Ok(s) => s,
        Err(e) => {
            return Err(e);
        },
    };
    let cpu_nr: i64 = match cpu_activity(f) {
        Some(a) => a.nr as i64,
        None => 0,
    };
    let _len: usize = f.recs.len();
    proof {
        lemma_script_ok(
            &f.recs,
            o,
            passes_of(f.activities@, *o, f.activities@.len() as int),
            match find_cpu(f.activities@, f.activities@.len() as int) {
                Some(a) => a.nr as i64,
                None => 0,
            },
            0,
            Shared { cross_day: false, last_uptime: 0, rt: RecTime { hour: 0, min: 0, sec: 0 } },
        );
    }
    let mut out = Doc::of(banner(&f.header, o, cpu_nr).as_str());
    out.join(render_steps(&f.recs, o, &steps, rows));
    Ok(out)
}

/// Whether each part of a list speaks of records that there are.
pub open spec fn steps_ok(recs: Seq<Rec>, steps: Seq<Step>) -> bool {
    forall|i: int| 0 <= i < steps.len() ==> step_ok(recs, #[trigger] steps[i])
}

proof fn lemma_steps_concat(recs: Seq<Rec>, a: Seq<Step>, b: Seq<Step>)
    requires
        steps_ok(recs, a),
        steps_ok(recs, b),
    ensures
        steps_ok(recs, a + b),
{
}

proof fn lemma_seek_ok(recs: Seq<Rec>, o: El7Options, pos: int, rt: RecTime)
    requires
        0 <= pos,
        recs.len() <= usize::MAX,
    ensures
        steps_ok(recs, seek(recs, o, pos, rt).2),
        seek(recs, o, pos, rt).0 matches Some(i) ==> pos <= i < recs.len(),
    decreases recs.len() - pos,
{
    if pos < recs.len() {
        lemma_seek_ok(recs, o, pos + 1, time_after(rt, recs[pos], o));
    }
}

proof fn lemma_skip_ok(recs: Seq<Rec>, o: El7Options, pos: int, rt: RecTime)
    requires
        0 <= pos,
        recs.len() <= usize::MAX,
    ensures
        steps_ok(recs, skip_rest(recs, o, pos, rt).3),
        pos <= recs.len() ==> pos <= skip_rest(recs, o, pos, rt).0 <= recs.len(),
        skip_rest(recs, o, pos, rt).1 ==> pos < skip_rest(recs, o, pos, rt).0,
    decreases recs.len() - pos,
{
    if pos < recs.len() {
        lemma_skip_ok(recs, o, pos + 1, time_after(rt, recs[pos], o));
        lemma_skip_ok(recs, o, pos + 1, rt);
    }
}

proof fn lemma_pass_ok(c: PassSetup<'_>, shared: Shared, n: int)
    requires
        c.first < c.recs@.len(),
        n <= c.recs@.len() <= usize::MAX,
    ensures
        steps_ok(c.recs@, pass_upto(c, shared, n).1),
        pass_upto(c, shared, n).0.prev_at < c.recs@.len(),
        pass_upto(c, shared, n).0.end matches Some(e) ==> c.first < e.pos <= c.recs@.len(),
    decreases n,
{
    if n > c.first + 1 {
        lemma_pass_ok(c, shared, n - 1);
    }
}

proof fn lemma_runs_ok(
    recs: &Vec<Rec>,
    o: &El7Options,
    plans: Seq<PassPlan>,
    n: int,
    first: usize,
    cpu_nr: i64,
    shared: Shared,
)
    requires
        first < recs@.len() <= usize::MAX,
        n <= plans.len(),
    ensures
        steps_ok(recs@, run_passes(recs, o, plans, n, first, cpu_nr, shared).2),
        run_passes(recs, o, plans, n, first, cpu_nr, shared).0 matches Some(e) ==> first < e.pos
            <= recs@.len(),
    decreases n,
{
    if n > 0 {
        lemma_runs_ok(recs, o, plans, n - 1, first, cpu_nr, shared);
        let s = run_passes(recs, o, plans, n - 1, first, cpu_nr, shared).1;
        let c = PassSetup {
            recs,
            opts: o,
            id: plans[n - 1].id,
            mem: plans[n - 1].mem,
            first,
            inc: plans[n - 1].inc,
            cpu_nr,
        };
        lemma_pass_ok(c, s, recs@.len() as int);
    }
}

/// Each part of a report speaks of records that the file has.
pub proof fn lemma_script_ok(
    recs: &Vec<Rec>,
    o: &El7Options,
    plans: Seq<PassPlan>,
    cpu_nr: i64,
    pos: int,
    shared: Shared,
)
    requires
        0 <= pos,
        recs@.len() <= usize::MAX,
    ensures
        steps_ok(recs@, script_from(recs, o, plans, cpu_nr, pos, shared)),
    decreases recs@.len() - pos,
{
    lemma_seek_ok(recs@, *o, pos, shared.rt);
    let (found, rt, lead) = seek(recs@, *o, pos, shared.rt);
    if let Some(first) = found {
        let entry = Shared { rt, ..shared };
        lemma_runs_ok(recs, o, plans, plans.len() as int, first as usize, cpu_nr, entry);
        let (last, s1, body) = run_passes(
            recs,
            o,
            plans,
            plans.len() as int,
            first as usize,
            cpu_nr,
            entry,
        );
        lemma_steps_concat(recs@, lead, body);
        if let Some(end) = last {
            lemma_skip_ok(recs@, *o, end.pos as int, s1.rt);
        }
    }
    let (made, next) = stretch_from(recs, o, plans, cpu_nr, pos, shared);
    assert(steps_ok(recs@, made));
    if let Some((p, s)) = next {
        if pos < p <= recs@.len() {
            lemma_script_ok(recs, o, plans, cpu_nr, p, s);
        }
    }
}

}
