//! A report as a whole: its stretches between restarts, and what stands between the blocks.

use vstd::prelude::*;

use crate::doc::{chars, Doc, Glyph};
use crate::model::{list_contains, listed, ActivityId, DecodePlan};
use crate::sadf::select::{effective_interval, next_slice, slice_taken};
use crate::sar_text::block::RecordEvent;
use crate::sar_text::header::{
    banner_text, comment_line, comment_text, cpu_count, cpu_nr_of, restart_cpu_count, restart_line,
    restart_text, stamp_text, time_string, write_banner, FileHeader,
};
use crate::sar_text::options::{filter_of, names_for, SampleSelect, SarTextOptions};
use crate::text::{same_text, texts};

verus! {

/// The selection of samples within a stretch, as far as it decides where the stretch is cut
/// off.
#[derive(Clone, Copy, PartialEq, Eq, Structural, Debug)]
pub struct SliceState {
    pub select: SampleSelect,
    pub uptime_ref: u64,
    pub last_uptime: u64,
    pub reset: bool,
    pub remaining: Option<u64>,
    /// The record after the last one that is shown, once as many are shown as were asked for.
    pub cut: Option<usize>,
}

/// The selection before any sample.
pub open spec fn fresh_slice(select: SampleSelect) -> SliceState {
    SliceState {
        select,
        uptime_ref: 0,
        last_uptime: 0,
        reset: true,
        remaining: select.count,
        cut: None,
    }
}

/// The selection after the reference sample.
pub open spec fn started_slice(s: SliceState, uptime_cs: u64) -> SliceState {
    SliceState {
        select: s.select,
        uptime_ref: uptime_cs,
        last_uptime: 0,
        reset: true,
        remaining: s.select.count,
        cut: None,
    }
}

/// The selection after a later sample.
pub open spec fn fed_slice(s: SliceState, at: usize, uptime_cs: u64) -> SliceState {
    if s.select.count is None || s.cut is Some {
        s
    } else {
        let seen = SliceState { last_uptime: uptime_cs, reset: false, ..s };
        if !slice_taken(
            s.uptime_ref,
            uptime_cs,
            s.reset,
            effective_interval(s.select.interval),
            s.last_uptime,
        ) {
            seen
        } else {
            match s.remaining {
                None => seen,
                Some(n) => SliceState {
                    remaining: Some(
                        if n > 0 {
                            (n - 1) as u64
                        } else {
                            0
                        },
                    ),
                    cut: if n <= 1 {
                        Some((at + 1) as usize)
                    } else {
                        None
                    },
                    ..seen
                },
            }
        }
    }
}

impl SliceState {
    /// The selection before any sample.
    pub fn new(select: SampleSelect) -> (r: Self)
        ensures
            r == fresh_slice(select),
    {
        SliceState {
            select,
            uptime_ref: 0,
            last_uptime: 0,
            reset: true,
            remaining: select.count,
            cut: None,
        }
    }

    /// Takes the reference sample.
    pub fn start(&mut self, uptime_cs: u64)
        ensures
            *final(self) == started_slice(*old(self), uptime_cs),
    {
        self.uptime_ref = uptime_cs;
        self.last_uptime = 0;
        self.reset = true;
        self.remaining = self.select.count;
        self.cut = None;
    }

    /// Takes a later sample, the record `at`.
    pub fn feed(&mut self, at: usize, uptime_cs: u64)
        requires
            at < usize::MAX,
        ensures
            *final(self) == fed_slice(*old(self), at, uptime_cs),
    {
        if self.select.count.is_none() || self.cut.is_some() {
            return;
        }
        let mut last: u64 = self.last_uptime;
        let taken = next_slice(
            self.uptime_ref,
            uptime_cs,
            self.reset,
            self.select.interval(),
            &mut last,
        );
        self.last_uptime = last;
        self.reset = false;
        if !taken {
            return;
        }
        if let Some(left) = self.remaining {
            let left: u64 = if left > 0 {
                left - 1
            } else {
                0
            };
            self.remaining = Some(left);
            if left == 0 {
                self.cut = Some(at + 1);
            }
        }
    }
}

/// Where a statistics record lies with respect to the time range that was asked for. It is
/// decided of each record against the record before it, whichever of them are shown, and anew
/// after a restart that ends a stretch.
#[derive(Clone, Copy, PartialEq, Eq, Structural, Debug)]
pub enum RangeVerdict {
    /// Before the range.
    Skip,
    /// The first record of the range.
    Reference,
    /// In the range.
    Emit,
    /// After the range.
    Stop,
}

/// A record of the file, with its place in the time range.
#[derive(Debug)]
pub enum PlanRecord {
    Sample { uptime_cs: u64, verdict: RangeVerdict },
    Event { event: RecordEvent, in_range: bool },
}

/// A stretch of records that a restart ends.
#[derive(Debug)]
pub struct Region {
    /// Its first record.
    pub start: usize,
    /// The record after its last one.
    pub end: usize,
    /// The lines before the blocks.
    pub leading: Vec<String>,
    /// The comments after the last sample that is shown.
    pub trailing: Vec<String>,
    /// The line of the restart that ends the stretch.
    pub terminator: Option<String>,
    /// The number of CPUs, plus one.
    pub cpu_nr: Option<u32>,
}

/// What a [`Region`] holds.
#[verifier::ext_equal]
pub struct RegionModel {
    pub start: int,
    pub end: int,
    pub leading: Seq<Seq<char>>,
    pub trailing: Seq<Seq<char>>,
    pub terminator: Option<Seq<char>>,
    pub cpu_nr: Option<u32>,
}

/// The text, where there is one.
pub open spec fn text_of(s: Option<String>) -> Option<Seq<char>> {
    match s {
        Some(t) => Some(t@),
        None => None,
    }
}

impl Region {
    pub open spec fn model(self) -> RegionModel {
        RegionModel {
            start: self.start as int,
            end: self.end as int,
            leading: texts(self.leading@),
            trailing: texts(self.trailing@),
            terminator: text_of(self.terminator),
            cpu_nr: self.cpu_nr,
        }
    }

    /// A stretch of which nothing has been read.
    fn empty(start: usize, cpu_nr: Option<u32>) -> (r: Region)
        ensures
            r.model() == fresh_region(start as int, cpu_nr),
    {
        let r = Region {
            start,
            end: 0,
            leading: Vec::new(),
            trailing: Vec::new(),
            terminator: None,
            cpu_nr,
        };
        assert(r.model() =~= fresh_region(start as int, cpu_nr));
        r
    }
}

/// What a list of [`Region`] holds.
pub open spec fn region_models(v: Seq<Region>) -> Seq<RegionModel> {
    Seq::new(v.len(), |i: int| v[i].model())
}

/// A stretch of which nothing has been read.
pub open spec fn fresh_region(start: int, cpu_nr: Option<u32>) -> RegionModel {
    RegionModel {
        start,
        end: 0,
        leading: Seq::empty(),
        trailing: Seq::empty(),
        terminator: None,
        cpu_nr,
    }
}

/// How far the records have been divided.
#[verifier::ext_equal]
pub struct PlanModel {
    /// The stretches that have ended.
    pub regions: Seq<RegionModel>,
    /// The current stretch.
    pub current: RegionModel,
    /// Whether the current stretch has a sample.
    pub adopted: bool,
    pub slices: SliceState,
    /// The number of CPUs, plus one.
    pub cpu_nr: Option<u32>,
    /// Whether a record after the time range was met.
    pub stopped: bool,
}

/// Before the first record.
pub open spec fn fresh_plan(select: SampleSelect, cpu_nr: Option<u32>) -> PlanModel {
    PlanModel {
        regions: Seq::empty(),
        current: fresh_region(0, cpu_nr),
        adopted: false,
        slices: fresh_slice(select),
        cpu_nr,
        stopped: false,
    }
}

/// Where a stretch is cut off: where enough samples are shown, or at the record `at`.
pub open spec fn cut_at(s: SliceState, at: int) -> int {
    match s.cut {
        Some(c) => c as int,
        None => at,
    }
}

/// After a restart, the record `at`. It ends the stretch where that has a sample; else its
/// line comes first in the stretch.
pub open spec fn after_restart(
    p: PlanModel,
    at: int,
    line: Option<Seq<char>>,
    cpu_count: Option<u32>,
) -> PlanModel {
    let cpu_nr = cpu_nr_of(cpu_count, p.cpu_nr);
    if p.adopted {
        PlanModel {
            regions: p.regions.push(
                RegionModel { end: cut_at(p.slices, at), terminator: line, ..p.current },
            ),
            current: fresh_region(at + 1, cpu_nr),
            adopted: false,
            slices: fresh_slice(p.slices.select),
            cpu_nr,
            stopped: false,
        }
    } else {
        PlanModel {
            current: RegionModel {
                leading: match line {
                    Some(l) => p.current.leading.push(l),
                    None => p.current.leading,
                },
                cpu_nr,
                ..p.current
            },
            cpu_nr,
            ..p
        }
    }
}

/// After a comment that is shown. Before the first sample it comes first in the stretch; after
/// the last one that is shown it comes last. In between, it stands in each block.
pub open spec fn after_comment(p: PlanModel, line: Seq<char>) -> PlanModel {
    if !p.adopted {
        PlanModel {
            current: RegionModel { leading: p.current.leading.push(line), ..p.current },
            ..p
        }
    } else if p.slices.cut is Some {
        PlanModel {
            current: RegionModel { trailing: p.current.trailing.push(line), ..p.current },
            ..p
        }
    } else {
        p
    }
}

/// After a statistics record, the record `at`.
pub open spec fn after_sample(
    p: PlanModel,
    at: int,
    uptime_cs: u64,
    verdict: RangeVerdict,
) -> PlanModel {
    match verdict {
        RangeVerdict::Skip => p,
        RangeVerdict::Stop => PlanModel {
            current: RegionModel { end: cut_at(p.slices, at), ..p.current },
            stopped: true,
            ..p
        },
        _ => PlanModel {
            adopted: true,
            slices: if p.adopted {
                fed_slice(p.slices, at as usize, uptime_cs)
            } else {
                started_slice(p.slices, uptime_cs)
            },
            ..p
        },
    }
}

/// After one more record. Nothing counts after a record beyond the time range.
pub open spec fn after_record(
    p: PlanModel,
    at: int,
    rec: PlanRecord,
    opts: SarTextOptions,
) -> PlanModel {
    if p.stopped {
        p
    } else {
        match rec {
            PlanRecord::Sample { uptime_cs, verdict } => after_sample(p, at, uptime_cs, verdict),
            PlanRecord::Event { event, in_range } => match event {
                RecordEvent::Restart { time, cpu_count: n } => after_restart(
                    p,
                    at,
                    if in_range {
                        Some(
                            restart_text(
                                stamp_text(time, opts.time),
                                cpu_count(cpu_nr_of(n, p.cpu_nr)),
                            ),
                        )
                    } else {
                        None
                    },
                    n,
                ),
                RecordEvent::Comment { time, text } => if in_range && opts.comment {
                    after_comment(p, comment_text(stamp_text(time, opts.time), text@))
                } else {
                    p
                },
            },
        }
    }
}

/// After the first `n` records.
pub open spec fn after_records(
    records: Seq<PlanRecord>,
    n: int,
    opts: SarTextOptions,
    select: SampleSelect,
    cpu_nr: Option<u32>,
) -> PlanModel
    decreases n,
{
    if n <= 0 {
        fresh_plan(select, cpu_nr)
    } else {
        after_record(
            after_records(records, n - 1, opts, select, cpu_nr),
            n - 1,
            records[n - 1],
            opts,
        )
    }
}

/// The stretches of a file. The last one ends with the file, unless it was cut off before.
pub open spec fn planned_regions(
    records: Seq<PlanRecord>,
    opts: SarTextOptions,
    select: SampleSelect,
    cpu_nr: Option<u32>,
) -> Seq<RegionModel> {
    let p = after_records(records, records.len() as int, opts, select, cpu_nr);
    p.regions.push(
        if p.stopped {
            p.current
        } else {
            RegionModel { end: cut_at(p.slices, records.len() as int), ..p.current }
        },
    )
}

/// The division of the records while they are read.
pub struct Planner<'a> {
    pub opts: &'a SarTextOptions,
    pub regions: Vec<Region>,
    pub current: Region,
    pub adopted: bool,
    pub slices: SliceState,
    pub cpu_nr: Option<u32>,
    pub stopped: bool,
}

impl<'a> Planner<'a> {
    pub open spec fn model(self) -> PlanModel {
        PlanModel {
            regions: region_models(self.regions@),
            current: self.current.model(),
            adopted: self.adopted,
            slices: self.slices,
            cpu_nr: self.cpu_nr,
            stopped: self.stopped,
        }
    }

    /// Before the first record.
    pub fn new(opts: &'a SarTextOptions, select: SampleSelect, cpu_nr: Option<u32>) -> (r: Self)
        ensures
            r.model() == fresh_plan(select, cpu_nr),
            r.opts == opts,
    {
        let r = Planner {
            opts,
            regions: Vec::new(),
            current: Region::empty(0, cpu_nr),
            adopted: false,
            slices: SliceState::new(select),
            cpu_nr,
            stopped: false,
        };
        assert(r.model() =~= fresh_plan(select, cpu_nr));
        r
    }

    fn restart(&mut self, at: usize, line: Option<String>, cpu_count: Option<u32>)
        requires
            at < usize::MAX,
        ensures
            final(self).model() == after_restart(
                old(self).model(),
                at as int,
                text_of(line),
                cpu_count,
            ),
            final(self).opts == old(self).opts,
    {
        let ghost before = self.model();
        let ghost said = text_of(line);
        if cpu_count.is_some() {
            self.cpu_nr = cpu_count;
        }
        if self.adopted {
            let mut done = Region::empty(at + 1, self.cpu_nr);
            std::mem::swap(&mut done, &mut self.current);
            done.end = match self.slices.cut {
                Some(c) => c,
                None => at,
            };
            done.terminator = line;
            let ghost ended = done.model();
            assert(ended =~= (RegionModel {
                end: cut_at(before.slices, at as int),
                terminator: said,
                ..before.current
            }));
            self.regions.push(done);
            self.adopted = false;
            self.slices = SliceState::new(self.slices.select);
            self.stopped = false;
            assert(region_models(self.regions@) =~= before.regions.push(ended));
        } else {
            if let Some(l) = line {
                self.current.leading.push(l);
                assert(texts(self.current.leading@) =~= before.current.leading.push(l@));
            }
            self.current.cpu_nr = self.cpu_nr;
        }
        assert(self.model() =~= after_restart(before, at as int, said, cpu_count));
    }

    fn comment(&mut self, line: String)
        ensures
            final(self).model() == after_comment(old(self).model(), line@),
            final(self).opts == old(self).opts,
    {
        let ghost before = self.model();
        let ghost said = line@;
        if !self.adopted {
            self.current.leading.push(line);
            assert(texts(self.current.leading@) =~= before.current.leading.push(said));
        } else if self.slices.cut.is_some() {
            self.current.trailing.push(line);
            assert(texts(self.current.trailing@) =~= before.current.trailing.push(said));
        }
        assert(self.model() =~= after_comment(before, said));
    }

    /// Takes the record `at`.
    pub fn step(&mut self, at: usize, rec: &PlanRecord)
        requires
            at < usize::MAX,
        ensures
            final(self).model() == after_record(
                old(self).model(),
                at as int,
                *rec,
                *old(self).opts,
            ),
            final(self).opts == old(self).opts,
    {
        if self.stopped {
            return;
        }
        let ghost before = self.model();
        match rec {
            PlanRecord::Sample { uptime_cs, verdict } => {
                match verdict {
                    RangeVerdict::Skip => {},
                    RangeVerdict::Stop => {
                        self.current.end = match self.slices.cut {
                            Some(c) => c,
                            None => at,
                        };
                        self.stopped = true;
                    },
                    _ => {
                        if self.adopted {
                            self.slices.feed(at, *uptime_cs);
                        } else {
                            self.adopted = true;
                            self.slices.start(*uptime_cs);
                        }
                    },
                }
                assert(self.model() =~= after_sample(before, at as int, *uptime_cs, *verdict));
            },
            PlanRecord::Event { event, in_range } => match event {
                RecordEvent::Restart { time, cpu_count } => {
                    let line = if *in_range {
                        let ts = time_string(time, self.opts.time);
                        let n: u32 = restart_cpu_count(*cpu_count, self.cpu_nr);
                        Some(restart_line(ts.as_str(), n))
                    } else {
                        None
                    };
                    self.restart(at, line, *cpu_count);
                },
                RecordEvent::Comment { time, text } => {
                    if *in_range && self.opts.comment {
                        let ts = time_string(time, self.opts.time);
                        self.comment(comment_line(ts.as_str(), text.as_str()));
                    }
                },
            },
        }
    }

    /// Ends with the file, which has `n` records.
    pub fn finish(self, n: usize) -> (r: Vec<Region>)
        ensures
            region_models(r@) == self.model().regions.push(
                if self.stopped {
                    self.current.model()
                } else {
                    RegionModel { end: cut_at(self.slices, n as int), ..self.current.model() }
                },
            ),
    {
        let ghost before = self.model();
        let mut last = self.current;
        if !self.stopped {
            last.end = match self.slices.cut {
                Some(c) => c,
                None => n,
            };
        }
        let ghost ended = last.model();
        assert(ended =~= if before.stopped {
            before.current
        } else {
            RegionModel { end: cut_at(before.slices, n as int), ..before.current }
        });
        let mut out = self.regions;
        out.push(last);
        assert(region_models(out@) =~= before.regions.push(ended));
        out
    }
}

/// Divides the records of a file into the stretches between restarts.
pub fn plan_regions(
    records: &Vec<PlanRecord>,
    opts: &SarTextOptions,
    select: SampleSelect,
    cpu_nr: Option<u32>,
) -> (r: Vec<Region>)
    ensures
        region_models(r@) == planned_regions(records@, *opts, select, cpu_nr),
{
    let mut p = Planner::new(opts, select, cpu_nr);
    let mut i: usize = 0;
    while i < records.len()
        invariant
            i <= records.len(),
            p.opts == opts,
            p.model() == after_records(records@, i as int, *opts, select, cpu_nr),
        decreases records.len() - i,
    {
        p.step(i, &records[i]);
        i = i + 1;
    }
    p.finish(i)
}

/// Whether a record is a sample that a stretch takes.
pub open spec fn is_taken(rec: PlanRecord) -> bool {
    rec matches PlanRecord::Sample { verdict, .. } && (verdict is Reference || verdict is Emit)
}

/// Whether a record lies after the time range.
pub open spec fn is_beyond(rec: PlanRecord) -> bool {
    rec matches PlanRecord::Sample { verdict, .. } && verdict is Stop
}

/// Whether a record is an event in the time range.
pub open spec fn is_event_in_range(rec: PlanRecord) -> bool {
    rec matches PlanRecord::Event { in_range, .. } && in_range
}

/// Whether one of the records from `start` on and before `n` is a sample that is taken.
pub open spec fn any_taken(records: Seq<PlanRecord>, start: int, n: int) -> bool {
    exists|i: int| start <= i < n && is_taken(#[trigger] records[i])
}

/// Whether one of the records from `start` on and before `n` lies after the time range.
pub open spec fn any_beyond(records: Seq<PlanRecord>, start: int, n: int) -> bool {
    exists|i: int| start <= i < n && is_beyond(#[trigger] records[i])
}

/// The records that a block handles of those from `start` on and before `n`: the samples that
/// are taken, and the events in the time range after the first of them; none after a record
/// beyond the time range.
pub open spec fn handled_records(records: Seq<PlanRecord>, start: int, n: int) -> Seq<int>
    decreases n - start,
{
    if n <= start {
        Seq::empty()
    } else {
        let before = handled_records(records, start, n - 1);
        if !any_beyond(records, start, n) && (is_taken(records[n - 1]) || (is_event_in_range(
            records[n - 1],
        ) && any_taken(records, start, n - 1))) {
            before.push(n - 1)
        } else {
            before
        }
    }
}

/// The numbers of a list.
pub open spec fn numbers(v: Seq<usize>) -> Seq<int> {
    Seq::new(v.len(), |i: int| v[i] as int)
}

/// The records that a block handles of a stretch.
pub fn block_records(records: &Vec<PlanRecord>, start: usize, end: usize) -> (r: Vec<usize>)
    requires
        start <= end <= records@.len(),
    ensures
        numbers(r@) == handled_records(records@, start as int, end as int),
{
    let mut out: Vec<usize> = Vec::new();
    let mut started = false;
    let mut beyond = false;
    let mut i: usize = start;
    assert(numbers(out@) =~= handled_records(records@, start as int, start as int));
    while i < end
        invariant
            start <= i <= end <= records@.len(),
            started == any_taken(records@, start as int, i as int),
            beyond == any_beyond(records@, start as int, i as int),
            numbers(out@) == handled_records(records@, start as int, i as int),
        decreases end - i,
    {
        let ghost before = numbers(out@);
        let ghost rec = records@[i as int];
        let (taken, stop, event) = match &records[i] {
            PlanRecord::Sample { verdict, .. } => match verdict {
                RangeVerdict::Skip => (false, false, false),
                RangeVerdict::Stop => (false, true, false),
                _ => (true, false, false),
            },
            PlanRecord::Event { in_range, .. } => (false, false, *in_range),
        };
        proof {
            assert(taken == is_taken(rec));
            assert(stop == is_beyond(rec));
            assert(event == is_event_in_range(rec));
            assert((beyond || stop) == any_beyond(records@, start as int, i + 1)) by {
                if beyond {
                    let j = choose|j: int| start <= j < i && is_beyond(#[trigger] records@[j]);
                    assert(is_beyond(records@[j]));
                }
            }
            assert((started || taken) == any_taken(records@, start as int, i + 1)) by {
                if started {
                    let j = choose|j: int| start <= j < i && is_taken(#[trigger] records@[j]);
                    assert(is_taken(records@[j]));
                }
            }
        }
        beyond = beyond || stop;
        if !beyond && (taken || (event && started)) {
            out.push(i);
            assert(numbers(out@) =~= before.push(i as int));
        }
        started = started || taken;
        i = i + 1;
        assert(numbers(out@) == handled_records(records@, start as int, i as int));
    }
    out
}

/// The known activities among the first `n` of a file, each once, in the order of the file.
pub open spec fn known_activities(ids: Seq<ActivityId>, n: int) -> Seq<ActivityId>
    decreases n,
{
    if n <= 0 {
        Seq::empty()
    } else {
        let before = known_activities(ids, n - 1);
        if ids[n - 1].known() && !listed(before, ids[n - 1]) {
            before.push(ids[n - 1])
        } else {
            before
        }
    }
}

/// The known activities of a file, each once, in the order of the file.
pub fn activities_in_file(ids: &Vec<ActivityId>) -> (r: Vec<ActivityId>)
    ensures
        r@ == known_activities(ids@, ids@.len() as int),
{
    let mut out: Vec<ActivityId> = Vec::new();
    let mut i: usize = 0;
    while i < ids.len()
        invariant
            i <= ids.len(),
            out@ == known_activities(ids@, i as int),
        decreases ids.len() - i,
    {
        let id = ids[i];
        if id.is_known() && !list_contains(&out, id) {
            out.push(id);
        }
        i = i + 1;
    }
    out
}

/// Whether a name can stand for an interrupt that has no name: `sum` or a number.
pub open spec fn is_number_or_sum(name: Seq<char>) -> bool {
    name == "sum"@ || (name.len() > 0 && forall|i: int|
        0 <= i < name.len() ==> '0' <= #[trigger] name[i] <= '9')
}

fn number_or_sum(name: &str) -> (r: bool)
    ensures
        r == is_number_or_sum(name@),
{
    if same_text(name, "sum") {
        return true;
    }
    let n: usize = name.unicode_len();
    let mut i: usize = 0;
    while i < n
        invariant
            i <= n,
            n == name@.len(),
            name@ != "sum"@,
            forall|k: int| 0 <= k < i ==> '0' <= #[trigger] name@[k] <= '9',
        decreases n - i,
    {
        let c = name.get_char(i);
        if c < '0' || c > '9' {
            assert(name@[i as int] == c);
            return false;
        }
        i = i + 1;
    }
    n > 0
}

/// The names of a list that cannot stand for an interrupt without a name.
pub open spec fn unusable_names(names: Seq<String>, n: int) -> Seq<Seq<char>>
    decreases n,
{
    if n <= 0 {
        Seq::empty()
    } else {
        let before = unusable_names(names, n - 1);
        if is_number_or_sum(names[n - 1]@) {
            before
        } else {
            before.push(names[n - 1]@)
        }
    }
}

/// Names were asked for, and the interrupts of the file have none.
#[derive(Debug)]
pub struct IrqNameError {
    pub names: Vec<String>,
}

/// Whether a field of this name can be read.
pub open spec fn reads_field(plan: DecodePlan, name: Seq<char>) -> bool {
    exists|i: int|
        0 <= i < plan.fields@.len() && (#[trigger] plan.fields@[i]).name@ == name
            && plan.fields@[i].available
}

/// Whether the interrupts of the file have names.
pub fn irq_plan_has_names(plan: &DecodePlan) -> (r: bool)
    ensures
        r == reads_field(*plan, "irq_name"@),
{
    let mut i: usize = 0;
    while i < plan.fields.len()
        invariant
            i <= plan.fields.len(),
            forall|k: int|
                0 <= k < i ==> !((#[trigger] plan.fields@[k]).name@ == "irq_name"@
                    && plan.fields@[k].available),
        decreases plan.fields.len() - i,
    {
        if plan.fields[i].available && same_text(plan.fields[i].name.as_str(), "irq_name") {
            assert(plan.fields@[i as int].available);
            return true;
        }
        i = i + 1;
    }
    false
}

/// The names of interrupts that are asked for and that a file without names cannot have.
pub open spec fn impossible_names(opts: SarTextOptions, activities: Seq<ActivityId>) -> Seq<
    Seq<char>,
> {
    match names_for(opts.item_names@, ActivityId::IRQ) {
        Some(names) => if listed(activities, ActivityId::IRQ) {
            unusable_names(names, names.len() as int)
        } else {
            Seq::empty()
        },
        None => Seq::empty(),
    }
}

/// Refuses names of interrupts where the file has none: such a filter could never match.
pub fn check_irq_name_filter(
    opts: &SarTextOptions,
    activities: &Vec<ActivityId>,
    irq_plan: Option<&DecodePlan>,
) -> (r: Result<(), IrqNameError>)
    ensures
        r is Err <==> impossible_names(*opts, activities@).len() > 0 && !(irq_plan matches Some(p)
            && reads_field(*p, "irq_name"@)),
        r matches Err(e) ==> texts(e.names@) == impossible_names(*opts, activities@),
{
    let names = match filter_of(&opts.item_names, ActivityId::IRQ) {
        None => return Ok(()),
        Some(names) => names,
    };
    if !list_contains(activities, ActivityId::IRQ) {
        return Ok(());
    }
    let mut out: Vec<String> = Vec::new();
    let mut i: usize = 0;
    assert(texts(out@) =~= unusable_names(names@, 0));
    while i < names.len()
        invariant
            i <= names.len(),
            texts(out@) == unusable_names(names@, i as int),
        decreases names.len() - i,
    {
        let ghost before = texts(out@);
        if !number_or_sum(names[i].as_str()) {
            out.push(names[i].clone());
            assert(texts(out@) =~= before.push(names@[i as int]@));
        }
        i = i + 1;
    }
    assert(texts(out@).len() == out@.len());
    if out.len() == 0 {
        return Ok(());
    }
    let named = match irq_plan {
        Some(p) => irq_plan_has_names(p),
        None => false,
    };
    if named {
        Ok(())
    } else {
        Err(IrqNameError { names: out })
    }
}

/// Lines one after the other.
pub open spec fn joined(lines: Seq<Seq<char>>) -> Seq<char>
    decreases lines.len(),
{
    if lines.len() == 0 {
        Seq::empty()
    } else {
        joined(lines.drop_last()) + lines.last()
    }
}

fn put_lines(out: &mut Doc, lines: &Vec<String>)
    ensures
        final(out)@ == old(out)@ + chars(joined(texts(lines@))),
{
    let ghost start = out@;
    let ghost ls = texts(lines@);
    let mut i: usize = 0;
    proof {
        assert(ls.take(0) =~= Seq::<Seq<char>>::empty());
        assert(chars(joined(ls.take(0))) =~= Seq::<Glyph>::empty());
        assert(out@ =~= start + chars(joined(ls.take(0))));
    }
    while i < lines.len()
        invariant
            i <= lines.len(),
            ls == texts(lines@),
            out@ == start + chars(joined(ls.take(i as int))),
        decreases lines.len() - i,
    {
        proof {
            assert(ls.take(i + 1).drop_last() =~= ls.take(i as int));
            assert(ls.take(i + 1).last() == lines@[i as int]@);
            crate::doc::lemma_chars_concat(joined(ls.take(i as int)), lines@[i as int]@);
        }
        out.put(lines[i].as_str());
        i = i + 1;
        assert(out@ =~= start + chars(joined(ls.take(i as int))));
    }
    assert(ls.take(lines@.len() as int) =~= ls);
}

/// Documents one after the other.
pub open spec fn joined_docs(docs: Seq<Doc>) -> Seq<Glyph>
    decreases docs.len(),
{
    if docs.len() == 0 {
        Seq::empty()
    } else {
        joined_docs(docs.drop_last()) + docs.last()@
    }
}

/// A stretch: its first lines, its blocks, its last comments, the restart that ends it.
pub open spec fn region_glyphs(r: RegionModel, blocks: Seq<Doc>) -> Seq<Glyph> {
    chars(joined(r.leading)) + joined_docs(blocks) + chars(joined(r.trailing)) + chars(
        match r.terminator {
            Some(t) => t,
            None => Seq::empty(),
        },
    )
}

/// The first `n` stretches.
pub open spec fn regions_glyphs(rs: Seq<RegionModel>, blocks: Seq<Vec<Doc>>, n: int) -> Seq<Glyph>
    decreases n,
{
    if n <= 0 {
        Seq::empty()
    } else {
        regions_glyphs(rs, blocks, n - 1) + region_glyphs(rs[n - 1], blocks[n - 1]@)
    }
}

fn join_docs(docs: Vec<Doc>) -> (r: Doc)
    ensures
        r@ == joined_docs(docs@),
{
    let ghost all = docs@;
    let mut rest = docs;
    let mut out = Doc::new();
    let ghost mut done: int = 0;
    assert(all.take(0) =~= Seq::<Doc>::empty());
    assert(all.skip(0) =~= all);
    while rest.len() > 0
        invariant
            0 <= done <= all.len(),
            rest@ == all.skip(done),
            out@ == joined_docs(all.take(done)),
        decreases rest.len(),
    {
        let d = rest.remove(0);
        proof {
            assert(d == all[done]);
            assert(all.take(done + 1).drop_last() =~= all.take(done));
            assert(rest@ =~= all.skip(done + 1));
        }
        out.join(d);
        proof {
            done = done + 1;
        }
    }
    assert(all.take(done) =~= all);
    out
}

/// A report: the banner, then the stretches. `blocks` holds the blocks of each stretch in the
/// order of the activities.
pub fn write_report(
    h: &FileHeader,
    opts: &SarTextOptions,
    regions: &Vec<Region>,
    blocks: Vec<Vec<Doc>>,
) -> (r: Doc)
    requires
        blocks@.len() == regions@.len(),
    ensures
        r@ == chars(banner_text(*h, opts.time)) + regions_glyphs(
            region_models(regions@),
            blocks@,
            regions@.len() as int,
        ),
{
    let ghost rs = region_models(regions@);
    let ghost all = blocks@;
    let mut rest = blocks;
    let mut out = Doc::of(write_banner(h, opts.time).as_str());
    let ghost start = out@;
    let mut i: usize = 0;
    assert(out@ =~= start + regions_glyphs(rs, all, 0));
    assert(all.skip(0) =~= all);
    while i < regions.len()
        invariant
            i <= regions.len(),
            all.len() == regions@.len(),
            rs == region_models(regions@),
            rest@ == all.skip(i as int),
            out@ == start + regions_glyphs(rs, all, i as int),
        decreases regions.len() - i,
    {
        let ghost before = out@;
        let docs = rest.remove(0);
        proof {
            assert(docs == all[i as int]);
            assert(rest@ =~= all.skip(i + 1));
            assert(rs[i as int] == regions@[i as int].model());
        }
        let region = &regions[i];
        put_lines(&mut out, &region.leading);
        out.join(join_docs(docs));
        put_lines(&mut out, &region.trailing);
        match &region.terminator {
            Some(t) => {
                out.put(t.as_str());
            },
            None => {
                assert(chars(Seq::<char>::empty()) =~= Seq::<Glyph>::empty());
                assert(out@ =~= out@ + chars(Seq::<char>::empty()));
            },
        }
        assert(out@ =~= before + region_glyphs(rs[i as int], docs@));
        i = i + 1;
        assert(out@ =~= start + regions_glyphs(rs, all, i as int));
    }
    out
}

/// Whether a record is a restart.
pub open spec fn is_restart(rec: PlanRecord) -> bool {
    rec matches PlanRecord::Event { event, .. } && event is Restart
}

/// Whether stretches follow one another: the first starts with the first record, each lies
/// within the records, and a restart stands before each but the first, after the one before it.
pub open spec fn follow_one_another(rs: Seq<RegionModel>, records: Seq<PlanRecord>) -> bool {
    &&& forall|i: int|
        0 <= i < rs.len() ==> 0 <= (#[trigger] rs[i]).start <= rs[i].end <= records.len()
    &&& rs.len() > 0 ==> rs[0].start == 0
    &&& forall|i: int|
        0 < i < rs.len() ==> rs[i - 1].end < (#[trigger] rs[i]).start && is_restart(
            records[rs[i].start - 1],
        )
}

/// Where the current stretch starts, given those that have ended.
pub open spec fn starts_after(rs: Seq<RegionModel>, start: int, records: Seq<PlanRecord>) -> bool {
    if rs.len() == 0 {
        start == 0
    } else {
        rs.last().end < start && is_restart(records[start - 1])
    }
}

proof fn lemma_plan_in_order(
    records: Seq<PlanRecord>,
    n: int,
    opts: SarTextOptions,
    select: SampleSelect,
    cpu_nr: Option<u32>,
)
    requires
        0 <= n <= records.len() < usize::MAX,
    ensures
        ({
            let p = after_records(records, n, opts, select, cpu_nr);
            &&& follow_one_another(p.regions, records)
            &&& starts_after(p.regions, p.current.start, records)
            &&& 0 <= p.current.start <= n
            &&& p.slices.cut matches Some(c) ==> p.current.start <= c <= n
            &&& !p.adopted ==> p.slices.cut is None
            &&& p.stopped ==> p.current.start <= p.current.end <= n
        }),
    decreases n,
{
    if n > 0 {
        lemma_plan_in_order(records, n - 1, opts, select, cpu_nr);
        let p = after_records(records, n - 1, opts, select, cpu_nr);
        let q = after_records(records, n, opts, select, cpu_nr);
        assert(q == after_record(p, n - 1, records[n - 1], opts));
        if !p.stopped && p.adopted && is_restart(records[n - 1]) {
            let ended = q.regions.last();
            assert(q.regions =~= p.regions.push(ended));
            assert(p.current.start <= ended.end <= n - 1);
            assert(is_restart(records[n - 1]));
        }
    }
}

/// The stretches of a file follow one another: they lie within the records in their order, none
/// shares a record with another, and a restart stands between each two.
pub proof fn law_regions_follow_one_another(
    records: Seq<PlanRecord>,
    opts: SarTextOptions,
    select: SampleSelect,
    cpu_nr: Option<u32>,
)
    requires
        records.len() < usize::MAX,
    ensures
        follow_one_another(planned_regions(records, opts, select, cpu_nr), records),
        planned_regions(records, opts, select, cpu_nr).len() > 0,
{
    lemma_plan_in_order(records, records.len() as int, opts, select, cpu_nr);
}

/// The lines that stand outside the blocks of a stretch.
pub open spec fn outside(r: RegionModel) -> Seq<Seq<char>> {
    r.leading + r.trailing + match r.terminator {
        Some(t) => seq![t],
        None => Seq::empty(),
    }
}

/// The lines that stand outside the blocks of stretches.
pub open spec fn all_outside(rs: Seq<RegionModel>) -> Seq<Seq<char>>
    decreases rs.len(),
{
    if rs.len() == 0 {
        Seq::empty()
    } else {
        all_outside(rs.drop_last()) + outside(rs.last())
    }
}

/// How many of the first `n` records come before the first that is beyond the time range.
pub open spec fn before_stop(records: Seq<PlanRecord>, n: int) -> int
    decreases n,
{
    if n <= 0 {
        0
    } else if before_stop(records, n - 1) < n - 1 || (records[n - 1] matches PlanRecord::Sample {
        verdict,
        ..
    } && verdict == RangeVerdict::Stop) {
        before_stop(records, n - 1)
    } else {
        n
    }
}

/// The lines of the restarts in the time range among the first `n` records, and the number of
/// CPUs in force after them.
pub open spec fn restart_lines(
    records: Seq<PlanRecord>,
    n: int,
    opts: SarTextOptions,
    cpu_nr: Option<u32>,
) -> (Seq<Seq<char>>, Option<u32>)
    decreases n,
{
    if n <= 0 {
        (Seq::empty(), cpu_nr)
    } else {
        let (lines, c) = restart_lines(records, n - 1, opts, cpu_nr);
        match records[n - 1] {
            PlanRecord::Event { event: RecordEvent::Restart { time, cpu_count: k }, in_range } => (
                if in_range {
                    lines.push(
                        restart_text(stamp_text(time, opts.time), cpu_count(cpu_nr_of(k, c))),
                    )
                } else {
                    lines
                },
                cpu_nr_of(k, c),
            ),
            _ => (lines, c),
        }
    }
}

/// What [`law_each_restart_has_one_line`] rests on: the lines so far after the first `n` records.
pub proof fn lemma_restart_lines(
    records: Seq<PlanRecord>,
    n: int,
    opts: SarTextOptions,
    select: SampleSelect,
    cpu_nr: Option<u32>,
)
    requires
        0 <= n <= records.len(),
        !opts.comment,
    ensures
        ({
            let p = after_records(records, n, opts, select, cpu_nr);
            let (lines, c) = restart_lines(records, before_stop(records, n), opts, cpu_nr);
            &&& all_outside(p.regions) + p.current.leading == lines
            &&& p.current.trailing.len() == 0
            &&& p.current.terminator is None
            &&& p.cpu_nr == c
            &&& p.stopped == (before_stop(records, n) < n)
        }),
    decreases n,
{
    if n > 0 {
        lemma_restart_lines(records, n - 1, opts, select, cpu_nr);
        let p = after_records(records, n - 1, opts, select, cpu_nr);
        let q = after_records(records, n, opts, select, cpu_nr);
        assert(q == after_record(p, n - 1, records[n - 1], opts));
        let (lines, c) = restart_lines(records, before_stop(records, n - 1), opts, cpu_nr);
        if !p.stopped {
            if q.regions.len() > p.regions.len() {
                let ended = q.regions.last();
                assert(q.regions =~= p.regions.push(ended));
                assert(q.regions.drop_last() =~= p.regions);
                assert(outside(ended) =~= p.current.leading + match ended.terminator {
                    Some(t) => seq![t],
                    None => Seq::empty(),
                });
                assert(all_outside(q.regions) =~= lines + match ended.terminator {
                    Some(t) => seq![t],
                    None => Seq::empty(),
                });
            }
            assert(all_outside(q.regions) + q.current.leading =~= restart_lines(
                records,
                before_stop(records, n),
                opts,
                cpu_nr,
            ).0);
        }
    } else {
        assert(all_outside(Seq::<RegionModel>::empty()) + Seq::<Seq<char>>::empty()
            =~= Seq::empty());
    }
}

/// Every restart in the time range has one line in a report, outside the blocks, in the order of
/// the file and with the number of CPUs in force after it. Where comments are not shown, no
/// other line stands outside the blocks.
pub proof fn law_each_restart_has_one_line(
    records: Seq<PlanRecord>,
    opts: SarTextOptions,
    select: SampleSelect,
    cpu_nr: Option<u32>,
)
    requires
        !opts.comment,
    ensures
        all_outside(planned_regions(records, opts, select, cpu_nr)) == restart_lines(
            records,
            before_stop(records, records.len() as int),
            opts,
            cpu_nr,
        ).0,
{
    let n = records.len() as int;
    lemma_restart_lines(records, n, opts, select, cpu_nr);
    let p = after_records(records, n, opts, select, cpu_nr);
    let rs = planned_regions(records, opts, select, cpu_nr);
    assert(rs.drop_last() =~= p.regions);
    assert(outside(rs.last()) =~= p.current.leading);
}

/// The selection after samples, each with its place and its uptime.
pub open spec fn fed_all(s: SliceState, samples: Seq<(usize, u64)>) -> SliceState
    decreases samples.len(),
{
    if samples.len() == 0 {
        s
    } else {
        fed_slice(fed_all(s, samples.drop_last()), samples.last().0, samples.last().1)
    }
}

/// The number of samples that are shown before the stretch is cut off.
pub open spec fn shown_of(s: SliceState, samples: Seq<(usize, u64)>) -> nat
    decreases samples.len(),
{
    if samples.len() == 0 {
        0
    } else {
        let before = fed_all(s, samples.drop_last());
        let taken = before.cut is None && slice_taken(
            before.uptime_ref,
            samples.last().1,
            before.reset,
            effective_interval(before.select.interval),
            before.last_uptime,
        );
        shown_of(s, samples.drop_last()) + if taken {
            1nat
        } else {
            0nat
        }
    }
}

proof fn lemma_count_down(s: SliceState, samples: Seq<(usize, u64)>, n: u64)
    requires
        s.select.count == Some(n),
        n >= 1,
        s.remaining == Some(n),
        s.cut is None,
    ensures
        shown_of(s, samples) <= n,
        fed_all(s, samples).select == s.select,
        fed_all(s, samples).remaining == Some((n - shown_of(s, samples)) as u64),
        fed_all(s, samples).cut is Some <==> shown_of(s, samples) == n,
    decreases samples.len(),
{
    if samples.len() > 0 {
        lemma_count_down(s, samples.drop_last(), n);
    }
}

/// A stretch is cut off once as many samples are shown as were asked for, and not before; no
/// more are shown.
pub proof fn law_cut_falls_after_the_last_sample(
    select: SampleSelect,
    uptime_cs: u64,
    samples: Seq<(usize, u64)>,
    n: u64,
)
    requires
        select.count == Some(n),
        n >= 1,
    ensures
        ({
            let s = started_slice(fresh_slice(select), uptime_cs);
            &&& shown_of(s, samples) <= n
            &&& fed_all(s, samples).cut is Some <==> shown_of(s, samples) == n
        }),
{
    lemma_count_down(started_slice(fresh_slice(select), uptime_cs), samples, n);
}

}
