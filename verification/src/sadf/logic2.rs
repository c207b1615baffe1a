//! The course of the formats that go activity by activity: which records are shown in which
//! order, and how often.

use vstd::prelude::*;

use crate::model::{list_contains, listed, ActivityId};
use crate::sadf::records::{
    cpu_nr_after, header_range, restart_from, Rec, RecKind, RecordIndex,
};
use crate::sadf::select::{
    slicer_after, slicer_at, slicer_takes, RecordSelect, Slicer,
};

verus! {

/// One reading of a stretch.
#[derive(Clone, Copy, PartialEq, Eq, Structural, Debug)]
pub enum Pass {
    /// One section of an activity.
    Activity { id: ActivityId, section: usize },
    /// All activities on one line.
    Horizontal,
}

/// A part of the output.
#[derive(Clone, Copy, PartialEq, Eq, Structural, Debug)]
pub enum Action {
    /// The header of a record was read.
    Header { header: usize },
    /// A restart, with the number of CPUs in force after it.
    Restart { rec: usize, cpu_nr: Option<u32> },
    /// A comment.
    Comment { rec: usize },
    /// The names of the fields of a pass.
    BeginPass { pass: Pass },
    /// A sample, compared with the sample `prev`.
    Sample { pass: Pass, rec: usize, prev: usize, nr_ini: u32, nr_alloc: u32 },
}

/// The numbers of items of an activity that room is kept for.
#[derive(Clone, Copy, PartialEq, Eq, Structural, Debug)]
pub struct ActState {
    pub id: ActivityId,
    pub nr_ini: u32,
    pub nr_alloc: u32,
}

/// The room after it was doubled until it holds `nr_min` items, or cannot grow.
pub open spec fn doubled(nr_alloc: u32, nr_min: u32) -> u32
    decreases u32::MAX - nr_alloc,
{
    if nr_alloc >= nr_min || nr_alloc == 0 {
        nr_alloc
    } else if nr_alloc > u32::MAX / 2 {
        u32::MAX
    } else {
        doubled((2 * nr_alloc) as u32, nr_min)
    }
}

/// The room for at least `nr_min` items, and at least one. Where there is none yet, it is made
/// for just as many; else it is doubled.
pub open spec fn grown(a: ActState, nr_min: u32) -> ActState {
    let need: u32 = if nr_min == 0 {
        1
    } else {
        nr_min
    };
    if need <= a.nr_alloc {
        a
    } else if a.nr_alloc == 0 {
        ActState { nr_alloc: need, ..a }
    } else {
        ActState { nr_alloc: doubled(a.nr_alloc, need), ..a }
    }
}

impl ActState {
    /// Makes room for `nr_min` items.
    pub fn grow(&mut self, nr_min: u32)
        ensures
            *final(self) == grown(*old(self), nr_min),
    {
        let need: u32 = if nr_min == 0 {
            1
        } else {
            nr_min
        };
        if need <= self.nr_alloc {
            return;
        }
        if self.nr_alloc == 0 {
            self.nr_alloc = need;
            return;
        }
        let ghost start = self.nr_alloc;
        let mut n: u32 = self.nr_alloc;
        while n < need
            invariant
                n > 0,
                doubled(start, need) == doubled(n, need),
            decreases u32::MAX - n,
        {
            n = if n > u32::MAX / 2 {
                u32::MAX
            } else {
                2 * n
            };
        }
        self.nr_alloc = n;
    }
}

/// After room was made, there is room.
pub proof fn law_grown_fits(a: ActState, nr_min: u32)
    ensures
        grown(a, nr_min).nr_alloc >= nr_min,
        grown(a, nr_min).nr_alloc >= a.nr_alloc,
        grown(a, nr_min).nr_ini == a.nr_ini,
        nr_min <= a.nr_alloc && a.nr_alloc > 0 ==> grown(a, nr_min) == a,
{
    lemma_doubled_fits(a.nr_alloc, nr_min);
}

proof fn lemma_doubled_fits(n: u32, nr_min: u32)
    ensures
        n > 0 ==> doubled(n, nr_min) >= nr_min,
        doubled(n, nr_min) >= n,
    decreases u32::MAX - n,
{
    if n < nr_min && n > 0 && n <= u32::MAX / 2 {
        lemma_doubled_fits((2 * n) as u32, nr_min);
    }
}

/// Whether the number of items of an activity follows the number of CPUs.
pub open spec fn follows_cpus(id: ActivityId) -> bool {
    id == ActivityId::CPU || id == ActivityId::IRQ || id == ActivityId::NET_SOFT
}

/// Whether the number of items of an activity follows the number of CPUs.
pub fn is_persistent(id: ActivityId) -> (r: bool)
    ensures
        r == follows_cpus(id),
{
    match id {
        ActivityId::CPU | ActivityId::IRQ | ActivityId::NET_SOFT => true,
        _ => false,
    }
}

/// What is remembered while records are read.
pub struct Memory {
    /// The furthest record that was read.
    pub frontier: Option<usize>,
    pub acts: Seq<ActState>,
    /// The number of CPUs in force.
    pub cpu: Option<u32>,
}

/// The room after the items of a record were read.
pub open spec fn acts_after_read(acts: Seq<ActState>, rec: Rec) -> Seq<ActState> {
    Seq::new(
        acts.len(),
        |i: int|
            if i < rec.nrs@.len() {
                grown(acts[i], rec.nrs@[i])
            } else {
                acts[i]
            },
    )
}

/// The headers of a range.
pub open spec fn header_actions(start: int, end: int) -> Seq<Action> {
    Seq::new((end - start) as nat, |i: int| Action::Header { header: (start + i) as usize })
}

/// The headers that are read with the record `at`.
pub open spec fn read_actions(index: RecordIndex, at: int) -> Seq<Action> {
    header_actions(header_range(index, at).0, header_range(index, at).1)
}

/// What is remembered after the record `at` was read. Room is made for the items of records
/// that were not read before.
pub open spec fn after_read(index: RecordIndex, m: Memory, at: int) -> Memory {
    if m.frontier matches Some(f) && at <= f {
        m
    } else {
        Memory {
            frontier: Some(at as usize),
            acts: if index.debug is Some && index.recs@[at].kind == RecKind::Stats {
                acts_after_read(m.acts, index.recs@[at])
            } else {
                m.acts
            },
            ..m
        }
    }
}

/// The room after a restart: activities that follow the CPUs have as many items as there are
/// CPUs.
pub open spec fn acts_after_restart(acts: Seq<ActState>, cpu: Option<u32>) -> Seq<ActState> {
    match cpu {
        None => acts,
        Some(n) => Seq::new(
            acts.len(),
            |i: int|
                if follows_cpus(acts[i].id) && acts[i].nr_ini > 0 {
                    grown(ActState { nr_ini: n, ..acts[i] }, n)
                } else {
                    acts[i]
                },
        ),
    }
}

/// What is remembered after a restart.
pub open spec fn after_restart(m: Memory, rec: Rec) -> Memory {
    let cpu = cpu_nr_after(m.cpu, rec.cpu_count);
    Memory { cpu, acts: acts_after_restart(m.acts, cpu), ..m }
}

/// The position of an activity among those that are followed.
pub open spec fn act_position(acts: Seq<ActState>, id: ActivityId) -> Option<int>
    decreases acts.len(),
{
    if acts.len() == 0 {
        None
    } else {
        match act_position(acts.drop_last(), id) {
            Some(i) => Some(i),
            None => if acts.last().id == id {
                Some(acts.len() - 1)
            } else {
                None
            },
        }
    }
}

/// The room of the activity of a pass, and its place.
pub open spec fn act_of(acts: Seq<ActState>, pass: Pass) -> Option<int> {
    match pass {
        Pass::Activity { id, .. } => act_position(acts, id),
        Pass::Horizontal => None,
    }
}

/// What is remembered after a sample was shown: activities that follow the CPUs have at least
/// as many items as the sample.
pub open spec fn after_show(m: Memory, pass: Pass, rec: Rec) -> Memory {
    match act_of(m.acts, pass) {
        Some(i) => if follows_cpus(m.acts[i].id) && i < rec.nrs@.len() && rec.nrs@[i]
            > m.acts[i].nr_ini {
            Memory {
                acts: m.acts.update(i, ActState { nr_ini: rec.nrs@[i], ..m.acts[i] }),
                ..m
            }
        } else {
            m
        },
        None => m,
    }
}

/// The part of the output that shows a sample.
pub open spec fn sample_action(m: Memory, pass: Pass, rec: usize, prev: usize) -> Action {
    match act_of(m.acts, pass) {
        Some(i) => Action::Sample {
            pass,
            rec,
            prev,
            nr_ini: m.acts[i].nr_ini,
            nr_alloc: m.acts[i].nr_alloc,
        },
        None => Action::Sample { pass, rec, prev, nr_ini: 0, nr_alloc: 0 },
    }
}

/// The state of a pass.
#[derive(Clone, Copy, PartialEq, Eq, Structural, Debug)]
pub struct PassState {
    pub slicer: Slicer,
    /// The last sample that was shown, or the reference.
    pub prev: usize,
    pub remaining: Option<u64>,
    /// The record at which the pass has stopped.
    pub stopped: Option<usize>,
}

/// A pass that has read up to a record.
pub struct PassRun {
    pub memory: Memory,
    pub state: PassState,
    pub actions: Seq<Action>,
}

/// What does not change during a pass.
pub struct PassSetup<'a> {
    pub index: &'a RecordIndex,
    /// Whether comments are shown.
    pub comments: bool,
    pub select: RecordSelect,
    pub pass: Pass,
    /// The reference sample.
    pub reference: usize,
}

/// The state after a sample was shown.
pub open spec fn shown_state(s: PassState, k: usize) -> PassState {
    let left = match s.remaining {
        Some(n) => Some(
            if n > 0 {
                (n - 1) as u64
            } else {
                0u64
            },
        ),
        None => None,
    };
    PassState {
        prev: k,
        remaining: left,
        stopped: if left == Some(0u64) {
            Some(k)
        } else {
            None
        },
        ..s
    }
}

/// A pass after the record `k`. A comment is shown where comments are; a sample is shown where
/// it is close to a multiple of the interval. The pass stops at a sample after the time range,
/// and after as many samples as were asked for.
pub open spec fn pass_after(c: PassSetup<'_>, run: PassRun, k: usize) -> PassRun {
    let rec = c.index.recs@[k as int];
    let m = after_read(*c.index, run.memory, k as int);
    let read = run.actions + read_actions(*c.index, k as int);
    match rec.kind {
        RecKind::Restart => PassRun { memory: m, state: run.state, actions: read },
        RecKind::Comment => PassRun {
            memory: m,
            state: run.state,
            actions: if c.comments && rec.in_range {
                read.push(Action::Comment { rec: k })
            } else {
                read
            },
        },
        RecKind::Stats => {
            let seen = PassState { slicer: slicer_after(run.state.slicer, rec.uptime_cs), ..run.state };
            if !slicer_takes(run.state.slicer, rec.uptime_cs) {
                PassRun { memory: m, state: seen, actions: read }
            } else if rec.past_end {
                PassRun {
                    memory: m,
                    state: PassState { stopped: Some(k), ..seen },
                    actions: read,
                }
            } else {
                PassRun {
                    memory: after_show(m, c.pass, rec),
                    state: shown_state(seen, k),
                    actions: read.push(sample_action(m, c.pass, k, run.state.prev)),
                }
            }
        },
    }
}

/// A pass at its start.
pub open spec fn pass_start(c: PassSetup<'_>, m: Memory) -> PassRun {
    PassRun {
        memory: m,
        state: PassState {
            slicer: slicer_at(c.select, c.index.recs@[c.reference as int].uptime_cs),
            prev: c.reference,
            remaining: c.select.count,
            stopped: None,
        },
        actions: Seq::empty(),
    }
}

/// A pass after the records before `n`.
pub open spec fn pass_upto(c: PassSetup<'_>, m: Memory, n: int) -> PassRun
    decreases n,
{
    if n <= c.reference + 1 {
        pass_start(c, m)
    } else {
        let run = pass_upto(c, m, n - 1);
        if run.state.stopped is Some {
            run
        } else {
            pass_after(c, run, (n - 1) as usize)
        }
    }
}

/// Where a pass has stopped.
#[derive(Clone, Copy, PartialEq, Eq, Structural, Debug)]
pub struct PassEnd {
    /// The next record.
    pub next: usize,
    /// Whether it has stopped before the stretch has ended.
    pub cnt_zero: bool,
    /// Whether the file has ended.
    pub eosaf: bool,
}

/// A pass as a whole: where it stops, what is remembered, and the parts of the output.
pub open spec fn pass_result(c: PassSetup<'_>, m: Memory) -> (PassEnd, Memory, Seq<Action>) {
    let n = c.index.recs@.len() as int;
    let end = restart_from(c.index.recs@, c.reference + 1);
    let run = pass_upto(c, m, end);
    match run.state.stopped {
        Some(k) => (
            PassEnd { next: (k + 1) as usize, cnt_zero: true, eosaf: false },
            run.memory,
            run.actions,
        ),
        None => if end < n {
            (
                PassEnd { next: end as usize, cnt_zero: false, eosaf: false },
                after_read(*c.index, run.memory, end),
                run.actions + read_actions(*c.index, end),
            )
        } else {
            (
                PassEnd { next: n as usize, cnt_zero: false, eosaf: true },
                run.memory,
                run.actions + read_actions(*c.index, n),
            )
        },
    }
}

/// What is remembered while records are read.
#[derive(Debug)]
pub struct Tracker {
    pub frontier: Option<usize>,
    pub acts: Vec<ActState>,
    pub cpu: Option<u32>,
}

impl Tracker {
    pub open spec fn model(self) -> Memory {
        Memory { frontier: self.frontier, acts: self.acts@, cpu: self.cpu }
    }

    /// Appends the headers that are read with the record `at`.
    fn put_headers(index: &RecordIndex, at: usize, out: &mut Vec<Action>)
        ensures
            final(out)@ == old(out)@ + read_actions(*index, at as int),
    {
        let (start, end) = index.headers_for(at);
        let ghost had = out@;
        let mut h: usize = start;
        assert(out@ =~= had + header_actions(start as int, start as int));
        while h < end
            invariant
                start <= h <= end,
                out@ == had + header_actions(start as int, h as int),
            decreases end - h,
        {
            out.push(Action::Header { header: h });
            h = h + 1;
            assert(out@ =~= had + header_actions(start as int, h as int));
        }
    }

    /// Reads the record `at`.
    pub fn read(&mut self, index: &RecordIndex, at: usize, out: &mut Vec<Action>)
        requires
            at < index.recs@.len(),
        ensures
            final(self).model() == after_read(*index, old(self).model(), at as int),
            final(out)@ == old(out)@ + read_actions(*index, at as int),
    {
        Tracker::put_headers(index, at, out);
        let fresh = match self.frontier {
            Some(f) => at > f,
            None => true,
        };
        if fresh {
            self.frontier = Some(at);
            if index.debug.is_some() && index.recs[at].kind == RecKind::Stats {
                self.acts = grow_all(&self.acts, &index.recs[at]);
            }
        }
    }

    /// Reads the end of the file.
    pub fn read_eof(index: &RecordIndex, out: &mut Vec<Action>)
        ensures
            final(out)@ == old(out)@ + read_actions(*index, index.recs@.len() as int),
    {
        Tracker::put_headers(index, index.len(), out);
    }

    /// Takes a restart, and returns the number of CPUs in force after it.
    pub fn restart(&mut self, rec: &Rec) -> (r: Option<u32>)
        ensures
            final(self).model() == after_restart(old(self).model(), *rec),
            r == cpu_nr_after(old(self).cpu, rec.cpu_count),
    {
        if rec.cpu_count.is_some() {
            self.cpu = rec.cpu_count;
        }
        if let Some(n) = self.cpu {
            self.acts = restart_all(&self.acts, n);
        }
        assert(self.model().acts =~= after_restart(old(self).model(), *rec).acts);
        self.cpu
    }

    /// Shows a sample.
    pub fn show(&mut self, pass: Pass, recs: &Vec<Rec>, at: usize, prev: usize, out: &mut Vec<Action>)
        requires
            at < recs@.len(),
        ensures
            final(self).model() == after_show(old(self).model(), pass, recs@[at as int]),
            final(out)@ == old(out)@.push(sample_action(old(self).model(), pass, at, prev)),
    {
        let place = match pass {
            Pass::Activity { id, .. } => find_act(&self.acts, id),
            Pass::Horizontal => None,
        };
        match place {
            None => {
                out.push(Action::Sample { pass, rec: at, prev, nr_ini: 0, nr_alloc: 0 });
            },
            Some(i) => {
                let a = self.acts[i];
                out.push(
                    Action::Sample { pass, rec: at, prev, nr_ini: a.nr_ini, nr_alloc: a.nr_alloc },
                );
                let nrs = &recs[at].nrs;
                if is_persistent(a.id) && i < nrs.len() && nrs[i] > a.nr_ini {
                    self.acts.set(i, ActState { id: a.id, nr_ini: nrs[i], nr_alloc: a.nr_alloc });
                }
            },
        }
    }
}

fn grow_all(acts: &Vec<ActState>, rec: &Rec) -> (r: Vec<ActState>)
    ensures
        r@ == acts_after_read(acts@, *rec),
{
    let mut out: Vec<ActState> = Vec::new();
    let mut i: usize = 0;
    while i < acts.len()
        invariant
            i <= acts.len(),
            out@.len() == i,
            forall|k: int| 0 <= k < i ==> #[trigger] out@[k] == acts_after_read(acts@, *rec)[k],
        decreases acts.len() - i,
    {
        let mut a = acts[i];
        if i < rec.nrs.len() {
            a.grow(rec.nrs[i]);
        }
        out.push(a);
        i = i + 1;
    }
    assert(out@ =~= acts_after_read(acts@, *rec));
    out
}

fn restart_all(acts: &Vec<ActState>, n: u32) -> (r: Vec<ActState>)
    ensures
        r@ == acts_after_restart(acts@, Some(n)),
{
    let mut out: Vec<ActState> = Vec::new();
    let mut i: usize = 0;
    while i < acts.len()
        invariant
            i <= acts.len(),
            out@.len() == i,
            forall|k: int|
                0 <= k < i ==> #[trigger] out@[k] == acts_after_restart(acts@, Some(n))[k],
        decreases acts.len() - i,
    {
        let mut a = acts[i];
        if is_persistent(a.id) && a.nr_ini > 0 {
            a.nr_ini = n;
            a.grow(n);
        }
        out.push(a);
        i = i + 1;
    }
    assert(out@ =~= acts_after_restart(acts@, Some(n)));
    out
}

fn find_act(acts: &Vec<ActState>, id: ActivityId) -> (r: Option<usize>)
    ensures
        match r {
            Some(i) => act_position(acts@, id) == Some(i as int) && i < acts@.len(),
            None => act_position(acts@, id) is None,
        },
{
    let mut found: Option<usize> = None;
    let mut i: usize = 0;
    assert(acts@.take(0) =~= Seq::<ActState>::empty());
    while i < acts.len()
        invariant
            i <= acts.len(),
            match found {
                Some(k) => act_position(acts@.take(i as int), id) == Some(k as int) && k
                    < acts@.len(),
                None => act_position(acts@.take(i as int), id) is None,
            },
        decreases acts.len() - i,
    {
        proof {
            assert(acts@.take(i + 1).drop_last() =~= acts@.take(i as int));
        }
        if found.is_none() && acts[i].id == id {
            found = Some(i);
        }
        i = i + 1;
    }
    assert(acts@.take(acts@.len() as int) =~= acts@);
    found
}

fn pass_step(c: &PassSetup<'_>, t: &mut Tracker, s: PassState, k: usize, out: &mut Vec<Action>) -> (r:
    PassState)
    requires
        k < c.index.recs@.len(),
        s.slicer.interval >= 1,
    ensures
        ({
            let run = pass_after(
                *c,
                PassRun { memory: old(t).model(), state: s, actions: old(out)@ },
                k,
            );
            &&& r == run.state
            &&& final(t).model() == run.memory
            &&& final(out)@ == run.actions
        }),
        r.slicer.interval == s.slicer.interval,
        r.stopped is Some ==> s.stopped is Some || r.stopped == Some(k),
        r.prev == s.prev || r.prev == k,
{
    t.read(c.index, k, out);
    let rec = &c.index.recs[k];
    let mut q = s;
    match rec.kind {
        RecKind::Restart => {},
        RecKind::Comment => {
            if c.comments && rec.in_range {
                out.push(Action::Comment { rec: k });
            }
        },
        RecKind::Stats => {
            let taken = q.slicer.takes(rec.uptime_cs);
            if taken {
                if rec.past_end {
                    q.stopped = Some(k);
                } else {
                    t.show(c.pass, &c.index.recs, k, s.prev, out);
                    q.prev = k;
                    q.stopped = None;
                    if let Some(left) = q.remaining {
                        let left: u64 = if left > 0 {
                            left - 1
                        } else {
                            0
                        };
                        q.remaining = Some(left);
                        if left == 0 {
                            q.stopped = Some(k);
                        }
                    }
                }
            }
        },
    }
    q
}

/// Nothing more comes of a pass that has stopped.
proof fn lemma_pass_stays(c: PassSetup<'_>, m: Memory, k: int, n: int)
    requires
        c.reference + 1 <= k <= n,
        k == n || pass_upto(c, m, k).state.stopped is Some,
    ensures
        pass_upto(c, m, n) == pass_upto(c, m, k),
    decreases n - k,
{
    if k < n {
        lemma_pass_stays(c, m, k, n - 1);
    }
}

/// Reads a stretch once. The parts of the output are appended to `out`.
pub fn run_pass(c: &PassSetup<'_>, t: &mut Tracker, out: &mut Vec<Action>) -> (r: PassEnd)
    requires
        c.reference < c.index.recs@.len(),
    ensures
        ({
            let (end, m, actions) = pass_result(*c, old(t).model());
            &&& r == end
            &&& final(t).model() == m
            &&& final(out)@ == old(out)@ + actions
        }),
        c.reference < r.next <= c.index.recs@.len(),
        !r.cnt_zero && !r.eosaf ==> r.next < c.index.recs@.len()
            && c.index.recs@[r.next as int].kind == RecKind::Restart,
{
    let n: usize = c.index.len();
    let end: usize = c.index.next_restart(c.reference + 1);
    let ghost m0 = t.model();
    let mut made: Vec<Action> = Vec::new();
    let mut s = PassState {
        slicer: Slicer::new(c.select, c.index.recs[c.reference].uptime_cs),
        prev: c.reference,
        remaining: c.select.count,
        stopped: None,
    };
    let mut k: usize = c.reference + 1;
    assert(made@ =~= pass_start(*c, m0).actions);
    while k < end && s.stopped.is_none()
        invariant
            c.reference + 1 <= k <= end,
            end <= c.index.recs@.len(),
            s.slicer.interval >= 1,
            ({
                let run = pass_upto(*c, m0, k as int);
                &&& s == run.state
                &&& t.model() == run.memory
                &&& made@ == run.actions
            }),
            s.stopped matches Some(j) ==> c.reference < j < k,
        decreases end - k,
    {
        let ghost run = pass_upto(*c, m0, k as int);
        assert(PassRun { memory: t.model(), state: s, actions: made@ } == run);
        s = pass_step(c, t, s, k, &mut made);
        k = k + 1;
    }
    proof {
        lemma_pass_stays(*c, m0, k as int, end as int);
        lemma_restart_from(c.index.recs@, c.reference + 1);
    }
    let result = match s.stopped {
        Some(j) => PassEnd { next: j + 1, cnt_zero: true, eosaf: false },
        None => {
            if end < n {
                t.read(c.index, end, &mut made);
                PassEnd { next: end, cnt_zero: false, eosaf: false }
            } else {
                Tracker::read_eof(c.index, &mut made);
                PassEnd { next: n, cnt_zero: false, eosaf: true }
            }
        },
    };
    out.append(&mut made);
    result
}

proof fn lemma_restart_from(recs: Seq<Rec>, from: int)
    requires
        0 <= from,
    ensures
        restart_from(recs, from) < recs.len() ==> recs[restart_from(recs, from)].kind
            == RecKind::Restart,
        restart_from(recs, from) <= recs.len() || from > recs.len(),
    decreases recs.len() - from,
{
    if from < recs.len() && recs[from].kind != RecKind::Restart {
        lemma_restart_from(recs, from + 1);
    }
}

/// What does not change while a file is read.
pub struct RunSetup<'a> {
    pub index: &'a RecordIndex,
    pub comments: bool,
    pub select: RecordSelect,
    pub passes: &'a Vec<Pass>,
}

/// A restart, where it is in the time range.
pub open spec fn restart_actions(rec: Rec, at: int, cpu: Option<u32>) -> Seq<Action> {
    if rec.in_range {
        seq![Action::Restart { rec: at as usize, cpu_nr: cpu }]
    } else {
        Seq::empty()
    }
}

/// A comment, where comments are shown and it is in the time range.
pub open spec fn comment_actions(comments: bool, rec: Rec, at: int) -> Seq<Action> {
    if comments && rec.in_range {
        seq![Action::Comment { rec: at as usize }]
    } else {
        Seq::empty()
    }
}

/// The first sample in the time range from the record `pos` on, what is remembered, and the
/// parts of the output before it.
pub open spec fn seek(c: RunSetup<'_>, m: Memory, pos: int) -> (Option<int>, Memory, Seq<Action>)
    decreases c.index.recs@.len() - pos,
{
    let recs = c.index.recs@;
    if pos < 0 || pos >= recs.len() {
        (None, m, Seq::empty())
    } else {
        let rec = recs[pos];
        let read = read_actions(*c.index, pos);
        let m1 = after_read(*c.index, m, pos);
        match rec.kind {
            RecKind::Restart => {
                let m2 = after_restart(m1, rec);
                let (found, left, rest) = seek(c, m2, pos + 1);
                (found, left, read + restart_actions(rec, pos, m2.cpu) + rest)
            },
            RecKind::Comment => {
                let (found, left, rest) = seek(c, m1, pos + 1);
                (found, left, read + comment_actions(c.comments, rec, pos) + rest)
            },
            RecKind::Stats => if rec.in_range {
                (Some(pos), m1, read)
            } else {
                let (found, left, rest) = seek(c, m1, pos + 1);
                (found, left, read + rest)
            },
        }
    }
}

/// The first `n` passes of a stretch: where the last one stops, what is remembered, and the
/// parts of the output. Without passes it is as if the file had ended.
pub open spec fn run_passes(c: RunSetup<'_>, m: Memory, reference: usize, n: int) -> (
    PassEnd,
    Memory,
    Seq<Action>,
)
    decreases n,
{
    if n <= 0 {
        (
            PassEnd { next: (reference + 1) as usize, cnt_zero: false, eosaf: true },
            m,
            Seq::empty(),
        )
    } else {
        let (_, m1, before) = run_passes(c, m, reference, n - 1);
        let pass = c.passes@[n - 1];
        let (end, m2, more) = pass_result(
            PassSetup {
                index: c.index,
                comments: c.comments,
                select: c.select,
                pass,
                reference,
            },
            m1,
        );
        (end, m2, before.push(Action::BeginPass { pass }) + more)
    }
}

/// What is left of a stretch from the record `pos` on once its passes have stopped: the next
/// restart, what is remembered, and the parts of the output. `None` where the file ends.
pub open spec fn skip_rest(c: RunSetup<'_>, m: Memory, pos: int) -> (
    Option<int>,
    Memory,
    Seq<Action>,
)
    decreases c.index.recs@.len() - pos,
{
    let recs = c.index.recs@;
    if pos < 0 || pos >= recs.len() {
        (None, m, read_actions(*c.index, recs.len() as int))
    } else {
        let rec = recs[pos];
        let read = read_actions(*c.index, pos);
        let m1 = after_read(*c.index, m, pos);
        match rec.kind {
            RecKind::Restart => (Some(pos), m1, read),
            RecKind::Comment => {
                let (found, left, rest) = skip_rest(c, m1, pos + 1);
                (found, left, read + comment_actions(c.comments, rec, pos) + rest)
            },
            RecKind::Stats => {
                let (found, left, rest) = skip_rest(c, m1, pos + 1);
                (found, left, read + rest)
            },
        }
    }
}

/// The stretch from the record `pos` on: the parts of the output, and where the next stretch
/// starts with what is remembered.
pub open spec fn stretch_from(c: RunSetup<'_>, m: Memory, pos: int) -> (
    Seq<Action>,
    Option<(int, Memory)>,
) {
    let recs = c.index.recs@;
    let (found, m1, lead) = seek(c, m, pos);
    match found {
        None => (lead + read_actions(*c.index, recs.len() as int), None),
        Some(reference) => {
            let (end, m2, body) = run_passes(c, m1, reference as usize, c.passes@.len() as int);
            let (closing, m3, rest) = if end.eosaf {
                (None, m2, Seq::empty())
            } else if end.cnt_zero {
                skip_rest(c, m2, end.next as int)
            } else {
                (Some(end.next as int), m2, Seq::empty())
            };
            match closing {
                None => (lead + body + rest, None),
                Some(p) => {
                    let m4 = after_restart(m3, recs[p]);
                    (
                        lead + body + rest + restart_actions(recs[p], p, m4.cpu),
                        Some((p + 1, m4)),
                    )
                },
            }
        },
    }
}

/// The parts of the output from the record `pos` on, stretch by stretch.
pub open spec fn script_from(c: RunSetup<'_>, m: Memory, pos: int) -> Seq<Action>
    decreases c.index.recs@.len() - pos,
{
    let (made, next) = stretch_from(c, m, pos);
    match next {
        Some((p, left)) => if pos < p <= c.index.recs@.len() {
            made + script_from(c, left, p)
        } else {
            made
        },
        None => made,
    }
}

fn put_restart(t: &mut Tracker, recs: &Vec<Rec>, at: usize, out: &mut Vec<Action>)
    requires
        at < recs@.len(),
    ensures
        final(t).model() == after_restart(old(t).model(), recs@[at as int]),
        final(out)@ == old(out)@ + restart_actions(
            recs@[at as int],
            at as int,
            after_restart(old(t).model(), recs@[at as int]).cpu,
        ),
{
    let ghost had = out@;
    let cpu_nr = t.restart(&recs[at]);
    if recs[at].in_range {
        out.push(Action::Restart { rec: at, cpu_nr });
    }
    assert(out@ =~= had + restart_actions(recs@[at as int], at as int, cpu_nr));
}

fn put_comment(comments: bool, recs: &Vec<Rec>, at: usize, out: &mut Vec<Action>)
    requires
        at < recs@.len(),
    ensures
        final(out)@ == old(out)@ + comment_actions(comments, recs@[at as int], at as int),
{
    let ghost had = out@;
    if comments && recs[at].in_range {
        out.push(Action::Comment { rec: at });
    }
    assert(out@ =~= had + comment_actions(comments, recs@[at as int], at as int));
}

/// Finds the first sample of a stretch. The parts of the output before it are appended.
fn seek_reference(c: &RunSetup<'_>, t: &mut Tracker, from: usize, out: &mut Vec<Action>) -> (r: Option<
    usize,
>)
    requires
        from <= c.index.recs@.len(),
    ensures
        ({
            let (found, m, actions) = seek(*c, old(t).model(), from as int);
            &&& match r {
                Some(i) => found == Some(i as int) && from <= i < c.index.recs@.len(),
                None => found is None,
            }
            &&& final(t).model() == m
            &&& final(out)@ == old(out)@ + actions
        }),
{
    let recs = &c.index.recs;
    let ghost start = out@;
    let ghost goal = seek(*c, t.model(), from as int);
    let mut pos: usize = from;
    while pos < recs.len()
        invariant
            from <= pos <= recs@.len(),
            recs == &c.index.recs,
            start == old(out)@,
            goal == seek(*c, old(t).model(), from as int),
            ({
                let now = seek(*c, t.model(), pos as int);
                &&& goal.0 == now.0
                &&& goal.1 == now.1
                &&& start + goal.2 == out@ + now.2
            }),
        decreases recs@.len() - pos,
    {
        let ghost here = seek(*c, t.model(), pos as int);
        let ghost had = out@;
        t.read(c.index, pos, out);
        match recs[pos].kind {
            RecKind::Restart => {
                put_restart(t, recs, pos, out);
            },
            RecKind::Comment => {
                put_comment(c.comments, recs, pos, out);
            },
            RecKind::Stats => {
                if recs[pos].in_range {
                    assert(out@ =~= had + here.2);
                    return Some(pos);
                }
            },
        }
        proof {
            let next = seek(*c, t.model(), pos + 1);
            assert(had + here.2 =~= out@ + next.2);
        }
        pos = pos + 1;
    }
    assert(out@ =~= start + goal.2);
    None
}

/// Finds the restart that ends a stretch. The parts of the output before it are appended.
fn skip_to_restart(c: &RunSetup<'_>, t: &mut Tracker, from: usize, out: &mut Vec<Action>) -> (r: Option<
    usize,
>)
    requires
        from <= c.index.recs@.len(),
    ensures
        ({
            let (found, m, actions) = skip_rest(*c, old(t).model(), from as int);
            &&& match r {
                Some(i) => found == Some(i as int) && from <= i < c.index.recs@.len(),
                None => found is None,
            }
            &&& final(t).model() == m
            &&& final(out)@ == old(out)@ + actions
        }),
{
    let recs = &c.index.recs;
    let ghost start = out@;
    let ghost goal = skip_rest(*c, t.model(), from as int);
    let mut pos: usize = from;
    while pos < recs.len()
        invariant
            from <= pos <= recs@.len(),
            recs == &c.index.recs,
            start == old(out)@,
            goal == skip_rest(*c, old(t).model(), from as int),
            ({
                let now = skip_rest(*c, t.model(), pos as int);
                &&& goal.0 == now.0
                &&& goal.1 == now.1
                &&& start + goal.2 == out@ + now.2
            }),
        decreases recs@.len() - pos,
    {
        let ghost here = skip_rest(*c, t.model(), pos as int);
        let ghost had = out@;
        t.read(c.index, pos, out);
        match recs[pos].kind {
            RecKind::Restart => {
                assert(out@ =~= had + here.2);
                return Some(pos);
            },
            RecKind::Comment => {
                put_comment(c.comments, recs, pos, out);
            },
            RecKind::Stats => {},
        }
        proof {
            let next = skip_rest(*c, t.model(), pos + 1);
            assert(had + here.2 =~= out@ + next.2);
        }
        pos = pos + 1;
    }
    Tracker::read_eof(c.index, out);
    assert(out@ =~= start + goal.2);
    None
}

/// Runs the passes of a stretch.
fn run_all(c: &RunSetup<'_>, t: &mut Tracker, reference: usize, out: &mut Vec<Action>) -> (r: PassEnd)
    requires
        reference < c.index.recs@.len(),
    ensures
        ({
            let (end, m, actions) = run_passes(
                *c,
                old(t).model(),
                reference,
                c.passes@.len() as int,
            );
            &&& r == end
            &&& final(t).model() == m
            &&& final(out)@ == old(out)@ + actions
        }),
        reference < r.next <= c.index.recs@.len(),
        !r.cnt_zero && !r.eosaf ==> r.next < c.index.recs@.len(),
{
    let ghost start = out@;
    let ghost m0 = t.model();
    let _len: usize = c.index.len();
    let mut end = PassEnd { next: reference + 1, cnt_zero: false, eosaf: true };
    let mut k: usize = 0;
    assert(out@ =~= start + run_passes(*c, m0, reference, 0).2);
    while k < c.passes.len()
        invariant
            k <= c.passes.len(),
            reference < c.index.recs@.len(),
            ({
                let (e, m, actions) = run_passes(*c, m0, reference, k as int);
                &&& end == e
                &&& t.model() == m
                &&& out@ == start + actions
            }),
            reference < end.next <= c.index.recs@.len(),
            !end.cnt_zero && !end.eosaf ==> end.next < c.index.recs@.len(),
        decreases c.passes.len() - k,
    {
        let pass = c.passes[k];
        out.push(Action::BeginPass { pass });
        let setup = PassSetup {
            index: c.index,
            comments: c.comments,
            select: c.select,
            pass,
            reference,
        };
        end = run_pass(&setup, t, out);
        k = k + 1;
        assert(out@ =~= start + run_passes(*c, m0, reference, k as int).2);
    }
    end
}

/// Handles the stretch from the record `pos` on, and returns where the next one starts.
fn run_stretch(c: &RunSetup<'_>, t: &mut Tracker, pos: usize, out: &mut Vec<Action>) -> (r: Option<
    usize,
>)
    requires
        pos <= c.index.recs@.len(),
    ensures
        ({
            let (made, next) = stretch_from(*c, old(t).model(), pos as int);
            &&& final(out)@ == old(out)@ + made
            &&& match r {
                Some(p) => next == Some((p as int, final(t).model())) && pos < p
                    <= c.index.recs@.len(),
                None => next is None,
            }
        }),
{
    let _len: usize = c.index.len();
    let ghost start = out@;
    let ghost m0 = t.model();
    let found = seek_reference(c, t, pos, out);
    let ghost (_, m1, lead) = seek(*c, m0, pos as int);
    let reference: usize = match found {
        None => {
            Tracker::read_eof(c.index, out);
            assert(out@ =~= start + (lead + read_actions(*c.index, c.index.recs@.len() as int)));
            return None;
        },
        Some(r) => r,
    };
    let end = run_all(c, t, reference, out);
    let ghost (_, m2, body) = run_passes(*c, m1, reference, c.passes@.len() as int);
    assert(out@ =~= start + (lead + body));
    let closing = if end.eosaf {
        None
    } else if end.cnt_zero {
        skip_to_restart(c, t, end.next, out)
    } else {
        Some(end.next)
    };
    let ghost rest = if end.eosaf || !end.cnt_zero {
        Seq::empty()
    } else {
        skip_rest(*c, m2, end.next as int).2
    };
    assert(out@ =~= start + (lead + body + rest));
    match closing {
        None => None,
        Some(p) => {
            let ghost m3 = t.model();
            put_restart(t, &c.index.recs, p, out);
            assert(out@ =~= start + (lead + body + rest + restart_actions(
                c.index.recs@[p as int],
                p as int,
                after_restart(m3, c.index.recs@[p as int]).cpu,
            )));
            Some(p + 1)
        },
    }
}

/// The parts of the output of a file in their order.
pub fn run(c: &RunSetup<'_>, t: Tracker) -> (r: Vec<Action>)
    ensures
        r@ == script_from(*c, t.model(), 0),
{
    let ghost goal = script_from(*c, t.model(), 0);
    let mut t = t;
    let mut out: Vec<Action> = Vec::new();
    let mut pos: usize = 0;
    let mut more = true;
    assert(goal =~= out@ + script_from(*c, t.model(), 0));
    while more
        invariant
            pos <= c.index.recs@.len(),
            more ==> goal == out@ + script_from(*c, t.model(), pos as int),
            !more ==> goal == out@,
        decreases
            c.index.recs@.len() - pos,
            if more {
                1int
            } else {
                0int
            },
    {
        let ghost had = out@;
        let ghost m = t.model();
        match run_stretch(c, &mut t, pos, &mut out) {
            Some(p) => {
                proof {
                    let made = stretch_from(*c, m, pos as int).0;
                    let rest = script_from(*c, t.model(), p as int);
                    assert(had + (made + rest) =~= out@ + rest);
                }
                pos = p;
            },
            None => {
                more = false;
            },
        }
    }
    out
}

/// The number of items that the file gives an activity; 0 where it does not have it.
pub open spec fn initial_count(file: Seq<(ActivityId, i32)>, id: ActivityId) -> u32
    decreases file.len(),
{
    if file.len() == 0 {
        0
    } else if file[0].0 == id {
        if file[0].1 > 0 {
            file[0].1 as u32
        } else {
            0
        }
    } else {
        initial_count(file.drop_first(), id)
    }
}

fn count_from_file(file: &Vec<(ActivityId, i32)>, id: ActivityId) -> (r: u32)
    ensures
        r == initial_count(file@, id),
{
    let mut k: usize = 0;
    assert(file@.skip(0) =~= file@);
    while k < file.len()
        invariant
            k <= file.len(),
            initial_count(file@, id) == initial_count(file@.skip(k as int), id),
        decreases file.len() - k,
    {
        proof {
            assert(file@.skip(k as int)[0] == file@[k as int]);
            assert(file@.skip(k as int).drop_first() =~= file@.skip(k + 1));
        }
        if file[k].0 == id {
            return if file[k].1 > 0 {
                file[k].1 as u32
            } else {
                0
            };
        }
        k = k + 1;
    }
    0
}

/// What is remembered before the first record.
pub open spec fn fresh_memory(
    file: Seq<(ActivityId, i32)>,
    followed: Seq<ActivityId>,
    cpu_nr: Option<u32>,
) -> Memory {
    Memory {
        frontier: None,
        acts: Seq::new(
            followed.len(),
            |i: int|
                ActState {
                    id: followed[i],
                    nr_ini: initial_count(file, followed[i]),
                    nr_alloc: initial_count(file, followed[i]),
                },
        ),
        cpu: cpu_nr,
    }
}

impl Tracker {
    /// Before the first record.
    pub fn new(
        file: &Vec<(ActivityId, i32)>,
        followed: &Vec<ActivityId>,
        cpu_nr: Option<u32>,
    ) -> (r: Self)
        ensures
            r.model() == fresh_memory(file@, followed@, cpu_nr),
    {
        let mut acts: Vec<ActState> = Vec::new();
        let mut i: usize = 0;
        while i < followed.len()
            invariant
                i <= followed.len(),
                acts@.len() == i,
                forall|k: int|
                    0 <= k < i ==> #[trigger] acts@[k] == fresh_memory(
                        file@,
                        followed@,
                        cpu_nr,
                    ).acts[k],
            decreases followed.len() - i,
        {
            let nr: u32 = count_from_file(file, followed[i]);
            acts.push(ActState { id: followed[i], nr_ini: nr, nr_alloc: nr });
            i = i + 1;
        }
        assert(acts@ =~= fresh_memory(file@, followed@, cpu_nr).acts);
        Tracker { frontier: None, acts, cpu: cpu_nr }
    }
}

/// The activities of the first `n` passes, each once.
pub open spec fn followed_by(passes: Seq<Pass>, n: int) -> Seq<ActivityId>
    decreases n,
{
    if n <= 0 {
        Seq::empty()
    } else {
        let before = followed_by(passes, n - 1);
        match passes[n - 1] {
            Pass::Activity { id, .. } => if listed(before, id) {
                before
            } else {
                before.push(id)
            },
            Pass::Horizontal => before,
        }
    }
}

/// The activities of the passes, each once.
pub fn followed_activities(passes: &Vec<Pass>) -> (r: Vec<ActivityId>)
    ensures
        r@ == followed_by(passes@, passes@.len() as int),
{
    let mut out: Vec<ActivityId> = Vec::new();
    let mut k: usize = 0;
    while k < passes.len()
        invariant
            k <= passes.len(),
            out@ == followed_by(passes@, k as int),
        decreases passes.len() - k,
    {
        if let Pass::Activity { id, .. } = passes[k] {
            if !list_contains(&out, id) {
                out.push(id);
            }
        }
        k = k + 1;
    }
    out
}

}
