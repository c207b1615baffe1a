//! The course of the formats that go by time: all activities of a sample together, then the
//! restarts and the comments.

use vstd::prelude::*;

use crate::sadf::records::{cpu_nr_after, restart_from, CpuNrTracker, Rec, RecKind, RecordIndex};
use crate::sadf::select::{slicer_after, slicer_at, slicer_takes, RecordSelect, Slicer};

verus! {

/// A sample after the first one of its stretch.
#[derive(Clone, Copy, PartialEq, Eq, Structural, Debug)]
pub enum Entry {
    /// It was read and is not shown.
    Hidden { rec: usize },
    /// It is shown, compared with the sample `prev`.
    Shown { rec: usize, prev: usize },
}

/// A restart, with the number of CPUs in force after it.
#[derive(Clone, Copy, PartialEq, Eq, Structural, Debug)]
pub struct RestartEntry {
    pub rec: usize,
    pub cpu_nr: Option<u32>,
}

/// What comes after the samples.
#[derive(Debug)]
pub struct Specials {
    pub restarts: Vec<RestartEntry>,
    pub comments: Vec<usize>,
}

/// The state of a stretch.
#[derive(Clone, Copy, PartialEq, Eq, Structural, Debug)]
pub struct BlockState {
    pub slicer: Slicer,
    /// The last sample that was shown, or the reference.
    pub prev: usize,
    pub remaining: Option<u64>,
    pub stopped: bool,
}

/// A stretch at its start.
pub open spec fn block_start(recs: Seq<Rec>, select: RecordSelect, reference: usize) -> BlockState {
    BlockState {
        slicer: slicer_at(select, recs[reference as int].uptime_cs),
        prev: reference,
        remaining: select.count,
        stopped: false,
    }
}

/// A stretch after the record `k`, and the entry that it makes. A sample that is not close to a
/// multiple of the interval is hidden, and so is the first one after the time range. There the
/// stretch stops, and after as many samples as were asked for.
pub open spec fn block_after(recs: Seq<Rec>, s: BlockState, k: usize) -> (BlockState, Option<Entry>) {
    let rec = recs[k as int];
    if rec.kind != RecKind::Stats {
        (s, None)
    } else {
        let seen = BlockState { slicer: slicer_after(s.slicer, rec.uptime_cs), ..s };
        if !slicer_takes(s.slicer, rec.uptime_cs) {
            (seen, Some(Entry::Hidden { rec: k }))
        } else if rec.past_end {
            (BlockState { stopped: true, ..seen }, Some(Entry::Hidden { rec: k }))
        } else {
            let left = match s.remaining {
                Some(n) => Some(
                    if n > 0 {
                        (n - 1) as u64
                    } else {
                        0u64
                    },
                ),
                None => None,
            };
            (
                BlockState { prev: k, remaining: left, stopped: left == Some(0u64), ..seen },
                Some(Entry::Shown { rec: k, prev: s.prev }),
            )
        }
    }
}

/// A list with one more entry, where there is one.
pub open spec fn with_entry(entries: Seq<Entry>, e: Option<Entry>) -> Seq<Entry> {
    match e {
        Some(x) => entries.push(x),
        None => entries,
    }
}

/// A stretch after the records before `n`, and its entries.
pub open spec fn block_upto(recs: Seq<Rec>, select: RecordSelect, reference: usize, n: int) -> (
    BlockState,
    Seq<Entry>,
)
    decreases n,
{
    if n <= reference + 1 {
        (block_start(recs, select, reference), Seq::empty())
    } else {
        let (s, entries) = block_upto(recs, select, reference, n - 1);
        if s.stopped {
            (s, entries)
        } else {
            let (t, e) = block_after(recs, s, (n - 1) as usize);
            (t, with_entry(entries, e))
        }
    }
}

/// The first sample in the time range from the record `pos` on.
pub open spec fn first_sample(recs: Seq<Rec>, pos: int) -> Option<int>
    decreases recs.len() - pos,
{
    if pos < 0 || pos >= recs.len() {
        None
    } else if recs[pos].kind == RecKind::Stats && recs[pos].in_range {
        Some(pos)
    } else {
        first_sample(recs, pos + 1)
    }
}

/// The entries from the record `pos` on: those of each stretch, up to the restart that ends it.
pub open spec fn entries_from(recs: Seq<Rec>, select: RecordSelect, pos: int) -> Seq<Entry>
    decreases recs.len() - pos,
{
    match first_sample(recs, pos) {
        None => Seq::empty(),
        Some(reference) => {
            let end = restart_from(recs, reference + 1);
            let here = block_upto(recs, select, reference as usize, end).1;
            if pos < end + 1 <= recs.len() {
                here + entries_from(recs, select, end + 1)
            } else {
                here
            }
        },
    }
}

/// The number of CPUs in force after the records before `n`.
pub open spec fn cpu_nr_upto(recs: Seq<Rec>, cpu_nr: Option<u32>, n: int) -> Option<u32>
    decreases n,
{
    if n <= 0 {
        cpu_nr
    } else if recs[n - 1].kind == RecKind::Restart {
        cpu_nr_after(cpu_nr_upto(recs, cpu_nr, n - 1), recs[n - 1].cpu_count)
    } else {
        cpu_nr_upto(recs, cpu_nr, n - 1)
    }
}

/// The restarts in the time range among the records before `n`.
pub open spec fn restarts_upto(recs: Seq<Rec>, cpu_nr: Option<u32>, n: int) -> Seq<RestartEntry>
    decreases n,
{
    if n <= 0 {
        Seq::empty()
    } else {
        let before = restarts_upto(recs, cpu_nr, n - 1);
        if recs[n - 1].kind == RecKind::Restart && recs[n - 1].in_range {
            before.push(
                RestartEntry { rec: (n - 1) as usize, cpu_nr: cpu_nr_upto(recs, cpu_nr, n) },
            )
        } else {
            before
        }
    }
}

/// The comments in the time range among the records before `n`.
pub open spec fn comments_upto(recs: Seq<Rec>, n: int) -> Seq<usize>
    decreases n,
{
    if n <= 0 {
        Seq::empty()
    } else if recs[n - 1].kind == RecKind::Comment && recs[n - 1].in_range {
        comments_upto(recs, n - 1).push((n - 1) as usize)
    } else {
        comments_upto(recs, n - 1)
    }
}

proof fn lemma_block_stays(recs: Seq<Rec>, select: RecordSelect, reference: usize, k: int, n: int)
    requires
        reference + 1 <= k <= n,
        k == n || block_upto(recs, select, reference, k).0.stopped,
    ensures
        block_upto(recs, select, reference, n) == block_upto(recs, select, reference, k),
    decreases n - k,
{
    if k < n {
        lemma_block_stays(recs, select, reference, k, n - 1);
    }
}

/// One stretch: from after the reference up to the restart that ends it. The entries are
/// appended to `out`.
pub fn run_block(
    index: &RecordIndex,
    select: RecordSelect,
    reference: usize,
    block_end: usize,
    out: &mut Vec<Entry>,
)
    requires
        reference < block_end <= index.recs@.len(),
    ensures
        final(out)@ == old(out)@ + block_upto(
            index.recs@,
            select,
            reference,
            block_end as int,
        ).1,
{
    let recs = &index.recs;
    let ghost start = out@;
    let mut s = BlockState {
        slicer: Slicer::new(select, recs[reference].uptime_cs),
        prev: reference,
        remaining: select.count,
        stopped: false,
    };
    let mut k: usize = reference + 1;
    assert(out@ =~= start + block_upto(recs@, select, reference, k as int).1);
    while k < block_end && !s.stopped
        invariant
            reference + 1 <= k <= block_end <= recs@.len(),
            recs == &index.recs,
            s.slicer.interval >= 1,
            s == block_upto(recs@, select, reference, k as int).0,
            out@ == start + block_upto(recs@, select, reference, k as int).1,
        decreases block_end - k,
    {
        let ghost had = out@;
        let rec = &recs[k];
        if rec.kind == RecKind::Stats {
            let taken = s.slicer.takes(rec.uptime_cs);
            if !taken {
                out.push(Entry::Hidden { rec: k });
            } else if rec.past_end {
                out.push(Entry::Hidden { rec: k });
                s.stopped = true;
            } else {
                out.push(Entry::Shown { rec: k, prev: s.prev });
                s.prev = k;
                if let Some(left) = s.remaining {
                    let left: u64 = if left > 0 {
                        left - 1
                    } else {
                        0
                    };
                    s.remaining = Some(left);
                    s.stopped = left == 0;
                }
            }
        }
        k = k + 1;
        assert(out@ =~= start + block_upto(recs@, select, reference, k as int).1);
    }
    proof {
        lemma_block_stays(recs@, select, reference, k as int, block_end as int);
    }
}

/// The first sample in the time range from the record `from` on.
pub(crate) fn find_first(recs: &Vec<Rec>, from: usize) -> (r: Option<usize>)
    requires
        from <= recs@.len(),
    ensures
        match r {
            Some(i) => first_sample(recs@, from as int) == Some(i as int) && from <= i
                < recs@.len(),
            None => first_sample(recs@, from as int) is None,
        },
{
    let mut k: usize = from;
    while k < recs.len()
        invariant
            from <= k <= recs@.len(),
            first_sample(recs@, from as int) == first_sample(recs@, k as int),
        decreases recs@.len() - k,
    {
        if recs[k].kind == RecKind::Stats && recs[k].in_range {
            return Some(k);
        }
        k = k + 1;
    }
    None
}

/// The samples of a file in their order, then its restarts and comments.
pub fn run(index: &RecordIndex, select: RecordSelect, comments: bool, cpu_nr: Option<u32>) -> (r: (
    Vec<Entry>,
    Specials,
))
    ensures
        r.0@ == entries_from(index.recs@, select, 0),
        r.1.restarts@ == restarts_upto(index.recs@, cpu_nr, index.recs@.len() as int),
        r.1.comments@ == if comments {
            comments_upto(index.recs@, index.recs@.len() as int)
        } else {
            Seq::empty()
        },
{
    let recs = &index.recs;
    let n: usize = recs.len();
    let mut out: Vec<Entry> = Vec::new();
    let mut pos: usize = 0;
    let mut more = true;
    let ghost goal = entries_from(recs@, select, 0);
    assert(goal =~= out@ + entries_from(recs@, select, 0));
    while more
        invariant
            n == recs@.len(),
            recs == &index.recs,
            pos <= n,
            more ==> goal == out@ + entries_from(recs@, select, pos as int),
            !more ==> goal == out@,
        decreases
            n - pos,
            if more {
                1int
            } else {
                0int
            },
    {
        let ghost had = out@;
        match find_first(recs, pos) {
            None => {
                more = false;
                assert(out@ =~= had + Seq::<Entry>::empty());
            },
            Some(reference) => {
                let end: usize = index.next_restart(reference + 1);
                run_block(index, select, reference, end, &mut out);
                proof {
                    let here = block_upto(recs@, select, reference, end as int).1;
                    let rest = entries_from(recs@, select, end + 1);
                    assert(had + (here + rest) =~= out@ + rest);
                }
                if end < n {
                    pos = end + 1;
                } else {
                    more = false;
                }
            },
        }
    }
    let specials = list_specials(recs, comments, cpu_nr);
    (out, specials)
}

fn list_specials(recs: &Vec<Rec>, show_comments: bool, cpu_nr: Option<u32>) -> (r: Specials)
    ensures
        r.restarts@ == restarts_upto(recs@, cpu_nr, recs@.len() as int),
        r.comments@ == if show_comments {
            comments_upto(recs@, recs@.len() as int)
        } else {
            Seq::empty()
        },
{
    let mut cpu = CpuNrTracker::new(cpu_nr);
    let mut restarts: Vec<RestartEntry> = Vec::new();
    let mut comments: Vec<usize> = Vec::new();
    let mut k: usize = 0;
    while k < recs.len()
        invariant
            k <= recs@.len(),
            cpu.cpu_nr == cpu_nr_upto(recs@, cpu_nr, k as int),
            restarts@ == restarts_upto(recs@, cpu_nr, k as int),
            comments@ == if show_comments {
                comments_upto(recs@, k as int)
            } else {
                Seq::empty()
            },
        decreases recs@.len() - k,
    {
        match recs[k].kind {
            RecKind::Restart => {
                let nr = cpu.take(recs[k].cpu_count);
                if recs[k].in_range {
                    restarts.push(RestartEntry { rec: k, cpu_nr: nr });
                }
            },
            RecKind::Comment => {
                if show_comments && recs[k].in_range {
                    comments.push(k);
                }
            },
            RecKind::Stats => {},
        }
        k = k + 1;
    }
    Specials { restarts, comments }
}

}
