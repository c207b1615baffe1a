//! The end of the time range: of which samples it is asked whether they lie after it.

use vstd::prelude::*;

use crate::sadf::logic1::{
    block_after, block_start, block_upto, entries_from, find_first, first_sample, BlockState,
};
use crate::sadf::logic_laws::{lemma_restart_bounds, shown_in};
use crate::sadf::records::{restart_from, Rec, RecKind, RecordIndex};
use crate::sadf::select::{RecordSelect, Slicer};

verus! {

/// A stretch of samples: from a sample in the time range up to a restart.
#[derive(Debug)]
pub struct Stretch {
    /// The first sample. The others are compared with it or with one another.
    pub reference: usize,
    /// The samples that are shown where none of them lies after the time range, each with the
    /// sample that it is compared with.
    pub samples: Vec<(usize, usize)>,
}

/// A stretch of samples.
#[verifier::ext_equal]
pub struct StretchModel {
    pub reference: usize,
    pub samples: Seq<(usize, usize)>,
}

impl Stretch {
    pub open spec fn model(self) -> StretchModel {
        StretchModel { reference: self.reference, samples: self.samples@ }
    }
}

/// Stretches of samples.
pub open spec fn stretch_models(v: Seq<Stretch>) -> Seq<StretchModel> {
    Seq::new(v.len(), |i: int| v[i].model())
}

/// The records as they are where the time range has no end.
pub open spec fn endless(recs: Seq<Rec>) -> Seq<Rec> {
    Seq::new(recs.len(), |i: int| Rec { past_end: false, ..recs[i] })
}

/// The samples among the records before `n` that a stretch shows where none of them lies after
/// the time range, each with the sample that it is compared with.
pub open spec fn candidates(recs: Seq<Rec>, select: RecordSelect, reference: usize, n: int) -> Seq<
    (usize, usize),
> {
    shown_in(block_upto(endless(recs), select, reference, n).1)
}

/// The stretches from the record `pos` on.
pub open spec fn stretches_from(recs: Seq<Rec>, select: RecordSelect, pos: int) -> Seq<StretchModel>
    decreases recs.len() - pos,
{
    match first_sample(recs, pos) {
        None => Seq::empty(),
        Some(reference) => {
            let end = restart_from(recs, reference + 1);
            let here = StretchModel {
                reference: reference as usize,
                samples: candidates(recs, select, reference as usize, end),
            };
            if pos < end + 1 <= recs.len() {
                seq![here] + stretches_from(recs, select, end + 1)
            } else {
                seq![here]
            }
        },
    }
}

proof fn lemma_candidates_stay(
    recs: Seq<Rec>,
    select: RecordSelect,
    reference: usize,
    k: int,
    n: int,
)
    requires
        reference + 1 <= k <= n,
        k == n || block_upto(endless(recs), select, reference, k).0.stopped,
    ensures
        candidates(recs, select, reference, n) == candidates(recs, select, reference, k),
        block_upto(endless(recs), select, reference, n) == block_upto(
            endless(recs),
            select,
            reference,
            k,
        ),
    decreases n - k,
{
    if k < n {
        lemma_candidates_stay(recs, select, reference, k, n - 1);
    }
}

/// The samples of one stretch: from after the reference up to the restart that ends it.
fn list_candidates(
    index: &RecordIndex,
    select: RecordSelect,
    reference: usize,
    block_end: usize,
) -> (r: Vec<(usize, usize)>)
    requires
        reference < block_end <= index.recs@.len(),
    ensures
        r@ == candidates(index.recs@, select, reference, block_end as int),
{
    let recs = &index.recs;
    let ghost all = endless(recs@);
    let mut out: Vec<(usize, usize)> = Vec::new();
    let mut s = BlockState {
        slicer: Slicer::new(select, recs[reference].uptime_cs),
        prev: reference,
        remaining: select.count,
        stopped: false,
    };
    let mut k: usize = reference + 1;
    assert(s == block_start(all, select, reference));
    while k < block_end && !s.stopped
        invariant
            reference + 1 <= k <= block_end <= recs@.len(),
            recs == &index.recs,
            all == endless(recs@),
            s.slicer.interval >= 1,
            s == block_upto(all, select, reference, k as int).0,
            out@ == candidates(recs@, select, reference, k as int),
        decreases block_end - k,
    {
        let ghost before = block_upto(all, select, reference, k as int);
        let rec = &recs[k];
        if rec.kind == RecKind::Stats && s.slicer.takes(rec.uptime_cs) {
            out.push((k, s.prev));
            s.prev = k;
            if let Some(left) = s.remaining {
                let left: u64 = if left > 0 {
                    left - 1
                } else {
                    0
                };
                s.remaining = Some(left);
                s.stopped = left == 0;
            }
        }
        proof {
            if let Some(e) = block_after(all, before.0, k).1 {
                assert(before.1.push(e).drop_last() =~= before.1);
            }
        }
        k = k + 1;
    }
    proof {
        lemma_candidates_stay(recs@, select, reference, k as int, block_end as int);
    }
    out
}

/// The stretches of a file. Whether a sample lies after the end of the time range is asked of
/// the samples of a stretch in their order, each against the sample that it is compared with,
/// up to the first that does.
pub fn stretches(index: &RecordIndex, select: RecordSelect) -> (r: Vec<Stretch>)
    ensures
        stretch_models(r@) == stretches_from(index.recs@, select, 0),
{
    let recs = &index.recs;
    let n: usize = recs.len();
    let mut out: Vec<Stretch> = Vec::new();
    let mut pos: usize = 0;
    let mut more = true;
    let ghost goal = stretches_from(recs@, select, 0);
    assert(goal =~= stretch_models(out@) + stretches_from(recs@, select, 0));
    while more
        invariant
            n == recs@.len(),
            recs == &index.recs,
            pos <= n,
            more ==> goal == stretch_models(out@) + stretches_from(recs@, select, pos as int),
            !more ==> goal == stretch_models(out@),
        decreases
            n - pos,
            if more {
                1int
            } else {
                0int
            },
    {
        let ghost had = stretch_models(out@);
        match find_first(recs, pos) {
            None => {
                more = false;
                assert(stretch_models(out@) =~= had + Seq::<StretchModel>::empty());
            },
            Some(reference) => {
                let end: usize = index.next_restart(reference + 1);
                let samples = list_candidates(index, select, reference, end);
                let here = Stretch { reference, samples };
                out.push(here);
                proof {
                    let rest = stretches_from(recs@, select, end + 1);
                    assert(stretch_models(out@) =~= had + seq![here.model()]);
                    assert(had + (seq![here.model()] + rest) =~= stretch_models(out@) + rest);
                }
                if end < n {
                    pos = end + 1;
                } else {
                    more = false;
                }
            },
        }
    }
    out
}

/// What a stretch shows, against what it would show where the time range has no end.
spec fn cut_short(recs: Seq<Rec>, select: RecordSelect, reference: usize, n: int) -> bool {
    let (s, entries) = block_upto(recs, select, reference, n);
    let shown = shown_in(entries);
    let all = candidates(recs, select, reference, n);
    &&& shown.len() <= all.len()
    &&& shown =~= all.take(shown.len() as int)
    &&& forall|i: int|
        0 <= i < shown.len() ==> (#[trigger] shown[i]).0 < recs.len()
            && !recs[shown[i].0 as int].past_end
    &&& shown.len() < all.len() ==> s.stopped && all[shown.len() as int].0 < recs.len()
        && recs[all[shown.len() as int].0 as int].past_end
    &&& s == block_upto(endless(recs), select, reference, n).0 || (s.stopped && shown.len()
        < all.len())
}

proof fn lemma_cut_short(recs: Seq<Rec>, select: RecordSelect, reference: usize, n: int)
    requires
        reference < recs.len() <= usize::MAX,
        n <= recs.len(),
    ensures
        cut_short(recs, select, reference, n),
    decreases n,
{
    if n > reference + 1 {
        lemma_cut_short(recs, select, reference, n - 1);
        let k = (n - 1) as usize;
        let (s, entries) = block_upto(recs, select, reference, n - 1);
        let (t, others) = block_upto(endless(recs), select, reference, n - 1);
        if let Some(e) = block_after(recs, s, k).1 {
            assert(entries.push(e).drop_last() =~= entries);
        }
        if let Some(e) = block_after(endless(recs), t, k).1 {
            assert(others.push(e).drop_last() =~= others);
        }
    }
}

/// A stretch shows its samples up to the first that lies after the time range: what it shows is
/// the start of what it would show where the range had no end, no sample shown lies after the
/// range, and the one where it stops does.
pub proof fn law_the_time_range_cuts_a_stretch_short(
    recs: Seq<Rec>,
    select: RecordSelect,
    reference: usize,
    n: int,
)
    requires
        reference < recs.len() <= usize::MAX,
        n <= recs.len(),
    ensures
        ({
            let shown = shown_in(block_upto(recs, select, reference, n).1);
            let all = candidates(recs, select, reference, n);
            &&& shown.len() <= all.len()
            &&& shown == all.take(shown.len() as int)
            &&& forall|i: int|
                0 <= i < shown.len() ==> !recs[(#[trigger] shown[i]).0 as int].past_end
            &&& shown.len() < all.len() ==> recs[all[shown.len() as int].0 as int].past_end
        }),
{
    lemma_cut_short(recs, select, reference, n);
}

/// Whether two lists of records are told apart by nothing but by which samples lie after the
/// time range, and not by that on the samples listed.
pub open spec fn agree_on(a: Seq<Rec>, b: Seq<Rec>, samples: Seq<(usize, usize)>) -> bool {
    &&& endless(a) == endless(b)
    &&& forall|i: int|
        0 <= i < samples.len() ==> a[(#[trigger] samples[i]).0 as int].past_end
            == b[samples[i].0 as int].past_end
}

proof fn lemma_same_but_for_the_end(a: Seq<Rec>, b: Seq<Rec>, i: int)
    requires
        endless(a) == endless(b),
        0 <= i < a.len(),
    ensures
        a.len() == b.len(),
        a[i].kind == b[i].kind,
        a[i].in_range == b[i].in_range,
        a[i].uptime_cs == b[i].uptime_cs,
{
    let x = endless(a);
    let y = endless(b);
    assert(x.len() == a.len());
    assert(y.len() == b.len());
    assert(x[i] == Rec { past_end: false, ..a[i] });
    assert(y[i] == Rec { past_end: false, ..b[i] });
}

/// Of the records of a stretch only the samples that it would show are asked whether they lie
/// after the time range: lists of records that agree on those make the same entries.
pub proof fn law_only_candidates_are_asked(
    a: Seq<Rec>,
    b: Seq<Rec>,
    select: RecordSelect,
    reference: usize,
    n: int,
)
    requires
        reference < a.len() <= usize::MAX,
        n <= a.len(),
        agree_on(a, b, candidates(a, select, reference, n)),
    ensures
        block_upto(a, select, reference, n) == block_upto(b, select, reference, n),
    decreases n,
{
    lemma_same_but_for_the_end(a, b, reference as int);
    if n > reference + 1 {
        let k = (n - 1) as usize;
        let (t, others) = block_upto(endless(a), select, reference, n - 1);
        let before = candidates(a, select, reference, n - 1);
        let all = candidates(a, select, reference, n);
        let e = block_after(endless(a), t, k).1;
        if let Some(x) = e {
            assert(others.push(x).drop_last() =~= others);
        }
        assert(before.len() <= all.len() && before =~= all.take(before.len() as int));
        assert forall|i: int| 0 <= i < before.len() implies a[(#[trigger] before[i]).0 as int].past_end
            == b[before[i].0 as int].past_end by {
            assert(before[i] == all[i]);
        }
        law_only_candidates_are_asked(a, b, select, reference, n - 1);
        lemma_same_but_for_the_end(a, b, n - 1);
        lemma_cut_short(a, select, reference, n - 1);
        let s = block_upto(a, select, reference, n - 1).0;
        if !s.stopped {
            assert(s == t);
            if block_after(endless(a), t, k).1 is Some && e->0 is Shown {
                assert(all.last() == (k, t.prev));
                assert(all[all.len() - 1].0 == k);
            }
        }
    }
}

proof fn lemma_first_sample_is_the_same(a: Seq<Rec>, b: Seq<Rec>, pos: int)
    requires
        endless(a) == endless(b),
    ensures
        first_sample(a, pos) == first_sample(b, pos),
        first_sample(a, pos) matches Some(r) ==> pos <= r < a.len() && 0 <= r,
    decreases a.len() - pos,
{
    assert(endless(a).len() == a.len() && endless(b).len() == b.len());
    if 0 <= pos < a.len() {
        lemma_same_but_for_the_end(a, b, pos);
        lemma_first_sample_is_the_same(a, b, pos + 1);
    }
}

proof fn lemma_restart_is_the_same(a: Seq<Rec>, b: Seq<Rec>, from: int)
    requires
        endless(a) == endless(b),
        0 <= from,
    ensures
        restart_from(a, from) == restart_from(b, from),
    decreases a.len() - from,
{
    assert(endless(a).len() == a.len() && endless(b).len() == b.len());
    if from < a.len() {
        lemma_same_but_for_the_end(a, b, from);
        lemma_restart_is_the_same(a, b, from + 1);
    }
}

/// Of the records of a file only the samples of its stretches are asked whether they lie after
/// the time range: lists of records that agree on those make the same entries.
pub proof fn law_only_samples_of_stretches_are_asked(
    a: Seq<Rec>,
    b: Seq<Rec>,
    select: RecordSelect,
    pos: int,
)
    requires
        a.len() <= usize::MAX,
        endless(a) == endless(b),
        forall|j: int|
            0 <= j < stretches_from(a, select, pos).len() ==> agree_on(
                a,
                b,
                (#[trigger] stretches_from(a, select, pos)[j]).samples,
            ),
    ensures
        entries_from(a, select, pos) == entries_from(b, select, pos),
    decreases a.len() - pos,
{
    assert(endless(a).len() == a.len() && endless(b).len() == b.len());
    lemma_first_sample_is_the_same(a, b, pos);
    if let Some(r) = first_sample(a, pos) {
        let all = stretches_from(a, select, pos);
        let end = restart_from(a, r + 1);
        lemma_restart_is_the_same(a, b, r + 1);
        lemma_restart_bounds(a, r + 1);
        assert(all[0].samples == candidates(a, select, r as usize, end));
        law_only_candidates_are_asked(a, b, select, r as usize, end);
        if pos < end + 1 <= a.len() {
            let rest = stretches_from(a, select, end + 1);
            assert forall|j: int| 0 <= j < rest.len() implies agree_on(
                a,
                b,
                (#[trigger] rest[j]).samples,
            ) by {
                assert(all[j + 1] == rest[j]);
            }
            law_only_samples_of_stretches_are_asked(a, b, select, end + 1);
        }
    }
}

}
