//! What holds of the passes of a report.

use vstd::prelude::*;

use crate::sar_el7::report::{
    after_rec, average_step, pass_result, pass_upto, with_step, PassSetup, Shared, Step,
};

verus! {

/// The samples among parts of a report: each with the sample that it is compared with.
pub open spec fn samples_in(steps: Seq<Step>) -> Seq<(usize, usize)>
    decreases steps.len(),
{
    if steps.len() == 0 {
        Seq::empty()
    } else {
        let before = samples_in(steps.drop_last());
        match steps.last() {
            Step::Sample { rec, prev, .. } => before.push((rec, prev)),
            _ => before,
        }
    }
}

/// Whether there are averages among parts of a report.
pub open spec fn has_average(steps: Seq<Step>) -> bool {
    exists|i: int| 0 <= i < steps.len() && #[trigger] steps[i] is Average
}

/// Whether samples are a chain from the sample `first`: each comes after the one that it is
/// compared with, which is the one before it or the first.
pub open spec fn is_chain(samples: Seq<(usize, usize)>, first: usize) -> bool {
    forall|i: int|
        #![trigger samples[i]]
        0 <= i < samples.len() ==> samples[i].1 < samples[i].0 && samples[i].1 == if i == 0 {
            first
        } else {
            samples[i - 1].0
        }
}

/// The end of a chain from the sample `first`.
pub open spec fn chain_end(samples: Seq<(usize, usize)>, first: usize) -> usize {
    if samples.len() == 0 {
        first
    } else {
        samples.last().0
    }
}

proof fn lemma_samples_step(steps: Seq<Step>, s: Option<Step>)
    ensures
        samples_in(with_step(steps, s)) == (match s {
            Some(Step::Sample { rec, prev, .. }) => samples_in(steps).push((rec, prev)),
            _ => samples_in(steps),
        }),
{
    if let Some(x) = s {
        assert(steps.push(x).drop_last() =~= steps);
    }
}

proof fn lemma_pass(c: PassSetup<'_>, shared: Shared, n: int)
    requires
        n <= c.recs@.len() <= usize::MAX,
    ensures
        ({
            let (p, steps) = pass_upto(c, shared, n);
            let samples = samples_in(steps);
            &&& is_chain(samples, c.first)
            &&& p.prev_at == chain_end(samples, c.first)
            &&& n > c.first ==> p.prev_at < n
            &&& p.davg == samples.len()
            &&& n > c.first ==> samples.len() < n - c.first
            &&& n <= c.first ==> samples.len() == 0
            &&& !has_average(steps)
            &&& c.opts.count > 0 ==> {
                &&& p.cnt >= 0
                &&& samples.len() + p.cnt <= c.opts.count
                &&& p.end is None ==> p.cnt > 0
            }
            &&& shared.cross_day ==> p.shared.cross_day
        }),
    decreases n,
{
    if n > c.first + 1 {
        lemma_pass(c, shared, n - 1);
        let (p, steps) = pass_upto(c, shared, n - 1);
        if p.end is None {
            let k = (n - 1) as usize;
            let (q, s) = after_rec(c, p, k);
            lemma_samples_step(steps, s);
            assert(!(s matches Some(Step::Average { .. })));
            assert forall|i: int| 0 <= i < with_step(steps, s).len() implies !(
            #[trigger] with_step(steps, s)[i] is Average) by {
                if i < steps.len() {
                    assert(with_step(steps, s)[i] == steps[i]);
                }
            }
        }
    }
}

/// A pass compares each sample that it shows with the one that it has shown before, or with the
/// first of the stretch; it shows no more samples than were asked for; it ends with averages,
/// over as many samples as it has shown, exactly if it has shown any; and it does not forget
/// that midnight was passed.
pub proof fn law_samples_of_a_pass(c: PassSetup<'_>, shared: Shared)
    requires
        c.recs@.len() <= usize::MAX,
    ensures
        ({
            let (end, left, steps) = pass_result(c, shared);
            let samples = samples_in(steps);
            &&& is_chain(samples, c.first)
            &&& c.opts.count > 0 ==> samples.len() <= c.opts.count
            &&& samples.len() == 0 ==> !has_average(steps)
            &&& samples.len() > 0 ==> {
                &&& steps.last() matches Step::Average { first, last, count, .. }
                &&& first == c.first
                &&& last == samples.last().0
                &&& count == samples.len()
                &&& !has_average(steps.drop_last())
            }
            &&& shared.cross_day ==> left.cross_day
        }),
{
    let n = c.recs@.len() as int;
    lemma_pass(c, shared, n);
    let (p, steps) = pass_upto(c, shared, n);
    lemma_samples_step(steps, average_step(c, p));
    if p.davg > 0 {
        assert(steps.push(average_step(c, p)->0).drop_last() =~= steps);
    }
}

}
