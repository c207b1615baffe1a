//! What holds of the samples of a block.

use vstd::prelude::*;

use crate::doc::{Glyph, MeanModel};
use crate::model::ActivityId;
use crate::sar_text::block::{
    average_glyphs, average_lines, average_row, choice_after, choice_shown, find_state, is_fresh,
    is_matrix, shown_line, spots, state_models, states_after, states_after_all, summands,
    verdict_on, AverageFacts, Choice, EndFacts, LineModel, SampleHead, SarBlock, Spot, StateModel,
    Verdict,
};
use crate::sar_text::groups::{
    cpu_groups, grouping, recomputes_aggregate, Grouping, Primary, SampleItems,
};
use crate::sar_text::layout::{AvgKind, BlockView, Layout};
use crate::sar_text::lines::RowModel;
use crate::sar_text::options::{CpuSelection, SampleSelect};
use crate::sar_text::rows::KeyModel;

verus! {

/// The samples that a block has shown since its reference.
pub struct Course {
    pub choice: Choice,
    /// The reference sample.
    pub reference: usize,
    /// The samples shown, each with the one that it is compared with.
    pub shown: Seq<(usize, usize)>,
}

/// A block of which nothing has been read.
pub open spec fn course_start(select: SampleSelect) -> Course {
    Course {
        choice: Choice {
            first_uptime: None,
            slice_last_uptime: 0,
            slice_reset: true,
            remaining: select.count,
            held: None,
        },
        reference: 0,
        shown: Seq::empty(),
    }
}

/// A block after one more record, with the number of its items. What is to be shown is shown.
pub open spec fn course_after(c: Course, select: SampleSelect, head: SampleHead, items: int) -> Course {
    let read = choice_after(c.choice, select, head, items);
    match verdict_on(c.choice, select, head, items) {
        Verdict::Reference => Course { choice: read, reference: head.sample, shown: Seq::empty() },
        Verdict::Show { against } => Course {
            choice: choice_shown(read, select, head),
            reference: c.reference,
            shown: c.shown.push((head.sample, against.sample)),
        },
        _ => Course { choice: read, ..c },
    }
}

/// A block after its first `n` records.
pub open spec fn course_of(select: SampleSelect, records: Seq<(SampleHead, int)>, n: int) -> Course
    decreases n,
{
    if n <= 0 {
        course_start(select)
    } else {
        course_after(
            course_of(select, records, n - 1),
            select,
            records[n - 1].0,
            records[n - 1].1,
        )
    }
}

proof fn lemma_course(select: SampleSelect, records: Seq<(SampleHead, int)>, n: int)
    requires
        0 <= n <= records.len(),
    ensures
        ({
            let c = course_of(select, records, n);
            &&& c.choice.first_uptime is None ==> c.shown.len() == 0 && c.choice.remaining
                == select.count
            &&& select.count is None ==> c.choice.remaining is None
            &&& select.count matches Some(count) ==> {
                &&& c.choice.remaining matches Some(left)
                &&& c.shown.len() + left == count
            }
            &&& select.interval > 1 && c.choice.first_uptime is Some ==> {
                &&& c.choice.held matches Some(h)
                &&& h.sample == if c.shown.len() == 0 {
                    c.reference
                } else {
                    c.shown.last().0
                }
            }
            &&& select.interval > 1 ==> forall|i: int|
                0 <= i < c.shown.len() ==> (#[trigger] c.shown[i]).1 == if i == 0 {
                    c.reference
                } else {
                    c.shown[i - 1].0
                }
        }),
    decreases n,
{
    if n > 0 {
        lemma_course(select, records, n - 1);
    }
}

/// A block starts out as nothing read.
pub proof fn law_a_new_block_has_shown_nothing(b: SarBlock<'_>)
    requires
        is_fresh(b),
    ensures
        b.choice() == course_start(b.select).choice,
{
}

/// A block never shows more samples of a stretch than were asked for, whatever records it is
/// given and whatever items they have.
pub proof fn law_a_block_shows_no_more_than_asked(
    select: SampleSelect,
    records: Seq<(SampleHead, int)>,
    n: int,
)
    requires
        0 <= n <= records.len(),
    ensures
        select.count matches Some(count) ==> course_of(select, records, n).shown.len() <= count,
{
    lemma_course(select, records, n);
}

/// With an interval, each sample that a block shows is compared with the one that it has shown
/// before, or with the reference: a record that is left out is never compared with.
pub proof fn law_records_left_out_are_not_compared_with(
    select: SampleSelect,
    records: Seq<(SampleHead, int)>,
    n: int,
)
    requires
        0 <= n <= records.len(),
        select.interval > 1,
    ensures
        ({
            let c = course_of(select, records, n);
            forall|i: int|
                0 <= i < c.shown.len() ==> (#[trigger] c.shown[i]).1 == if i == 0 {
                    c.reference
                } else {
                    c.shown[i - 1].0
                }
        }),
{
    lemma_course(select, records, n);
}

/// A sample that a block has shown, with its lines that were shown.
pub struct ShownSample {
    pub sample: usize,
    pub rows: Seq<RowModel>,
}

/// The items of a block after samples were shown.
pub open spec fn states_of(states: Seq<StateModel>, shown: Seq<ShownSample>, minmax: bool) -> Seq<
    StateModel,
>
    decreases shown.len(),
{
    if shown.len() == 0 {
        states
    } else {
        states_after_all(
            states_of(states, shown.drop_last(), minmax),
            shown.last().rows,
            shown.last().sample,
            minmax,
        )
    }
}

/// The lines that are kept of an item.
pub open spec fn lines_kept(states: Seq<StateModel>, key: KeyModel) -> Seq<LineModel> {
    match find_state(states, key) {
        Some(p) => states[p].lines,
        None => Seq::empty(),
    }
}

/// The lines of an item among those of a sample.
pub open spec fn own_lines(rows: Seq<RowModel>, sample: usize, key: KeyModel) -> Seq<LineModel>
    decreases rows.len(),
{
    if rows.len() == 0 {
        Seq::empty()
    } else {
        let before = own_lines(rows.drop_last(), sample, key);
        if rows.last().key == key {
            before.push(shown_line(rows.last(), sample))
        } else {
            before
        }
    }
}

/// The lines of an item in samples.
pub open spec fn all_own_lines(shown: Seq<ShownSample>, key: KeyModel) -> Seq<LineModel>
    decreases shown.len(),
{
    if shown.len() == 0 {
        Seq::empty()
    } else {
        all_own_lines(shown.drop_last(), key) + own_lines(
            shown.last().rows,
            shown.last().sample,
            key,
        )
    }
}

proof fn lemma_found(states: Seq<StateModel>, key: KeyModel)
    ensures
        find_state(states, key) matches Some(p) ==> 0 <= p < states.len() && states[p].key == key,
    decreases states.len(),
{
    if states.len() > 0 {
        lemma_found(states.drop_last(), key);
    }
}

/// Which item has a key depends on the keys alone.
proof fn lemma_same_keys(a: Seq<StateModel>, b: Seq<StateModel>, key: KeyModel)
    requires
        a.len() == b.len(),
        forall|i: int| 0 <= i < a.len() ==> (#[trigger] a[i]).key == b[i].key,
    ensures
        find_state(a, key) == find_state(b, key),
    decreases a.len(),
{
    if a.len() > 0 {
        assert forall|i: int| 0 <= i < a.drop_last().len() implies (#[trigger] a.drop_last()[i]).key
            == b.drop_last()[i].key by {
            assert(a.drop_last()[i] == a[i]);
        }
        lemma_same_keys(a.drop_last(), b.drop_last(), key);
        assert(a[a.len() - 1].key == b[a.len() - 1].key);
    }
}

proof fn lemma_one_line(
    states: Seq<StateModel>,
    row: RowModel,
    sample: usize,
    minmax: bool,
    key: KeyModel,
)
    ensures
        lines_kept(states_after(states, row, sample, minmax), key) == if row.key == key {
            lines_kept(states, key).push(shown_line(row, sample))
        } else {
            lines_kept(states, key)
        },
{
    let after = states_after(states, row, sample, minmax);
    lemma_found(states, row.key);
    lemma_found(states, key);
    match find_state(states, row.key) {
        Some(i) => {
            assert forall|k: int| 0 <= k < states.len() implies (#[trigger] after[k]).key
                == states[k].key by {}
            lemma_same_keys(after, states, key);
        },
        None => {
            assert(after.drop_last() =~= states);
            if row.key == key {
                assert(lines_kept(after, key) =~= lines_kept(states, key).push(
                    shown_line(row, sample),
                ));
            }
        },
    }
}

proof fn lemma_sample_lines(
    states: Seq<StateModel>,
    rows: Seq<RowModel>,
    sample: usize,
    minmax: bool,
    key: KeyModel,
)
    ensures
        lines_kept(states_after_all(states, rows, sample, minmax), key) == lines_kept(states, key)
            + own_lines(rows, sample, key),
    decreases rows.len(),
{
    if rows.len() == 0 {
        assert(lines_kept(states, key) + Seq::<LineModel>::empty() =~= lines_kept(states, key));
    } else {
        let before = states_after_all(states, rows.drop_last(), sample, minmax);
        lemma_sample_lines(states, rows.drop_last(), sample, minmax, key);
        lemma_one_line(before, rows.last(), sample, minmax, key);
        assert(lines_kept(states_after_all(states, rows, sample, minmax), key) =~= lines_kept(
            states,
            key,
        ) + own_lines(rows, sample, key));
    }
}

/// What a block keeps of an item is each of its lines that was shown since the reference, in
/// their order, and nothing else: no line that was left out, and none of a record that was not
/// shown.
pub proof fn law_lines_shown_are_kept(
    states: Seq<StateModel>,
    shown: Seq<ShownSample>,
    minmax: bool,
    key: KeyModel,
)
    ensures
        lines_kept(states_of(states, shown, minmax), key) == lines_kept(states, key)
            + all_own_lines(shown, key),
    decreases shown.len(),
{
    if shown.len() == 0 {
        assert(lines_kept(states, key) + Seq::<LineModel>::empty() =~= lines_kept(states, key));
    } else {
        let last = shown.last();
        law_lines_shown_are_kept(states, shown.drop_last(), minmax, key);
        lemma_sample_lines(
            states_of(states, shown.drop_last(), minmax),
            last.rows,
            last.sample,
            minmax,
            key,
        );
        assert(lines_kept(states_of(states, shown, minmax), key) =~= lines_kept(states, key)
            + all_own_lines(shown, key));
    }
}

/// Where the averages of an item start from.
pub open spec fn start_kept(states: Seq<StateModel>, key: KeyModel) -> Option<Spot> {
    match find_state(states, key) {
        Some(p) => states[p].first,
        None => None,
    }
}

/// Whether the last line that is kept of an item is the one that its averages reach to.
pub open spec fn reaches_last_line(states: Seq<StateModel>, key: KeyModel) -> bool {
    lines_kept(states, key).len() > 0 ==> {
        let p = find_state(states, key)->0;
        &&& find_state(states, key) is Some
        &&& states[p].displayed
        &&& states[p].last == lines_kept(states, key).last().spot
    }
}

proof fn lemma_one_end(
    states: Seq<StateModel>,
    row: RowModel,
    sample: usize,
    minmax: bool,
    key: KeyModel,
)
    requires
        reaches_last_line(states, key),
    ensures
        start_kept(states_after(states, row, sample, minmax), key) == start_kept(states, key),
        reaches_last_line(states_after(states, row, sample, minmax), key),
{
    let after = states_after(states, row, sample, minmax);
    lemma_found(states, row.key);
    lemma_found(states, key);
    match find_state(states, row.key) {
        Some(i) => {
            assert forall|k: int| 0 <= k < states.len() implies (#[trigger] after[k]).key
                == states[k].key by {}
            lemma_same_keys(after, states, key);
        },
        None => {
            assert(after.drop_last() =~= states);
        },
    }
}

proof fn lemma_sample_ends(
    states: Seq<StateModel>,
    rows: Seq<RowModel>,
    sample: usize,
    minmax: bool,
    key: KeyModel,
)
    requires
        reaches_last_line(states, key),
    ensures
        start_kept(states_after_all(states, rows, sample, minmax), key) == start_kept(states, key),
        reaches_last_line(states_after_all(states, rows, sample, minmax), key),
    decreases rows.len(),
{
    if rows.len() > 0 {
        lemma_sample_ends(states, rows.drop_last(), sample, minmax, key);
        lemma_one_end(
            states_after_all(states, rows.drop_last(), sample, minmax),
            rows.last(),
            sample,
            minmax,
            key,
        );
    }
}

/// The averages of an item that are over time reach from where it stands at the reference, or
/// from 0 where it has come up later, to the last of its lines that was shown. Here `shown` are
/// the samples since the reference `states`, where nothing had been shown.
pub proof fn law_averages_reach_to_the_last_line(
    states: Seq<StateModel>,
    shown: Seq<ShownSample>,
    minmax: bool,
    key: KeyModel,
)
    requires
        forall|k: int| 0 <= k < states.len() ==> (#[trigger] states[k]).lines.len() == 0,
    ensures
        start_kept(states_of(states, shown, minmax), key) == start_kept(states, key),
        reaches_last_line(states_of(states, shown, minmax), key),
    decreases shown.len(),
{
    if shown.len() == 0 {
        lemma_found(states, key);
    } else {
        law_averages_reach_to_the_last_line(states, shown.drop_last(), minmax, key);
        lemma_sample_ends(
            states_of(states, shown.drop_last(), minmax),
            shown.last().rows,
            shown.last().sample,
            minmax,
            key,
        );
    }
}

pub(crate) proof fn lemma_average_line(
    view: BlockView,
    states: Seq<StateModel>,
    facts: Seq<AverageFacts>,
    count: u64,
    n: int,
    p: int,
)
    requires
        0 <= p < n <= states.len(),
        states[p].displayed,
        !facts[p].offline,
    ensures
        average_lines(view, states, facts, count, n).contains(
            (p, average_row(view, states[p], facts[p], count)),
        ),
    decreases n,
{
    let all = average_lines(view, states, facts, count, n);
    let wanted = (p, average_row(view, states[p], facts[p], count));
    let before = average_lines(view, states, facts, count, n - 1);
    if p < n - 1 {
        lemma_average_line(view, states, facts, count, n - 1, p);
        let k = choose|k: int| 0 <= k < before.len() && before[k] == wanted;
        assert(all[k] == wanted);
    } else {
        assert(all[all.len() - 1] == wanted);
    }
}

/// The mean of a column in the averages of an item is the sum of the values that the item was
/// shown with, divided by the number of samples that the block has shown, and not by the number
/// of those that the item was in. Here `shown` are the samples since the reference `states`,
/// where nothing had been shown.
pub proof fn law_means_divide_by_the_samples_shown(
    b: SarBlock<'_>,
    states: Seq<StateModel>,
    shown: Seq<ShownSample>,
    ends: EndFacts,
    key: KeyModel,
    i: int,
)
    requires
        state_models(b.items@) == states_of(states, shown, b.opts.minmax),
        forall|k: int| 0 <= k < states.len() ==> (#[trigger] states[k]).lines.len() == 0,
        b.displayed == shown.len(),
        !is_matrix(b.view),
        0 <= i < b.view.cells@.len(),
        b.view.cells@[i].avg == AvgKind::Mean,
        find_state(state_models(b.items@), key) is Some,
        state_models(b.items@)[find_state(state_models(b.items@), key)->0].displayed,
        !ends.items@[find_state(state_models(b.items@), key)->0].offline,
    ensures
        ({
            let items = state_models(b.items@);
            let p = find_state(items, key)->0;
            let row = average_row(b.view, items[p], ends.items@[p], b.displayed);
            let lines = all_own_lines(shown, key);
            &&& average_lines(b.view, items, ends.items@, b.displayed, items.len() as int).contains(
                (p, row),
            )
            &&& row.means[i] == (if summands(lines, i).len() > 0 {
                Some(MeanModel { summands: summands(lines, i), count: shown.len() as u64 })
            } else {
                None
            })
            &&& spots(items[p].lines) == spots(lines)
        }),
{
    let items = state_models(b.items@);
    lemma_found(items, key);
    lemma_found(states, key);
    law_lines_shown_are_kept(states, shown, b.opts.minmax, key);
    let p = find_state(items, key)->0;
    assert(lines_kept(states, key) =~= Seq::empty());
    assert(items[p].lines =~= all_own_lines(shown, key));
    lemma_average_line(b.view, items, ends.items@, b.displayed, items.len() as int, p);
}

/// Averages are shown once: after them a block has nothing to show until it has shown another
/// sample.
pub proof fn law_averages_are_shown_once(b: SarBlock<'_>, ends: EndFacts)
    requires
        b.displayed == 0,
    ensures
        average_glyphs(b, ends) == Seq::<Glyph>::empty(),
{
}

proof fn lemma_lines_by_cpu(g: Grouping, n: int)
    requires
        0 <= n <= usize::MAX,
    ensures
        forall|i: int|
            #![trigger cpu_groups(g, n)[i]]
            0 <= i < cpu_groups(g, n).len() ==> {
                let line = cpu_groups(g, n)[i];
                &&& 0 <= line.index < n
                &&& line.primary == if line.index == 0 && g.aggregated {
                    Primary::Aggregate
                } else {
                    Primary::Item(line.index as usize)
                }
            },
    decreases n,
{
    if n > 0 {
        lemma_lines_by_cpu(g, n - 1);
        let before = cpu_groups(g, n - 1);
        let all = cpu_groups(g, n);
        assert forall|j: int| 0 <= j < before.len() implies all[j] == #[trigger] before[j] by {
        }
    }
}

/// In a report by CPU, the first line goes by the sum over the CPUs where the first item is made
/// anew from the others, and by the first item itself in every other report but that on CPUs.
/// The line of a single CPU goes by its own item.
pub proof fn law_the_first_line_goes_by_the_sum(
    s: SampleItems<'_>,
    id: ActivityId,
    cpus: CpuSelection,
    irq_cols: Seq<usize>,
    i: int,
)
    requires
        s.suits(id),
        0 <= i < s.lines(Layout::Cpu, cpus, irq_cols).len(),
    ensures
        ({
            let line = s.lines(Layout::Cpu, cpus, irq_cols)[i];
            &&& recomputes_aggregate(id) && s.items@.len() > 1 && line.index == 0 ==> line.primary
                == Primary::Aggregate
            &&& id != ActivityId::CPU && !recomputes_aggregate(id) && line.index == 0
                ==> line.primary == Primary::Item(0)
            &&& line.index > 0 ==> line.primary == Primary::Item(line.index as usize)
        }),
{
    let g = grouping(
        Layout::Cpu,
        cpus,
        s.items@.len() as int,
        s.nr2,
        s.plan.names_interrupts(),
        irq_cols,
        s.aggregate is Some,
    );
    assert(s.items@.len() == s.items.len());
    lemma_lines_by_cpu(g, g.items);
    assert(s.lines(Layout::Cpu, cpus, irq_cols)[i] == cpu_groups(g, g.items)[i]);
}

}
