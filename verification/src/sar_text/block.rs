//! The blocks of a report: an activity, or a part of it, between two restarts.

use vstd::prelude::*;

use crate::clock::RecordTime;
use crate::doc::{chars, Doc, Glyph, Mean, MeanModel};
use crate::model::{ActivityId, ComputeIssue, Computed, DecodePlan};
use crate::sadf::select::{effective_interval, next_slice, slice_taken};
use crate::sar_text::extremes::{
    any_set, extrema_values, extremes_after, extremes_shown, has_extrema, update_extremes,
    LARGEST_BITS, SMALLEST_BITS,
};
use crate::sar_text::groups::{
    group_models, ints, irq_column_list, irq_columns, GroupModel, ItemGroup, SampleItems,
};
use crate::sar_text::columns::{HUGE_TOTAL, MEM_TOTAL, SWP_TOTAL};
use crate::sar_text::header::{
    comment_line, comment_text, cpu_count, cpu_nr_of, header_line, header_text, restart_cpu_count,
    restart_line, restart_text, stamp_text, time_string, usb_header_line, usb_header_text,
    StarLabel,
};
use crate::sar_text::layout::{
    activity_models, models, AvgKind, AvgLabel, BlockView, HeaderPolicy, Layout,
};
use crate::sar_text::lines::{
    build_rows, copy_values, mean_models, render_row, render_rows, row_glyphs, row_models,
    rows_glyphs, rows_of,
    Comparison, LineFacts, Row, RowMode, RowModel,
};
use crate::sar_text::options::{SampleSelect, SarTextOptions};
use crate::sar_text::rows::{
    item_key, key_of, label_of, row_label, row_tail, tail_of, ItemKey, KeyModel, LabelModel,
    RowLabel, RowTail, TailModel,
};

verus! {

/// An item of a sample.
#[derive(Clone, Copy, PartialEq, Eq, Structural, Debug)]
pub struct Spot {
    /// The number of the record.
    pub sample: usize,
    /// The number of the line.
    pub index: usize,
}

/// A line of an item that was shown.
#[derive(Debug)]
pub struct ShownLine {
    /// Where its item stands.
    pub spot: Spot,
    /// Its values.
    pub values: Vec<Computed>,
}

/// What a [`ShownLine`] holds.
#[verifier::ext_equal]
pub struct LineModel {
    pub spot: Spot,
    pub values: Seq<Computed>,
}

impl ShownLine {
    pub open spec fn model(self) -> LineModel {
        LineModel { spot: self.spot, values: self.values@ }
    }
}

/// What a list of [`ShownLine`] holds.
pub open spec fn line_models(v: Seq<ShownLine>) -> Seq<LineModel> {
    Seq::new(v.len(), |i: int| v[i].model())
}

/// What is kept of an item for the line with its averages.
#[derive(Debug)]
pub struct ItemState {
    pub key: ItemKey,
    pub index: usize,
    pub label: RowLabel,
    pub tail: RowTail,
    /// Where averages start from. An item that has come up later starts from 0.
    pub first: Option<Spot>,
    /// Where the item was last shown.
    pub last: Spot,
    /// Whether the item has been shown.
    pub displayed: bool,
    /// The lines of the item that were shown since the reference sample.
    pub lines: Vec<ShownLine>,
    pub min: Vec<u64>,
    pub max: Vec<u64>,
}

/// What an [`ItemState`] holds.
#[verifier::ext_equal]
pub struct StateModel {
    pub key: KeyModel,
    pub index: int,
    pub label: LabelModel,
    pub tail: TailModel,
    pub first: Option<Spot>,
    pub last: Spot,
    pub displayed: bool,
    pub lines: Seq<LineModel>,
    pub min: Seq<u64>,
    pub max: Seq<u64>,
}

impl ItemState {
    pub open spec fn model(self) -> StateModel {
        StateModel {
            key: self.key.model(),
            index: self.index as int,
            label: self.label.model(),
            tail: self.tail.model(),
            first: self.first,
            last: self.last,
            displayed: self.displayed,
            lines: line_models(self.lines@),
            min: self.min@,
            max: self.max@,
        }
    }
}

/// What a list of [`ItemState`] holds.
pub open spec fn state_models(v: Seq<ItemState>) -> Seq<StateModel> {
    Seq::new(v.len(), |i: int| v[i].model())
}

/// The first item with a key.
pub open spec fn find_state(states: Seq<StateModel>, key: KeyModel) -> Option<int>
    decreases states.len(),
{
    if states.len() == 0 {
        None
    } else {
        match find_state(states.drop_last(), key) {
            Some(i) => Some(i),
            None => if states.last().key == key {
                Some(states.len() - 1)
            } else {
                None
            },
        }
    }
}

/// What is kept of a line that was shown.
pub open spec fn shown_line(row: RowModel, sample: usize) -> LineModel {
    LineModel { spot: Spot { sample, index: row.index as usize }, values: row.values }
}

/// An item after a line of it was shown.
pub open spec fn state_after(s: StateModel, row: RowModel, sample: usize, minmax: bool) -> StateModel {
    StateModel {
        key: s.key,
        index: row.index,
        label: row.label,
        tail: row.tail,
        first: s.first,
        last: Spot { sample, index: row.index as usize },
        displayed: true,
        lines: s.lines.push(shown_line(row, sample)),
        min: if minmax {
            extremes_after(s.min, row.values, true)
        } else {
            s.min
        },
        max: if minmax {
            extremes_after(s.max, row.values, false)
        } else {
            s.max
        },
    }
}

/// An item that has come up after the first sample.
pub open spec fn new_state(row: RowModel, sample: usize) -> StateModel {
    StateModel {
        key: row.key,
        index: row.index,
        label: row.label,
        tail: row.tail,
        first: None,
        last: Spot { sample, index: row.index as usize },
        displayed: false,
        lines: Seq::empty(),
        min: Seq::empty(),
        max: Seq::empty(),
    }
}

/// The items after a line was shown.
pub open spec fn states_after(
    states: Seq<StateModel>,
    row: RowModel,
    sample: usize,
    minmax: bool,
) -> Seq<StateModel> {
    match find_state(states, row.key) {
        Some(i) => states.update(i, state_after(states[i], row, sample, minmax)),
        None => states.push(state_after(new_state(row, sample), row, sample, minmax)),
    }
}

/// The items after the lines of a sample were shown.
pub open spec fn states_after_all(
    states: Seq<StateModel>,
    rows: Seq<RowModel>,
    sample: usize,
    minmax: bool,
) -> Seq<StateModel>
    decreases rows.len(),
{
    if rows.len() == 0 {
        states
    } else {
        states_after(
            states_after_all(states, rows.drop_last(), sample, minmax),
            rows.last(),
            sample,
            minmax,
        )
    }
}

fn position_of_state(states: &Vec<ItemState>, key: &ItemKey) -> (r: Option<usize>)
    ensures
        match r {
            Some(i) => find_state(state_models(states@), key.model()) == Some(i as int) && i
                < states@.len(),
            None => find_state(state_models(states@), key.model()) is None,
        },
{
    let ghost ms = state_models(states@);
    let mut found: Option<usize> = None;
    let mut i: usize = 0;
    assert(ms.take(0) =~= Seq::<StateModel>::empty());
    while i < states.len()
        invariant
            i <= states.len(),
            ms == state_models(states@),
            match found {
                Some(k) => find_state(ms.take(i as int), key.model()) == Some(k as int) && k
                    < states@.len(),
                None => find_state(ms.take(i as int), key.model()) is None,
            },
        decreases states.len() - i,
    {
        proof {
            assert(ms.take(i + 1).drop_last() =~= ms.take(i as int));
            assert(ms.take(i + 1).last() == states@[i as int].model());
        }
        if found.is_none() && states[i].key.same(key) {
            found = Some(i);
        }
        i = i + 1;
    }
    assert(ms.take(states@.len() as int) =~= ms);
    found
}

/// Takes a line that was shown into account.
pub fn accumulate(states: &mut Vec<ItemState>, row: &Row, sample: usize, minmax: bool)
    ensures
        state_models(final(states)@) == states_after(
            state_models(old(states)@),
            row.model(),
            sample,
            minmax,
        ),
{
    let ghost before = state_models(states@);
    let place = match position_of_state(states, &row.key) {
        Some(i) => i,
        None => {
            let blank = ItemState {
                key: row.key.copy(),
                index: row.index,
                label: row.label.copy(),
                tail: row.tail.copy(),
                first: None,
                last: Spot { sample, index: row.index },
                displayed: false,
                lines: Vec::new(),
                min: Vec::new(),
                max: Vec::new(),
            };
            assert(blank.model() =~= new_state(row.model(), sample));
            states.push(blank);
            assert(state_models(states@) =~= before.push(blank.model()));
            states.len() - 1
        },
    };
    let ghost now = state_models(states@);
    let ghost old_state = now[place as int];
    let mut s = states.remove(place);
    assert(s.model() == old_state);
    let ghost had = s.lines@;
    s.index = row.index;
    s.label = row.label.copy();
    s.tail = row.tail.copy();
    s.last = Spot { sample, index: row.index };
    s.displayed = true;
    let line = ShownLine { spot: s.last, values: copy_values(&row.values) };
    s.lines.push(line);
    assert(line_models(s.lines@) =~= line_models(had).push(line.model()));
    if minmax {
        s.min = update_extremes(&s.min, &row.values, true);
        s.max = update_extremes(&s.max, &row.values, false);
    }
    assert(s.model() =~= state_after(old_state, row.model(), sample, minmax));
    states.insert(place, s);
    assert(state_models(states@) =~= now.update(place as int, s.model()));
    assert(state_models(states@) =~= states_after(before, row.model(), sample, minmax));
}

/// The last sample that was shown, where samples are left out because of the interval.
#[derive(Clone, Copy, PartialEq, Eq, Structural, Debug)]
pub struct HeldSample {
    pub uptime_cs: u64,
    pub sample: usize,
}

/// A statistics record.
#[derive(Clone, Copy, Debug)]
pub struct SampleHead {
    /// The number of the record.
    pub sample: usize,
    pub time: RecordTime,
    pub uptime_cs: u64,
    /// The number of the statistics record before it.
    pub before: usize,
    /// Whether there is one.
    pub has_prev: bool,
    /// Whether nothing has come between the two.
    pub continuous: bool,
}

/// What becomes of a statistics record.
#[derive(Clone, Copy, PartialEq, Eq, Structural, Debug)]
pub enum Verdict {
    /// It does not hold the activity.
    Ignored,
    /// It is what later samples are compared with. It is not shown.
    Reference,
    /// As many samples as were asked for have been shown.
    Exhausted,
    /// It is not close to a multiple of the interval.
    Skipped,
    /// It has no items.
    Empty,
    /// It is shown, compared with the sample that it names.
    Show { against: HeldSample },
}

/// One block of a report.
#[derive(Debug)]
pub struct SarBlock<'a> {
    pub view: BlockView,
    pub opts: &'a SarTextOptions,
    pub select: SampleSelect,
    /// Whether the headings have been shown.
    pub header_done: bool,
    /// The timestamp of the sample before.
    pub prev_ts: String,
    /// The uptime at the reference sample.
    pub first_uptime: Option<u64>,
    /// The uptime at the last sample that was shown.
    pub last_uptime: u64,
    /// How many samples were shown.
    pub displayed: u64,
    pub slice_last_uptime: u64,
    pub slice_reset: bool,
    /// How many samples may still be shown.
    pub remaining: Option<u64>,
    pub held: Option<HeldSample>,
    /// The CPUs that have a column in the interrupt report.
    pub irq_cpu_cols: Vec<usize>,
    /// The reference sample.
    pub first_sample: usize,
    /// The last sample that was shown.
    pub last_sample: usize,
    /// The number of CPUs, plus one.
    pub file_cpu_nr: Option<u32>,
    /// How the first record that was read is laid out.
    pub shape: Option<PlanShape>,
    /// How many items the reference sample has, or the last sample that was shown.
    pub last_items: usize,
    pub items: Vec<ItemState>,
}

/// How a plan lays the interrupts of a file out.
pub open spec fn shape_of(plan: DecodePlan) -> PlanShape {
    PlanShape { nr2: plan.nr2, named: plan.names_interrupts() }
}

/// How the interrupts of a file are laid out.
#[derive(Clone, Copy, PartialEq, Eq, Structural, Debug)]
pub struct PlanShape {
    pub nr2: u32,
    /// Whether they have names.
    pub named: bool,
}

/// What the choice of the next sample of a block depends on.
pub struct Choice {
    /// The uptime at the reference sample.
    pub first_uptime: Option<u64>,
    pub slice_last_uptime: u64,
    pub slice_reset: bool,
    /// How many samples may still be shown.
    pub remaining: Option<u64>,
    /// The sample that the next one is compared with.
    pub held: Option<HeldSample>,
}

/// What becomes of a statistics record with this number of items.
pub open spec fn verdict_on(c: Choice, select: SampleSelect, head: SampleHead, items: int) -> Verdict {
    if !head.has_prev || !head.continuous || c.first_uptime is None {
        Verdict::Reference
    } else if c.remaining == Some(0u64) {
        Verdict::Exhausted
    } else if !slice_taken(
        c.first_uptime->0,
        head.uptime_cs,
        c.slice_reset,
        effective_interval(select.interval),
        c.slice_last_uptime,
    ) {
        Verdict::Skipped
    } else if items == 0 {
        Verdict::Empty
    } else {
        Verdict::Show {
            against: match c.held {
                Some(h) => h,
                None => HeldSample { uptime_cs: 0, sample: head.before },
            },
        }
    }
}

/// The sample that is held for the next one to be compared with. Where every record is shown,
/// none is held: the next one is compared with the record before it.
pub open spec fn held_after(select: SampleSelect, head: SampleHead, before: Option<HeldSample>) -> Option<
    HeldSample,
> {
    if select.interval <= 1 {
        before
    } else {
        Some(HeldSample { uptime_cs: head.uptime_cs, sample: head.sample })
    }
}

/// What the choice depends on once a record was read.
pub open spec fn choice_after(c: Choice, select: SampleSelect, head: SampleHead, items: int) -> Choice {
    match verdict_on(c, select, head, items) {
        Verdict::Reference => Choice {
            first_uptime: Some(head.uptime_cs),
            slice_last_uptime: 0,
            slice_reset: true,
            remaining: select.count,
            held: held_after(select, head, None),
        },
        Verdict::Exhausted => c,
        Verdict::Show { .. } => Choice {
            slice_last_uptime: head.uptime_cs,
            slice_reset: false,
            held: None,
            ..c
        },
        _ => Choice { slice_last_uptime: head.uptime_cs, slice_reset: false, ..c },
    }
}

/// What the choice depends on once a sample was shown.
pub open spec fn choice_shown(c: Choice, select: SampleSelect, head: SampleHead) -> Choice {
    Choice {
        remaining: match c.remaining {
            Some(n) => Some(
                if n > 0 {
                    (n - 1) as u64
                } else {
                    0
                },
            ),
            None => None,
        },
        held: held_after(select, head, c.held),
        ..c
    }
}

/// Whether nothing has been read yet for a block.
pub open spec fn is_fresh(b: SarBlock<'_>) -> bool {
    &&& !b.header_done
    &&& b.prev_ts@.len() == 0
    &&& b.first_uptime is None
    &&& b.last_uptime == 0
    &&& b.displayed == 0
    &&& b.slice_last_uptime == 0
    &&& b.slice_reset
    &&& b.remaining == b.select.count
    &&& b.held is None
    &&& b.irq_cpu_cols@.len() == 0
    &&& b.shape is None
    &&& b.last_items == 0
    &&& b.items@.len() == 0
}

/// The items at the reference sample.
pub open spec fn reference_state(
    view: BlockView,
    opts: SarTextOptions,
    s: SampleItems<'_>,
    sample: usize,
    g: GroupModel,
) -> StateModel {
    let item = s.lead(g);
    StateModel {
        key: key_of(view.id, *s.plan, item, g.index),
        index: g.index,
        label: label_of(view.head, view.id, opts, *s.plan, item, g.index),
        tail: tail_of(view.tail, view.id, opts, *s.plan, item, g.index),
        first: Some(Spot { sample, index: g.index as usize }),
        last: Spot { sample, index: g.index as usize },
        displayed: false,
        lines: Seq::empty(),
        min: Seq::empty(),
        max: Seq::empty(),
    }
}

/// The items at the reference sample.
pub open spec fn reference_states(
    view: BlockView,
    opts: SarTextOptions,
    s: SampleItems<'_>,
    sample: usize,
    lines: Seq<GroupModel>,
) -> Seq<StateModel> {
    Seq::new(lines.len(), |i: int| reference_state(view, opts, s, sample, lines[i]))
}

/// The headings of the CPUs.
pub open spec fn star_labels(cols: Seq<usize>) -> Seq<StarLabel> {
    Seq::new(
        cols.len(),
        |i: int|
            if cols[i] == 0 {
                StarLabel::Aggregate
            } else {
                StarLabel::Index((cols[i] - 1) as usize)
            },
    )
}

/// Those of the columns whose CPU is on.
pub open spec fn online_columns(cols: Seq<int>, online: Seq<bool>) -> Seq<int>
    decreases cols.len(),
{
    if cols.len() == 0 {
        Seq::empty()
    } else {
        let before = online_columns(cols.drop_last(), online);
        let c = cols.last();
        if 0 <= c < online.len() && online[c] {
            before.push(c)
        } else {
            before
        }
    }
}

fn keep_online(cols: &Vec<usize>, online: &Vec<bool>) -> (r: Vec<usize>)
    ensures
        ints(r@) == online_columns(ints(cols@), online@),
{
    let ghost all = ints(cols@);
    let mut out: Vec<usize> = Vec::new();
    let mut i: usize = 0;
    assert(all.take(0) =~= Seq::<int>::empty());
    assert(ints(out@) =~= online_columns(all.take(0), online@));
    while i < cols.len()
        invariant
            i <= cols.len(),
            all == ints(cols@),
            ints(out@) == online_columns(all.take(i as int), online@),
        decreases cols.len() - i,
    {
        let ghost before = ints(out@);
        let c: usize = cols[i];
        proof {
            assert(all.take(i + 1).drop_last() =~= all.take(i as int));
            assert(all.take(i + 1).last() == c);
        }
        if c < online.len() && online[c] {
            out.push(c);
            assert(ints(out@) =~= before.push(c as int));
        }
        i = i + 1;
        assert(ints(out@) == online_columns(all.take(i as int), online@));
    }
    assert(all.take(cols@.len() as int) =~= all);
    out
}

/// The columns of the interrupt report at a sample. With a CPU dimension, only those of the
/// CPUs that are on.
pub open spec fn irq_columns_at(
    opts: SarTextOptions,
    items: int,
    nr2: u32,
    named: bool,
    online: Seq<bool>,
) -> Seq<int> {
    let cols = irq_column_list(opts.cpus, items, nr2, named);
    if nr2 > 1 || named {
        online_columns(cols, online)
    } else {
        cols
    }
}

/// The columns that the ratios of an activity are made of besides those that are shown.
pub open spec fn ratio_columns(id: ActivityId) -> Seq<usize> {
    match id {
        ActivityId::MEMORY => seq![MEM_TOTAL, SWP_TOTAL],
        ActivityId::HUGE => seq![HUGE_TOTAL],
        _ => Seq::empty(),
    }
}

/// The columns that the ratios of an activity are made of besides those that are shown. Their
/// means are needed for [`AverageFacts::ratios`].
pub fn ratio_inputs(id: ActivityId) -> (r: Vec<usize>)
    ensures
        r@ == ratio_columns(id),
{
    let r: Vec<usize> = match id {
        ActivityId::MEMORY => vec![MEM_TOTAL, SWP_TOTAL],
        ActivityId::HUGE => vec![HUGE_TOTAL],
        _ => Vec::new(),
    };
    assert(r@ =~= ratio_columns(id));
    r
}

/// What is known of an item for the line with its averages. The means are not among it: the
/// block knows what they are made of.
#[derive(Debug)]
pub struct AverageFacts {
    /// The CPU is off at the first or at the last sample.
    pub offline: bool,
    /// For each column, the value over the time between them. A CPU that has not ticked between
    /// them counts as one that has ticked once.
    pub rates: Vec<Computed>,
    /// For each column, the ratio of means. They are over what stands in the file at the places
    /// that [`SarBlock::mean_places`] gives, divided by the number that it gives.
    pub ratios: Vec<Computed>,
    /// For each column, the last value seen.
    pub lasts: Vec<Computed>,
}

/// What is known at the end of a stretch of samples.
#[derive(Debug)]
pub struct EndFacts {
    /// For each CPU, whether it is on at the first and at the last sample.
    pub online: Vec<bool>,
    /// For each item of the block.
    pub items: Vec<AverageFacts>,
}

impl AverageFacts {
    /// Whether there is an average of each kind for each column.
    pub open spec fn covers(self, view: BlockView) -> bool {
        &&& view.cells@.len() <= self.rates@.len()
        &&& view.cells@.len() <= self.ratios@.len()
        &&& view.cells@.len() <= self.lasts@.len()
    }
}

/// The value of a column in a line.
pub open spec fn value_in(line: LineModel, i: int) -> Computed {
    if 0 <= i < line.values.len() {
        line.values[i]
    } else {
        Err(ComputeIssue::MissingInSample)
    }
}

/// The values of a column in lines, without those that are not known.
pub open spec fn summands(lines: Seq<LineModel>, i: int) -> Seq<u64>
    decreases lines.len(),
{
    if lines.len() == 0 {
        Seq::empty()
    } else {
        let before = summands(lines.drop_last(), i);
        match value_in(lines.last(), i) {
            Ok(v) => before.push(v),
            Err(_) => before,
        }
    }
}

/// The mean of a column: the sum of the values that were shown, divided by the number of samples
/// that the block has shown, whether the item was in them or not. None where no value is known.
pub open spec fn mean_of(lines: Seq<LineModel>, i: int, count: u64) -> Option<MeanModel> {
    if summands(lines, i).len() > 0 {
        Some(MeanModel { summands: summands(lines, i), count })
    } else {
        None
    }
}

/// What a column was last shown as.
pub open spec fn last_shown(lines: Seq<LineModel>, i: int) -> Computed {
    if lines.len() > 0 {
        value_in(lines.last(), i)
    } else {
        Err(ComputeIssue::MissingInSample)
    }
}

/// The average of a column that is no mean. Where no value of a mean is known, the column is
/// shown as it was last.
pub open spec fn average_value(kind: AvgKind, s: StateModel, f: AverageFacts, i: int) -> Computed {
    match kind {
        AvgKind::Rate => f.rates@[i],
        AvgKind::Mean => last_shown(s.lines, i),
        AvgKind::MeanRatio => f.ratios@[i],
        AvgKind::Last => f.lasts@[i],
    }
}

/// The mean of a column, where that is its average.
pub open spec fn average_mean(kind: AvgKind, s: StateModel, count: u64, i: int) -> Option<MeanModel> {
    if kind == AvgKind::Mean {
        mean_of(s.lines, i, count)
    } else {
        None
    }
}

/// Whether the values of a line stand for several items.
pub open spec fn is_matrix(view: BlockView) -> bool {
    view.layout == Layout::IrqMatrix || view.layout == Layout::FreqMatrix
}

/// The line with the averages of an item, of which `count` samples were shown: for each column
/// the one of its kind. Where the values of a line stand for several items, they all are over
/// the time between the first and the last sample.
pub open spec fn average_row(view: BlockView, s: StateModel, f: AverageFacts, count: u64) -> RowModel {
    RowModel {
        key: s.key,
        index: s.index,
        label: s.label,
        tail: s.tail,
        values: if is_matrix(view) {
            f.rates@
        } else {
            Seq::new(view.cells@.len(), |i: int| average_value(view.cells@[i].avg, s, f, i))
        },
        means: if is_matrix(view) {
            Seq::empty()
        } else {
            Seq::new(view.cells@.len(), |i: int| average_mean(view.cells@[i].avg, s, count, i))
        },
    }
}

/// The lines with the averages: of each item that was shown, unless its CPU is off at one of
/// the ends. Each comes with the position of its item.
pub open spec fn average_lines(
    view: BlockView,
    states: Seq<StateModel>,
    facts: Seq<AverageFacts>,
    count: u64,
    n: int,
) -> Seq<(int, RowModel)>
    decreases n,
{
    if n <= 0 {
        Seq::empty()
    } else {
        let before = average_lines(view, states, facts, count, n - 1);
        if states[n - 1].displayed && !facts[n - 1].offline {
            before.push((n - 1, average_row(view, states[n - 1], facts[n - 1], count)))
        } else {
            before
        }
    }
}

fn known_in(values: &Vec<Computed>, i: usize) -> (r: Computed)
    ensures
        r == value_in(LineModel { spot: Spot { sample: 0, index: 0 }, values: values@ }, i as int),
{
    if i < values.len() {
        values[i]
    } else {
        Err(ComputeIssue::MissingInSample)
    }
}

fn make_mean(lines: &Vec<ShownLine>, i: usize, count: u64) -> (r: Option<Mean>)
    ensures
        match r {
            Some(m) => mean_of(line_models(lines@), i as int, count) == Some(m.model()),
            None => mean_of(line_models(lines@), i as int, count) is None,
        },
{
    let ghost ms = line_models(lines@);
    let mut found: Vec<u64> = Vec::new();
    let mut k: usize = 0;
    assert(ms.take(0) =~= Seq::<LineModel>::empty());
    while k < lines.len()
        invariant
            k <= lines.len(),
            ms == line_models(lines@),
            found@ == summands(ms.take(k as int), i as int),
        decreases lines.len() - k,
    {
        proof {
            assert(ms.take(k + 1).drop_last() =~= ms.take(k as int));
            assert(ms.take(k + 1).last() == lines@[k as int].model());
        }
        if let Ok(v) = known_in(&lines[k].values, i) {
            found.push(v);
        }
        k = k + 1;
    }
    assert(ms.take(lines@.len() as int) =~= ms);
    if found.len() > 0 {
        let m = Mean { summands: found, count };
        assert(m.model() =~= MeanModel { summands: summands(ms, i as int), count });
        Some(m)
    } else {
        None
    }
}

fn make_average_row(view: &BlockView, state: &ItemState, f: &AverageFacts, count: u64) -> (r: Row)
    requires
        f.covers(*view),
    ensures
        r.model() == average_row(*view, state.model(), *f, count),
{
    let mut values: Vec<Computed> = Vec::new();
    let mut means: Vec<Option<Mean>> = Vec::new();
    let ghost s = state.model();
    match view.layout {
        Layout::IrqMatrix | Layout::FreqMatrix => {
            values = copy_values(&f.rates);
        },
        _ => {
            let mut i: usize = 0;
            while i < view.cells.len()
                invariant
                    i <= view.cells.len(),
                    f.covers(*view),
                    s == state.model(),
                    values@.len() == i,
                    means@.len() == i,
                    forall|k: int|
                        0 <= k < i ==> #[trigger] values@[k] == average_value(
                            view.cells@[k].avg,
                            s,
                            *f,
                            k,
                        ),
                    forall|k: int|
                        0 <= k < i ==> #[trigger] mean_models(means@)[k] == average_mean(
                            view.cells@[k].avg,
                            s,
                            count,
                            k,
                        ),
                decreases view.cells.len() - i,
            {
                let ghost had = mean_models(means@);
                let n: usize = state.lines.len();
                let kind = view.cells[i].avg;
                let v: Computed = match kind {
                    AvgKind::Rate => f.rates[i],
                    AvgKind::Mean => if n > 0 {
                        assert(s.lines.last() == state.lines@[n - 1].model());
                        known_in(&state.lines[n - 1].values, i)
                    } else {
                        Err(ComputeIssue::MissingInSample)
                    },
                    AvgKind::MeanRatio => f.ratios[i],
                    AvgKind::Last => f.lasts[i],
                };
                let m = match kind {
                    AvgKind::Mean => make_mean(&state.lines, i, count),
                    _ => None,
                };
                values.push(v);
                means.push(m);
                assert(mean_models(means@) =~= had.push(
                    average_mean(view.cells@[i as int].avg, s, count, i as int),
                ));
                i = i + 1;
            }
        },
    }
    let row = Row {
        key: state.key.copy(),
        index: state.index,
        label: state.label.copy(),
        tail: state.tail.copy(),
        values,
        means,
    };
    assert(row.model() =~= average_row(*view, s, *f, count));
    row
}

/// Whether what is known at the end of a stretch is known of each item of a block.
pub open spec fn fits(b: SarBlock<'_>, ends: EndFacts) -> bool {
    ends.items@.len() == b.items@.len() && forall|i: int|
        0 <= i < ends.items@.len() ==> (#[trigger] ends.items@[i]).covers(b.view)
}

/// What the line with the averages is called.
pub open spec fn average_title(label: AvgLabel, minmax: bool) -> Seq<char> {
    match label {
        AvgLabel::Average => "Average:"@,
        AvgLabel::Summary => "Summary:"@,
        AvgLabel::SummaryOrLast => if minmax {
            "Last:"@
        } else {
            "Summary:"@
        },
    }
}

/// Whether the activity shows its smallest and largest values. USB devices have none.
pub fn has_xstats(id: ActivityId) -> (r: bool)
    ensures
        r == (id != ActivityId::PWR_USB),
{
    id != ActivityId::PWR_USB
}

/// The headings of a block where the interrupt report has the columns `cols`.
pub open spec fn heading_of(view: BlockView, cols: Seq<usize>, timestamp: Seq<char>) -> Seq<char> {
    if view.id == ActivityId::PWR_USB {
        usb_header_text(timestamp)
    } else {
        header_text(
            timestamp,
            view.hdr_line@,
            view.pos as int,
            view.iwidth as int,
            view.ext,
            if view.layout == Layout::IrqMatrix {
                star_labels(cols)
            } else {
                Seq::empty()
            },
        )
    }
}

/// The averages of one item with its smallest and largest values: a heading, the two extremes
/// and the average. Without extremes, the average alone.
pub open spec fn minmax_glyphs(
    view: BlockView,
    opts: SarTextOptions,
    cols: Seq<usize>,
    title: Seq<char>,
    s: StateModel,
    row: RowModel,
) -> Seq<Glyph> {
    let n = row.values.len() as int;
    let low = RowModel {
        values: extremes_shown(s.min, n, LARGEST_BITS),
        means: Seq::empty(),
        ..row
    };
    let high = RowModel {
        values: extremes_shown(s.max, n, SMALLEST_BITS),
        means: Seq::empty(),
        ..row
    };
    (if any_set(s.min) {
        chars(heading_of(view, cols, "Summary:"@)) + row_glyphs(
            view,
            opts,
            "Minimum:"@,
            low,
            RowMode::Extreme,
        ) + row_glyphs(view, opts, "Maximum:"@, high, RowMode::Extreme)
    } else {
        Seq::empty()
    }) + row_glyphs(view, opts, title, row, RowMode::Average)
}

/// The averages of the first `n` lines with their smallest and largest values.
pub open spec fn minmax_lines(
    view: BlockView,
    opts: SarTextOptions,
    cols: Seq<usize>,
    title: Seq<char>,
    states: Seq<StateModel>,
    rows: Seq<(int, RowModel)>,
    n: int,
) -> Seq<Glyph>
    decreases n,
{
    if n <= 0 {
        Seq::empty()
    } else {
        minmax_lines(view, opts, cols, title, states, rows, n - 1) + minmax_glyphs(
            view,
            opts,
            cols,
            title,
            states[rows[n - 1].0],
            rows[n - 1].1,
        )
    }
}

/// The rows of the lines with the averages.
pub open spec fn only_rows(rows: Seq<(int, RowModel)>) -> Seq<RowModel> {
    Seq::new(rows.len(), |i: int| rows[i].1)
}

/// The end of a block: the averages, with the smallest and largest values where they were
/// asked for. Nothing where no sample was shown.
pub open spec fn average_glyphs(b: SarBlock<'_>, ends: EndFacts) -> Seq<Glyph> {
    let states = state_models(b.items@);
    let rows = average_lines(b.view, states, ends.items@, b.displayed, states.len() as int);
    let title = average_title(b.view.avg_label, b.opts.minmax);
    let cols = b.end_columns(ends.online@);
    if b.displayed == 0 {
        Seq::empty()
    } else if b.opts.minmax && b.view.id != ActivityId::PWR_USB {
        minmax_lines(b.view, *b.opts, cols, title, states, rows, rows.len() as int)
    } else {
        (if b.view.header == HeaderPolicy::EverySample {
            chars(heading_of(b.view, cols, title))
        } else {
            Seq::empty()
        }) + rows_glyphs(b.view, *b.opts, title, only_rows(rows), RowMode::Average)
    }
}

/// A record that holds no statistics.
#[derive(Debug)]
pub enum RecordEvent {
    Restart { time: RecordTime, cpu_count: Option<u32> },
    Comment { time: RecordTime, text: String },
}

impl<'a> SarBlock<'a> {
    /// The headings of the block.
    pub open spec fn heading(self, timestamp: Seq<char>) -> Seq<char> {
        heading_of(self.view, self.irq_cpu_cols@, timestamp)
    }

    /// The columns of the interrupt report in the averages: with a CPU dimension, those of the
    /// CPUs that are on at both ends.
    pub open spec fn end_columns(self, online: Seq<bool>) -> Seq<usize> {
        match self.shape {
            Some(p) => if self.view.layout == Layout::IrqMatrix && (p.nr2 > 1 || p.named) {
                usizes(
                    irq_columns_at(*self.opts, self.last_items as int, p.nr2, p.named, online),
                )
            } else {
                self.irq_cpu_cols@
            },
            None => self.irq_cpu_cols@,
        }
    }

    /// Whether what never changes in a block is the same in both.
    pub open spec fn same_setup(self, other: SarBlock<'_>) -> bool {
        &&& self.view == other.view
        &&& self.opts == other.opts
        &&& self.select == other.select
        &&& self.file_cpu_nr == other.file_cpu_nr
    }

    /// The blocks of an activity, with nothing read yet.
    pub fn blocks_for(
        id: ActivityId,
        opts: &'a SarTextOptions,
        file_cpu_nr: Option<u32>,
        select: SampleSelect,
    ) -> (r: Vec<SarBlock<'a>>)
        ensures
            r@.len() == activity_models(id, *opts).len(),
            forall|i: int|
                #![trigger r@[i]]
                0 <= i < r@.len() ==> {
                    &&& r@[i].view.model() == activity_models(id, *opts)[i]
                    &&& r@[i].opts == opts
                    &&& r@[i].select == select
                    &&& r@[i].file_cpu_nr == file_cpu_nr
                    &&& is_fresh(r@[i])
                },
    {
        let mut views = BlockView::all_for(id, opts);
        let ghost all = models(views@);
        let mut out: Vec<SarBlock<'a>> = Vec::new();
        while views.len() > 0
            invariant
                all == activity_models(id, *opts),
                out@.len() + views@.len() == all.len(),
                models(views@) == all.skip(out@.len() as int),
                forall|i: int|
                    #![trigger out@[i]]
                    0 <= i < out@.len() ==> {
                        &&& out@[i].view.model() == all[i]
                        &&& out@[i].opts == opts
                        &&& out@[i].select == select
                        &&& out@[i].file_cpu_nr == file_cpu_nr
                        &&& is_fresh(out@[i])
                    },
            decreases views.len(),
        {
            let ghost before = models(views@);
            let view = views.remove(0);
            proof {
                assert(before[0] == view.model());
                assert(models(views@) =~= before.skip(1));
                assert(all.skip(out@.len() as int)[0] == all[out@.len() as int]);
                assert(all.skip(out@.len() as int).skip(1) =~= all.skip((out@.len() + 1) as int));
            }
            out.push(
                SarBlock {
                    view,
                    opts,
                    select,
                    header_done: false,
                    prev_ts: String::new(),
                    first_uptime: None,
                    last_uptime: 0,
                    displayed: 0,
                    slice_last_uptime: 0,
                    slice_reset: true,
                    remaining: select.count,
                    held: None,
                    irq_cpu_cols: Vec::new(),
                    first_sample: 0,
                    last_sample: 0,
                    file_cpu_nr,
                    shape: None,
                    last_items: 0,
                    items: Vec::new(),
                },
            );
        }
        out
    }

    /// The activity of the block.
    pub fn activity(&self) -> (r: ActivityId)
        ensures
            r == self.view.id,
    {
        self.view.id
    }

    /// The headings of the block.
    pub fn header_for(&self, timestamp: &str) -> (r: String)
        ensures
            r@ == self.heading(timestamp@),
    {
        if self.view.id == ActivityId::PWR_USB {
            return usb_header_line(timestamp);
        }
        let mut star: Vec<StarLabel> = Vec::new();
        if self.view.layout == Layout::IrqMatrix {
            let mut i: usize = 0;
            while i < self.irq_cpu_cols.len()
                invariant
                    i <= self.irq_cpu_cols.len(),
                    star@ == star_labels(self.irq_cpu_cols@.take(i as int)),
                decreases self.irq_cpu_cols.len() - i,
            {
                let c: usize = self.irq_cpu_cols[i];
                if c == 0 {
                    star.push(StarLabel::Aggregate);
                } else {
                    star.push(StarLabel::Index(c - 1));
                }
                i = i + 1;
                assert(star@ =~= star_labels(self.irq_cpu_cols@.take(i as int)));
            }
            assert(self.irq_cpu_cols@.take(self.irq_cpu_cols@.len() as int)
                =~= self.irq_cpu_cols@);
        }
        assert(star@ =~= if self.view.layout == Layout::IrqMatrix {
            star_labels(self.irq_cpu_cols@)
        } else {
            Seq::empty()
        });
        header_line(
            timestamp,
            self.view.hdr_line,
            self.view.pos,
            self.view.iwidth,
            self.view.ext,
            &star,
        )
    }

    /// Makes a sample what later ones are compared with.
    fn adopt_reference(&mut self, head: &SampleHead, s: &SampleItems<'_>)
        requires
            s.items@.len() <= i64::MAX,
        ensures
            final(self).same_setup(*old(self)),
            final(self).header_done == old(self).header_done,
            final(self).displayed == old(self).displayed,
            final(self).prev_ts@ == stamp_text(head.time, old(self).opts.time),
            final(self).first_uptime == Some(head.uptime_cs),
            final(self).last_uptime == head.uptime_cs,
            final(self).slice_last_uptime == 0,
            final(self).slice_reset,
            final(self).remaining == old(self).select.count,
            final(self).held == (if old(self).select.interval <= 1 {
                None
            } else {
                Some(HeldSample { uptime_cs: head.uptime_cs, sample: head.sample })
            }),
            final(self).first_sample == head.sample,
            final(self).last_sample == head.sample,
            final(self).shape == old(self).shape,
            final(self).last_items == s.items@.len(),
            ints(final(self).irq_cpu_cols@) == (if old(self).view.layout == Layout::IrqMatrix {
                irq_column_list(
                    old(self).opts.cpus,
                    s.items@.len() as int,
                    s.nr2,
                    s.plan.names_interrupts(),
                )
            } else {
                ints(old(self).irq_cpu_cols@)
            }),
            state_models(final(self).items@) == reference_states(
                old(self).view,
                *old(self).opts,
                *s,
                head.sample,
                s.lines(old(self).view.layout, old(self).opts.cpus, final(self).irq_cpu_cols@),
            ),
    {
        self.first_uptime = Some(head.uptime_cs);
        self.last_uptime = head.uptime_cs;
        self.prev_ts = time_string(&head.time, self.opts.time);
        self.remaining = self.select.count;
        self.slice_reset = true;
        self.slice_last_uptime = 0;
        self.held = if self.select.selects_every_record() {
            None
        } else {
            Some(HeldSample { uptime_cs: head.uptime_cs, sample: head.sample })
        };
        self.first_sample = head.sample;
        self.last_sample = head.sample;
        self.last_items = s.items.len();
        if self.view.layout == Layout::IrqMatrix {
            self.irq_cpu_cols = irq_columns(
                &self.opts.cpus,
                s.items.len(),
                s.nr2,
                s.plan.has_irq_names(),
            );
        }
        let groups = s.groups(self.view.layout, &self.opts.cpus, &self.irq_cpu_cols);
        let ghost lines = group_models(groups@);
        let mut items: Vec<ItemState> = Vec::new();
        let mut i: usize = 0;
        while i < groups.len()
            invariant
                i <= groups.len(),
                lines == group_models(groups@),
                s.items@.len() <= i64::MAX,
                forall|k: int| 0 <= k < groups@.len() ==> s.holds(#[trigger] groups@[k].model()),
                forall|k: int|
                    0 <= k < groups@.len() ==> (#[trigger] groups@[k]).index < s.items@.len(),
                items@.len() == i,
                forall|k: int|
                    0 <= k < i ==> (#[trigger] items@[k]).model() == reference_state(
                        self.view,
                        *self.opts,
                        *s,
                        head.sample,
                        lines[k],
                    ),
            decreases groups.len() - i,
        {
            let g = &groups[i];
            let item = s.lead_item(g);
            let spot = Spot { sample: head.sample, index: g.index };
            let state = ItemState {
                key: item_key(self.view.id, s.plan, item, g.index),
                index: g.index,
                label: row_label(
                    self.view.head,
                    self.view.id,
                    self.opts,
                    s.plan,
                    item,
                    g.index,
                ),
                tail: row_tail(
                    self.view.tail,
                    self.view.id,
                    self.opts,
                    s.plan,
                    item,
                    g.index,
                ),
                first: Some(spot),
                last: spot,
                displayed: false,
                lines: Vec::new(),
                min: Vec::new(),
                max: Vec::new(),
            };
            proof {
                assert(lines[i as int] == g.model());
                assert(state.model() =~= reference_state(
                    self.view,
                    *self.opts,
                    *s,
                    head.sample,
                    lines[i as int],
                ));
            }
            items.push(state);
            i = i + 1;
        }
        assert(state_models(items@) =~= reference_states(
            self.view,
            *self.opts,
            *s,
            head.sample,
            lines,
        ));
        self.items = items;
    }

    /// What the choice of the next sample depends on.
    pub open spec fn choice(self) -> Choice {
        Choice {
            first_uptime: self.first_uptime,
            slice_last_uptime: self.slice_last_uptime,
            slice_reset: self.slice_reset,
            remaining: self.remaining,
            held: self.held,
        }
    }

    /// What becomes of a statistics record. Where it is shown, [`SarBlock::show`] is to follow.
    pub open spec fn verdict_of(self, head: SampleHead, items: int) -> Verdict {
        verdict_on(self.choice(), self.select, head, items)
    }

    /// Whether `after` is what a block has become by reading a statistics record with the items
    /// `s`, of which `r` has become.
    pub open spec fn has_read(
        self,
        after: SarBlock<'_>,
        head: SampleHead,
        s: SampleItems<'_>,
        r: Verdict,
    ) -> bool {
        &&& r == self.verdict_of(head, s.items@.len() as int)
        &&& after.choice() == choice_after(
            self.choice(),
            self.select,
            head,
            s.items@.len() as int,
        )
        &&& after.same_setup(self)
        &&& after.header_done == self.header_done
        &&& after.displayed == self.displayed
        &&& after.shape == (match self.shape {
            Some(p) => Some(p),
            None => Some(shape_of(*s.plan)),
        })
        &&& r is Reference ==> {
            &&& after.prev_ts@ == stamp_text(head.time, self.opts.time)
            &&& after.last_uptime == head.uptime_cs
            &&& after.first_sample == head.sample
            &&& after.last_sample == head.sample
            &&& after.last_items == s.items@.len()
            &&& state_models(after.items@) == reference_states(
                self.view,
                *self.opts,
                s,
                head.sample,
                s.lines(self.view.layout, self.opts.cpus, after.irq_cpu_cols@),
            )
            &&& ints(after.irq_cpu_cols@) == (if self.view.layout == Layout::IrqMatrix {
                irq_column_list(
                    self.opts.cpus,
                    s.items@.len() as int,
                    s.nr2,
                    s.plan.names_interrupts(),
                )
            } else {
                ints(self.irq_cpu_cols@)
            })
        }
        &&& !(r is Reference) ==> {
            &&& after.last_uptime == self.last_uptime
            &&& after.first_sample == self.first_sample
            &&& after.last_sample == self.last_sample
            &&& after.last_items == self.last_items
            &&& after.items == self.items
            &&& after.irq_cpu_cols == self.irq_cpu_cols
            &&& after.prev_ts@ == (if r is Empty {
                stamp_text(head.time, self.opts.time)
            } else {
                self.prev_ts@
            })
        }
    }

    /// Whether a sample can be read: it is one of the activity, and its items can be numbered.
    pub open spec fn can_read(self, s: SampleItems<'_>) -> bool {
        &&& s.suits(self.view.id)
        &&& s.items@.len() <= i64::MAX
    }

    /// Decides what becomes of a statistics record. One that does not hold the activity is
    /// ignored. A sample is not shown where there is nothing to compare it with, where enough
    /// have been shown, where it is not close to a multiple of the interval, and where it has no
    /// items. It is compared with the last sample that was shown.
    pub fn record(&mut self, head: &SampleHead, items: Option<&SampleItems<'_>>) -> (r: Verdict)
        requires
            items matches Some(s) ==> old(self).can_read(*s),
        ensures
            match items {
                None => r == Verdict::Ignored && *final(self) == *old(self),
                Some(s) => old(self).has_read(*final(self), *head, *s, r),
            },
    {
        match items {
            None => Verdict::Ignored,
            Some(s) => self.read_sample(head, s),
        }
    }

    fn read_sample(&mut self, head: &SampleHead, s: &SampleItems<'_>) -> (r: Verdict)
        requires
            old(self).can_read(*s),
        ensures
            old(self).has_read(*final(self), *head, *s, r),
    {
        if self.shape.is_none() {
            self.shape = Some(PlanShape { nr2: s.plan.nr2, named: s.plan.has_irq_names() });
        }
        let first: u64 = match self.first_uptime {
            Some(u) => u,
            None => {
                self.adopt_reference(head, s);
                return Verdict::Reference;
            },
        };
        if !head.has_prev || !head.continuous {
            self.adopt_reference(head, s);
            return Verdict::Reference;
        }
        if let Some(left) = self.remaining {
            if left == 0 {
                return Verdict::Exhausted;
            }
        }
        let mut last: u64 = self.slice_last_uptime;
        let taken = next_slice(
            first,
            head.uptime_cs,
            self.slice_reset,
            self.select.interval(),
            &mut last,
        );
        self.slice_last_uptime = last;
        self.slice_reset = false;
        if !taken {
            return Verdict::Skipped;
        }
        if s.items.len() == 0 {
            self.prev_ts = time_string(&head.time, self.opts.time);
            return Verdict::Empty;
        }
        let against = match self.held {
            Some(h) => h,
            None => HeldSample { uptime_cs: 0, sample: head.before },
        };
        self.held = None;
        Verdict::Show { against }
    }

    /// The columns of the interrupt report once a sample was read.
    pub open spec fn columns_at(self, s: SampleItems<'_>, online: Seq<bool>) -> Seq<usize> {
        if self.view.layout == Layout::IrqMatrix {
            usizes(
                irq_columns_at(
                    *self.opts,
                    s.items@.len() as int,
                    s.nr2,
                    s.plan.names_interrupts(),
                    online,
                ),
            )
        } else {
            self.irq_cpu_cols@
        }
    }

    /// The columns of the interrupt report once a sample was read.
    fn columns_now(&self, s: &SampleItems<'_>, online: &Vec<bool>) -> (r: Vec<usize>)
        ensures
            r@ == self.columns_at(*s, online@),
    {
        if self.view.layout == Layout::IrqMatrix {
            let named = s.plan.has_irq_names();
            let cols = irq_columns(&self.opts.cpus, s.items.len(), s.nr2, named);
            let cols = if s.nr2 > 1 || named {
                keep_online(&cols, online)
            } else {
                cols
            };
            assert(cols@ =~= usizes(ints(cols@)));
            cols
        } else {
            copy_numbers(&self.irq_cpu_cols)
        }
    }

    /// The lines that a sample would have. Their number is that of the facts that
    /// [`SarBlock::show`] takes.
    pub fn lines_at(&self, s: &SampleItems<'_>, online: &Vec<bool>) -> (r: Vec<ItemGroup>)
        requires
            s.suits(self.view.id),
        ensures
            group_models(r@) == s.lines(
                self.view.layout,
                self.opts.cpus,
                self.columns_at(*s, online@),
            ),
    {
        let cols = self.columns_now(s, online);
        s.groups(self.view.layout, &self.opts.cpus, &cols)
    }

    /// The lines of a sample that are shown. The interrupt report has none where it has no
    /// columns.
    pub open spec fn shown_rows(
        self,
        prev: SampleItems<'_>,
        curr: SampleItems<'_>,
        online: Seq<bool>,
        facts: Seq<LineFacts>,
    ) -> Seq<RowModel> {
        let cols = self.columns_at(curr, online);
        let lines = curr.lines(self.view.layout, self.opts.cpus, cols);
        if self.view.layout == Layout::IrqMatrix && cols.len() == 0 {
            Seq::empty()
        } else {
            rows_of(
                self.view,
                Comparison {
                    id: self.view.id,
                    opts: *self.opts,
                    prev,
                    prev_lines: prev.lines(self.view.layout, self.opts.cpus, cols),
                    curr,
                },
                lines,
                facts,
                lines.len() as int,
            )
        }
    }

    /// What is shown of a sample: the headings where they are due, and its lines. `cols` are the
    /// columns of the interrupt report.
    pub open spec fn sample_glyphs(
        self,
        cols: Seq<usize>,
        head: SampleHead,
        rows: Seq<RowModel>,
    ) -> Seq<Glyph> {
        if rows.len() == 0 {
            Seq::empty()
        } else {
            (if self.header_done && self.view.header == HeaderPolicy::Once {
                Seq::empty()
            } else {
                chars(heading_of(self.view, cols, self.prev_ts@))
            }) + rows_glyphs(
                self.view,
                *self.opts,
                stamp_text(head.time, self.opts.time),
                rows,
                RowMode::Instant,
            )
        }
    }

    /// Whether a sample can be shown with what is known of its lines.
    pub open spec fn can_show(
        self,
        prev: SampleItems<'_>,
        curr: SampleItems<'_>,
        online: Seq<bool>,
        facts: Seq<LineFacts>,
    ) -> bool {
        &&& prev.suits(self.view.id)
        &&& self.can_read(curr)
        &&& facts.len() == curr.lines(
            self.view.layout,
            self.opts.cpus,
            self.columns_at(curr, online),
        ).len()
        &&& self.displayed < u64::MAX
    }

    /// Whether `after` is what a block has become by showing a sample.
    pub open spec fn has_shown(
        self,
        after: SarBlock<'_>,
        head: SampleHead,
        prev: SampleItems<'_>,
        curr: SampleItems<'_>,
        online: Seq<bool>,
        facts: Seq<LineFacts>,
    ) -> bool {
        let rows = self.shown_rows(prev, curr, online, facts);
        &&& after.same_setup(self)
        &&& after.header_done == (self.header_done || rows.len() > 0)
        &&& after.choice() == choice_shown(self.choice(), self.select, head)
        &&& after.prev_ts@ == stamp_text(head.time, self.opts.time)
        &&& after.last_uptime == head.uptime_cs
        &&& after.displayed == self.displayed + 1
        &&& after.irq_cpu_cols@ == self.columns_at(curr, online)
        &&& after.first_sample == self.first_sample
        &&& after.last_sample == head.sample
        &&& after.shape == self.shape
        &&& after.last_items == curr.items@.len()
        &&& state_models(after.items@) == states_after_all(
            state_models(self.items@),
            rows,
            head.sample,
            self.opts.minmax,
        )
    }

    /// Shows a sample: the headings where they are due, and its lines. The sample counts as
    /// shown though all its lines may have been left out.
    pub fn show(
        &mut self,
        head: &SampleHead,
        prev: &SampleItems<'_>,
        curr: &SampleItems<'_>,
        online: &Vec<bool>,
        facts: &Vec<LineFacts>,
    ) -> (r: Doc)
        requires
            old(self).can_show(*prev, *curr, online@, facts@),
        ensures
            r@ == old(self).sample_glyphs(
                old(self).columns_at(*curr, online@),
                *head,
                old(self).shown_rows(*prev, *curr, online@, facts@),
            ),
            old(self).has_shown(*final(self), *head, *prev, *curr, online@, facts@),
    {
        let cols = self.columns_now(curr, online);
        let prev_lines = prev.groups(self.view.layout, &self.opts.cpus, &cols);
        let lines = curr.groups(self.view.layout, &self.opts.cpus, &cols);
        assert(lines@.len() == group_models(lines@).len());
        let rows = if self.view.layout == Layout::IrqMatrix && cols.len() == 0 {
            let none: Vec<Row> = Vec::new();
            assert(row_models(none@) =~= Seq::<RowModel>::empty());
            none
        } else {
            build_rows(&self.view, self.opts, prev, &prev_lines, curr, &lines, facts)
        };
        self.irq_cpu_cols = cols;
        assert(rows@.len() == row_models(rows@).len());
        let ts = time_string(&head.time, self.opts.time);
        let mut out = Doc::new();
        if rows.len() > 0 {
            if !self.header_done || self.view.header != HeaderPolicy::Once {
                out.put(self.header_for(self.prev_ts.as_str()).as_str());
                assert(out@ =~= chars(self.heading(self.prev_ts@)));
            }
            self.header_done = true;
            out.join(render_rows(&self.view, self.opts, ts.as_str(), &rows, RowMode::Instant));
        }
        self.commit_record(&rows, head.uptime_cs, head.sample, ts);
        self.last_items = curr.items.len();
        out
    }

    /// Counts a sample as shown.
    fn commit_record(&mut self, rows: &Vec<Row>, uptime_cs: u64, sample: usize, ts: String)
        requires
            old(self).displayed < u64::MAX,
        ensures
            final(self).same_setup(*old(self)),
            final(self).header_done == old(self).header_done,
            final(self).prev_ts@ == ts@,
            final(self).first_uptime == old(self).first_uptime,
            final(self).last_uptime == uptime_cs,
            final(self).displayed == old(self).displayed + 1,
            final(self).slice_last_uptime == old(self).slice_last_uptime,
            final(self).slice_reset == old(self).slice_reset,
            final(self).remaining == (match old(self).remaining {
                Some(n) => Some(
                    if n > 0 {
                        (n - 1) as u64
                    } else {
                        0
                    },
                ),
                None => None,
            }),
            final(self).held == (if old(self).select.interval <= 1 {
                old(self).held
            } else {
                Some(HeldSample { uptime_cs, sample })
            }),
            final(self).irq_cpu_cols == old(self).irq_cpu_cols,
            final(self).first_sample == old(self).first_sample,
            final(self).last_sample == sample,
            final(self).shape == old(self).shape,
            state_models(final(self).items@) == states_after_all(
                state_models(old(self).items@),
                row_models(rows@),
                sample,
                old(self).opts.minmax,
            ),
    {
        self.displayed = self.displayed + 1;
        self.last_uptime = uptime_cs;
        self.prev_ts = ts;
        self.remaining = match self.remaining {
            Some(n) => Some(
                if n > 0 {
                    n - 1
                } else {
                    0
                },
            ),
            None => None,
        };
        if !self.select.selects_every_record() {
            self.held = Some(HeldSample { uptime_cs, sample });
        }
        self.last_sample = sample;
        accumulate_all(&mut self.items, rows, sample, self.opts.minmax);
    }

    /// The lines with the averages, each with the position of its item.
    fn average_rows(&self, facts: &Vec<AverageFacts>) -> (r: Vec<(usize, Row)>)
        requires
            facts@.len() == self.items@.len(),
            forall|i: int| 0 <= i < facts@.len() ==> (#[trigger] facts@[i]).covers(self.view),
        ensures
            average_models(r@) == average_lines(
                self.view,
                state_models(self.items@),
                facts@,
                self.displayed,
                self.items@.len() as int,
            ),
            forall|i: int| 0 <= i < r@.len() ==> (#[trigger] r@[i]).0 < self.items@.len(),
    {
        let ghost states = state_models(self.items@);
        let ghost count = self.displayed;
        let mut out: Vec<(usize, Row)> = Vec::new();
        let mut i: usize = 0;
        assert(average_models(out@) =~= average_lines(self.view, states, facts@, count, 0));
        while i < self.items.len()
            invariant
                i <= self.items.len(),
                facts@.len() == self.items@.len(),
                forall|i: int| 0 <= i < facts@.len() ==> (#[trigger] facts@[i]).covers(self.view),
                states == state_models(self.items@),
                count == self.displayed,
                average_models(out@) == average_lines(self.view, states, facts@, count, i as int),
                forall|k: int| 0 <= k < out@.len() ==> (#[trigger] out@[k]).0 < self.items@.len(),
            decreases self.items.len() - i,
        {
            let ghost before = average_models(out@);
            let state = &self.items[i];
            let f = &facts[i];
            assert(states[i as int] == state.model());
            if state.displayed && !f.offline {
                let row = make_average_row(&self.view, state, f, self.displayed);
                out.push((i, row));
                assert(average_models(out@) =~= before.push((i as int, row.model())));
            }
            i = i + 1;
            assert(average_models(out@) == average_lines(
                self.view,
                states,
                facts@,
                count,
                i as int,
            ));
        }
        out
    }

    /// What the means of an item are over: where its lines that were shown stand, and the number
    /// that sums are divided by, which is how many samples the block has shown. The means of the
    /// columns of [`ratio_inputs`] are over the same places.
    pub fn mean_places(&self, item: usize) -> (r: (Vec<Spot>, u64))
        requires
            item < self.items@.len(),
        ensures
            r.0@ == spots(state_models(self.items@)[item as int].lines),
            r.1 == self.displayed,
    {
        let state = &self.items[item];
        let ghost ms = line_models(state.lines@);
        let mut out: Vec<Spot> = Vec::new();
        let mut i: usize = 0;
        while i < state.lines.len()
            invariant
                i <= state.lines@.len(),
                ms == line_models(state.lines@),
                out@ == spots(ms.take(i as int)),
            decreases state.lines.len() - i,
        {
            out.push(state.lines[i].spot);
            i = i + 1;
            assert(out@ =~= spots(ms.take(i as int)));
        }
        assert(ms.take(state.lines@.len() as int) =~= ms);
        (out, self.displayed)
    }

    /// The columns of the interrupt report in the averages. The rates of an interrupt in
    /// [`AverageFacts`] are those of these columns.
    pub fn columns_of_end(&self, online: &Vec<bool>) -> (r: Vec<usize>)
        ensures
            r@ == self.end_columns(online@),
    {
        match self.shape {
            Some(p) => if self.view.layout == Layout::IrqMatrix && (p.nr2 > 1 || p.named) {
                let cols = irq_columns(&self.opts.cpus, self.last_items, p.nr2, p.named);
                let cols = keep_online(&cols, online);
                assert(cols@ =~= usizes(ints(cols@)));
                cols
            } else {
                copy_numbers(&self.irq_cpu_cols)
            },
            None => copy_numbers(&self.irq_cpu_cols),
        }
    }

    /// The averages of an item with its smallest and largest values.
    fn minmax_block(&self, title: &str, state: &ItemState, row: &Row) -> (r: Doc)
        ensures
            r@ == minmax_glyphs(
                self.view,
                *self.opts,
                self.irq_cpu_cols@,
                title@,
                state.model(),
                row.model(),
            ),
    {
        let mut out = Doc::new();
        if has_extrema(&state.min) {
            let n: usize = row.values.len();
            let low = Row {
                key: row.key.copy(),
                index: row.index,
                label: row.label.copy(),
                tail: row.tail.copy(),
                values: extrema_values(&state.min, n, LARGEST_BITS),
                means: Vec::new(),
            };
            assert(mean_models(low.means@) =~= Seq::empty());
            let high = Row {
                key: row.key.copy(),
                index: row.index,
                label: row.label.copy(),
                tail: row.tail.copy(),
                values: extrema_values(&state.max, n, SMALLEST_BITS),
                means: Vec::new(),
            };
            assert(mean_models(high.means@) =~= Seq::empty());
            out = Doc::of(self.header_for("Summary:").as_str());
            out.join(render_row(&self.view, self.opts, "Minimum:", &low, RowMode::Extreme));
            out.join(render_row(&self.view, self.opts, "Maximum:", &high, RowMode::Extreme));
        }
        out.join(render_row(&self.view, self.opts, title, row, RowMode::Average));
        out
    }

    /// The averages with the smallest and largest values.
    fn write_minmax_average(&self, title: &str, rows: &Vec<(usize, Row)>) -> (r: Doc)
        requires
            forall|i: int| 0 <= i < rows@.len() ==> (#[trigger] rows@[i]).0 < self.items@.len(),
        ensures
            r@ == minmax_lines(
                self.view,
                *self.opts,
                self.irq_cpu_cols@,
                title@,
                state_models(self.items@),
                average_models(rows@),
                rows@.len() as int,
            ),
    {
        let ghost states = state_models(self.items@);
        let ghost ms = average_models(rows@);
        let mut out = Doc::new();
        let mut i: usize = 0;
        while i < rows.len()
            invariant
                i <= rows.len(),
                states == state_models(self.items@),
                ms == average_models(rows@),
                forall|i: int| 0 <= i < rows@.len() ==> (#[trigger] rows@[i]).0 < self.items@.len(),
                out@ == minmax_lines(
                    self.view,
                    *self.opts,
                    self.irq_cpu_cols@,
                    title@,
                    states,
                    ms,
                    i as int,
                ),
            decreases rows.len() - i,
        {
            let pos: usize = rows[i].0;
            assert(ms[i as int] == (pos as int, rows@[i as int].1.model()));
            assert(states[pos as int] == self.items@[pos as int].model());
            out.join(self.minmax_block(title, &self.items[pos], &rows[i].1));
            i = i + 1;
        }
        out
    }

    /// Ends a stretch of samples with the line of averages.
    pub fn finish(&mut self, ends: &EndFacts) -> (r: Doc)
        requires
            fits(*old(self), *ends),
        ensures
            r@ == average_glyphs(*old(self), *ends),
            final(self).displayed == 0,
            final(self).irq_cpu_cols@ == (if old(self).displayed > 0 {
                old(self).end_columns(ends.online@)
            } else {
                old(self).irq_cpu_cols@
            }),
            final(self).same_setup(*old(self)),
            final(self).header_done == old(self).header_done,
            final(self).prev_ts == old(self).prev_ts,
            final(self).choice() == old(self).choice(),
            final(self).last_uptime == old(self).last_uptime,
            final(self).first_sample == old(self).first_sample,
            final(self).last_sample == old(self).last_sample,
            final(self).shape == old(self).shape,
            final(self).last_items == old(self).last_items,
            final(self).items == old(self).items,
    {
        let mut out = Doc::new();
        if self.displayed > 0 {
            self.irq_cpu_cols = self.columns_of_end(&ends.online);
            out = self.flush_average(&ends.items);
        }
        self.displayed = 0;
        out
    }

    fn flush_average(&self, facts: &Vec<AverageFacts>) -> (r: Doc)
        requires
            facts@.len() == self.items@.len(),
            forall|i: int| 0 <= i < facts@.len() ==> (#[trigger] facts@[i]).covers(self.view),
        ensures
            r@ == ({
                let states = state_models(self.items@);
                let rows = average_lines(
                    self.view,
                    states,
                    facts@,
                    self.displayed,
                    states.len() as int,
                );
                let title = average_title(self.view.avg_label, self.opts.minmax);
                if self.opts.minmax && self.view.id != ActivityId::PWR_USB {
                    minmax_lines(
                        self.view,
                        *self.opts,
                        self.irq_cpu_cols@,
                        title,
                        states,
                        rows,
                        rows.len() as int,
                    )
                } else {
                    (if self.view.header == HeaderPolicy::EverySample {
                        chars(self.heading(title))
                    } else {
                        Seq::empty()
                    }) + rows_glyphs(
                        self.view,
                        *self.opts,
                        title,
                        only_rows(rows),
                        RowMode::Average,
                    )
                }
            }),
    {
        let title = match self.view.avg_label {
            AvgLabel::Average => "Average:",
            AvgLabel::Summary => "Summary:",
            AvgLabel::SummaryOrLast => if self.opts.minmax {
                "Last:"
            } else {
                "Summary:"
            },
        };
        let rows = self.average_rows(facts);
        assert(state_models(self.items@).len() == self.items@.len());
        if self.opts.minmax && has_xstats(self.view.id) {
            return self.write_minmax_average(title, &rows);
        }
        let mut out = Doc::new();
        if self.view.header == HeaderPolicy::EverySample {
            out = Doc::of(self.header_for(title).as_str());
        }
        out.join(average_text(&self.view, self.opts, title, &rows));
        out
    }

    /// Handles a record that holds no statistics. A restart ends the stretch of samples with
    /// its averages; a comment is shown where comments are.
    pub fn event(&mut self, ev: &RecordEvent, ends: &EndFacts) -> (r: Doc)
        requires
            ev is Restart ==> fits(*old(self), *ends),
        ensures
            final(self).same_setup(*old(self)),
            match *ev {
                RecordEvent::Restart { time, cpu_count: n } => {
                    &&& r@ == average_glyphs(*old(self), *ends) + chars(
                        restart_text(
                            stamp_text(time, old(self).opts.time),
                            cpu_count(cpu_nr_of(n, old(self).file_cpu_nr)),
                        ),
                    )
                    &&& final(self).displayed == 0
                    &&& final(self).first_uptime is None
                    &&& !final(self).header_done
                    &&& final(self).remaining == old(self).select.count
                    &&& final(self).slice_reset
                    &&& final(self).slice_last_uptime == 0
                    &&& final(self).held is None
                    &&& final(self).shape == old(self).shape
                    &&& final(self).last_items == 0
                    &&& final(self).items@.len() == 0
                    &&& final(self).prev_ts@ == old(self).prev_ts@
                    &&& final(self).last_uptime == old(self).last_uptime
                    &&& final(self).first_sample == old(self).first_sample
                    &&& final(self).last_sample == old(self).last_sample
                    &&& final(self).irq_cpu_cols@ == (if old(self).displayed > 0 {
                        old(self).end_columns(ends.online@)
                    } else {
                        old(self).irq_cpu_cols@
                    })
                },
                RecordEvent::Comment { time, text } => {
                    &&& r@ == (if old(self).opts.comment {
                        chars(comment_text(stamp_text(time, old(self).opts.time), text@))
                    } else {
                        Seq::empty()
                    })
                    &&& *final(self) == *old(self)
                },
            },
    {
        match ev {
            RecordEvent::Restart { time, cpu_count } => {
                let mut out = self.finish(ends);
                let ts = time_string(time, self.opts.time);
                let n: u32 = restart_cpu_count(*cpu_count, self.file_cpu_nr);
                out.put(restart_line(ts.as_str(), n).as_str());
                self.reset_region();
                out
            },
            RecordEvent::Comment { time, text } => {
                if self.opts.comment {
                    let ts = time_string(time, self.opts.time);
                    Doc::of(comment_line(ts.as_str(), text.as_str()).as_str())
                } else {
                    Doc::new()
                }
            },
        }
    }

    /// Forgets a stretch of samples.
    fn reset_region(&mut self)
        ensures
            final(self).same_setup(*old(self)),
            final(self).displayed == 0,
            final(self).first_uptime is None,
            !final(self).header_done,
            final(self).remaining == old(self).select.count,
            final(self).slice_reset,
            final(self).slice_last_uptime == 0,
            final(self).held is None,
            final(self).shape == old(self).shape,
            final(self).last_items == 0,
            final(self).items@.len() == 0,
            final(self).prev_ts == old(self).prev_ts,
            final(self).last_uptime == old(self).last_uptime,
            final(self).first_sample == old(self).first_sample,
            final(self).last_sample == old(self).last_sample,
            final(self).irq_cpu_cols == old(self).irq_cpu_cols,
    {
        self.items = Vec::new();
        self.last_items = 0;
        self.displayed = 0;
        self.first_uptime = None;
        self.header_done = false;
        self.remaining = self.select.count;
        self.slice_reset = true;
        self.slice_last_uptime = 0;
        self.held = None;
    }
}

/// Where lines stand.
pub open spec fn spots(lines: Seq<LineModel>) -> Seq<Spot> {
    Seq::new(lines.len(), |i: int| lines[i].spot)
}

/// The numbers of a list.
pub open spec fn usizes(v: Seq<int>) -> Seq<usize> {
    Seq::new(v.len(), |i: int| v[i] as usize)
}

/// A copy of a list of numbers.
pub fn copy_numbers(v: &Vec<usize>) -> (r: Vec<usize>)
    ensures
        r@ == v@,
{
    let mut out: Vec<usize> = Vec::new();
    let mut i: usize = 0;
    while i < v.len()
        invariant
            i <= v.len(),
            out@ == v@.take(i as int),
        decreases v.len() - i,
    {
        out.push(v[i]);
        i = i + 1;
        assert(out@ =~= v@.take(i as int));
    }
    assert(v@.take(v@.len() as int) =~= v@);
    out
}

/// What the lines with the averages hold.
pub open spec fn average_models(v: Seq<(usize, Row)>) -> Seq<(int, RowModel)> {
    Seq::new(v.len(), |i: int| (v[i].0 as int, v[i].1.model()))
}

fn average_text(
    view: &BlockView,
    opts: &SarTextOptions,
    title: &str,
    rows: &Vec<(usize, Row)>,
) -> (r: Doc)
    ensures
        r@ == rows_glyphs(
            *view,
            *opts,
            title@,
            only_rows(average_models(rows@)),
            RowMode::Average,
        ),
{
    let ghost ms = only_rows(average_models(rows@));
    let mut out = Doc::new();
    let mut i: usize = 0;
    assert(ms.take(0) =~= Seq::<RowModel>::empty());
    while i < rows.len()
        invariant
            i <= rows.len(),
            ms == only_rows(average_models(rows@)),
            out@ == rows_glyphs(*view, *opts, title@, ms.take(i as int), RowMode::Average),
        decreases rows.len() - i,
    {
        proof {
            assert(ms.take(i + 1).drop_last() =~= ms.take(i as int));
            assert(ms.take(i + 1).last() == rows@[i as int].1.model());
        }
        out.join(render_row(view, opts, title, &rows[i].1, RowMode::Average));
        i = i + 1;
    }
    assert(ms.take(rows@.len() as int) =~= ms);
    out
}

fn accumulate_all(states: &mut Vec<ItemState>, rows: &Vec<Row>, sample: usize, minmax: bool)
    ensures
        state_models(final(states)@) == states_after_all(
            state_models(old(states)@),
            row_models(rows@),
            sample,
            minmax,
        ),
{
    let ghost start = state_models(states@);
    let ghost ms = row_models(rows@);
    let mut i: usize = 0;
    assert(ms.take(0) =~= Seq::<RowModel>::empty());
    while i < rows.len()
        invariant
            i <= rows.len(),
            ms == row_models(rows@),
            state_models(states@) == states_after_all(start, ms.take(i as int), sample, minmax),
        decreases rows.len() - i,
    {
        proof {
            assert(ms.take(i + 1).drop_last() =~= ms.take(i as int));
            assert(ms.take(i + 1).last() == rows@[i as int].model());
        }
        accumulate(states, &rows[i], sample, minmax);
        i = i + 1;
    }
    assert(ms.take(rows@.len() as int) =~= ms);
}

}
