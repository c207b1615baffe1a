//! The lines of a block: which are shown, what they hold, and how they look.

use vstd::prelude::*;

use crate::doc::{chars, Doc, Glyph, Mean, MeanModel};
use crate::model::{ActivityId, ComputeIssue, Computed, HUNDRED_BITS, ZERO_BITS};
use crate::sar_text::cell::{cell_glyphs, mean_glyphs};
use crate::sar_text::columns::CPU_IDLE;
use crate::sar_text::groups::{
    find_key, group_key, group_models, position_of_key, same_sample, skipped_value, unchanged,
    zero_item, zero_values, GroupModel, ItemGroup, SampleItems,
};
use crate::sar_text::header::{MANUFACTURER_WIDTH, STAMP_WIDTH, VALUE_WIDTH};
use crate::sar_text::layout::{BlockView, ColSpec, HeadItem};
use crate::sar_text::options::SarTextOptions;
use crate::sar_text::rows::{
    item_key, item_title, label_of, name_selected, row_label, row_tail, tail_of, title_passes,
    ItemKey, KeyModel, LabelModel, RowLabel, RowTail, TailModel,
};
use crate::text::{int_dec, int_text, left_padded, pad_left, pad_right, right_padded};

verus! {

/// What is known of a line of the current sample besides its items.
#[derive(Debug)]
pub struct LineFacts {
    /// The CPU is off, or was at the sample that this one is compared with.
    pub offline: bool,
    /// The slot holds no item.
    pub unused: bool,
    /// The item has been registered anew since the sample that this one is compared with.
    pub reregistered: bool,
    /// The CPU is off now.
    pub cpu_offline: bool,
    /// The CPU has not ticked since the sample that this one is compared with.
    pub tickless: bool,
    /// The values of the columns.
    pub values: Vec<Computed>,
}

/// One line.
#[derive(Debug)]
pub struct Row {
    pub key: ItemKey,
    pub index: usize,
    pub label: RowLabel,
    pub tail: RowTail,
    pub values: Vec<Computed>,
    /// The means that stand in the place of values. Only averages have some.
    pub means: Vec<Option<Mean>>,
}

/// What a list of means holds.
pub open spec fn mean_models(v: Seq<Option<Mean>>) -> Seq<Option<MeanModel>> {
    Seq::new(
        v.len(),
        |i: int|
            match v[i] {
                Some(m) => Some(m.model()),
                None => None,
            },
    )
}

/// What a [`Row`] holds.
#[verifier::ext_equal]
pub struct RowModel {
    pub key: KeyModel,
    pub index: int,
    pub label: LabelModel,
    pub tail: TailModel,
    pub values: Seq<Computed>,
    pub means: Seq<Option<MeanModel>>,
}

impl Row {
    pub open spec fn model(self) -> RowModel {
        RowModel {
            key: self.key.model(),
            index: self.index as int,
            label: self.label.model(),
            tail: self.tail.model(),
            values: self.values@,
            means: mean_models(self.means@),
        }
    }
}

/// What a list of [`Row`] holds.
pub open spec fn row_models(v: Seq<Row>) -> Seq<RowModel> {
    Seq::new(v.len(), |i: int| v[i].model())
}

/// Whether unchanged items of the activity can be left out.
pub open spec fn omits_unchanged(id: ActivityId) -> bool {
    id == ActivityId::IRQ || id == ActivityId::SERIAL || id == ActivityId::DISK || id
        == ActivityId::NET_DEV || id == ActivityId::NET_EDEV || id == ActivityId::FS || id
        == ActivityId::NET_SOFT
}

/// Whether unchanged items of the activity can be left out.
pub fn zero_omit_applies(id: ActivityId) -> (r: bool)
    ensures
        r == omits_unchanged(id),
{
    match id {
        ActivityId::IRQ
        | ActivityId::SERIAL
        | ActivityId::DISK
        | ActivityId::NET_DEV
        | ActivityId::NET_EDEV
        | ActivityId::FS
        | ActivityId::NET_SOFT => true,
        _ => false,
    }
}

/// The values of a CPU that has not ticked: it was idle all the time.
pub open spec fn tickless_values(cells: Seq<ColSpec>) -> Seq<Computed> {
    Seq::new(
        cells.len(),
        |i: int|
            if cells[i].col == CPU_IDLE {
                Ok::<u64, ComputeIssue>(HUNDRED_BITS)
            } else {
                Ok::<u64, ComputeIssue>(ZERO_BITS)
            },
    )
}

/// The values of a CPU that has not ticked.
pub fn tickless_cpu_values(cells: &Vec<ColSpec>) -> (r: Vec<Computed>)
    ensures
        r@ == tickless_values(cells@),
{
    let mut out: Vec<Computed> = Vec::new();
    let mut i: usize = 0;
    while i < cells.len()
        invariant
            i <= cells.len(),
            out@.len() == i,
            forall|k: int|
                0 <= k < i ==> #[trigger] out@[k] == Ok::<u64, ComputeIssue>(
                    if cells@[k].col == CPU_IDLE {
                        HUNDRED_BITS
                    } else {
                        ZERO_BITS
                    },
                ),
        decreases cells.len() - i,
    {
        if cells[i].col == CPU_IDLE {
            out.push(Ok(HUNDRED_BITS));
        } else {
            out.push(Ok(ZERO_BITS));
        }
        i = i + 1;
    }
    assert(out@ =~= tickless_values(cells@));
    out
}

/// A copy of a list of values.
pub fn copy_values(v: &Vec<Computed>) -> (r: Vec<Computed>)
    ensures
        r@ == v@,
{
    let mut out: Vec<Computed> = Vec::new();
    let mut i: usize = 0;
    while i < v.len()
        invariant
            i <= v.len(),
            out@ == v@.take(i as int),
        decreases v.len() - i,
    {
        let x = v[i];
        out.push(x);
        i = i + 1;
        assert(out@ =~= v@.take(i as int));
    }
    assert(v@.take(v@.len() as int) =~= v@);
    out
}

/// Two samples of an activity, the later one with its lines.
pub struct Comparison<'a> {
    pub id: ActivityId,
    pub opts: SarTextOptions,
    pub prev: SampleItems<'a>,
    pub prev_lines: Seq<GroupModel>,
    pub curr: SampleItems<'a>,
}

/// Whether a line stands for one CPU, and not for the sum over all of them.
pub open spec fn is_single_cpu(c: Comparison<'_>, g: GroupModel) -> bool {
    c.id == ActivityId::CPU && !(g.index == 0 && c.curr.aggregate is Some)
}

/// Whether a line is left out because its item has not changed.
pub open spec fn is_omitted(c: Comparison<'_>, g: GroupModel, f: LineFacts) -> bool {
    let found = find_key(c.id, c.prev, c.prev_lines, group_key(c.id, c.curr, g));
    let before = if found is Some && !f.reregistered {
        c.prev.lead(c.prev_lines[found->0]).values@
    } else {
        zero_values(c.curr.plan.fields@.len() as int)
    };
    c.opts.zero_omit && omits_unchanged(c.id) && found is Some && unchanged(
        skipped_value(c.id, *c.curr.plan),
        before,
        c.curr.lead(g).values@,
    )
}

/// Whether a line is shown: its item is there, is on, is selected by name, and is not left
/// out as unchanged.
pub open spec fn is_shown(c: Comparison<'_>, g: GroupModel, f: LineFacts) -> bool {
    &&& !f.offline
    &&& !f.unused
    &&& title_passes(
        c.opts,
        c.id,
        item_title(c.id, c.opts, *c.curr.plan, c.curr.lead(g), g.index),
    )
    &&& !is_omitted(c, g, f)
    &&& !(is_single_cpu(c, g) && f.cpu_offline)
}

/// A line of the current sample.
pub open spec fn row_of(view: BlockView, c: Comparison<'_>, g: GroupModel, f: LineFacts) -> RowModel {
    let item = c.curr.lead(g);
    RowModel {
        key: group_key(c.id, c.curr, g),
        index: g.index,
        label: label_of(view.head, c.id, c.opts, *c.curr.plan, item, g.index),
        tail: tail_of(view.tail, c.id, c.opts, *c.curr.plan, item, g.index),
        values: if is_single_cpu(c, g) && g.index > 0 && f.tickless {
            tickless_values(view.cells@)
        } else {
            f.values@
        },
        means: Seq::empty(),
    }
}

/// The lines of the first `n` groups that are shown.
pub open spec fn rows_of(
    view: BlockView,
    c: Comparison<'_>,
    lines: Seq<GroupModel>,
    facts: Seq<LineFacts>,
    n: int,
) -> Seq<RowModel>
    decreases n,
{
    if n <= 0 {
        Seq::empty()
    } else {
        let before = rows_of(view, c, lines, facts, n - 1);
        if is_shown(c, lines[n - 1], facts[n - 1]) {
            before.push(row_of(view, c, lines[n - 1], facts[n - 1]))
        } else {
            before
        }
    }
}

/// A line of the current sample; `None` where the CPU is off.
fn make_row(
    view: &BlockView,
    opts: &SarTextOptions,
    curr: &SampleItems<'_>,
    group: &ItemGroup,
    key: ItemKey,
    facts: &LineFacts,
    c: Ghost<Comparison<'_>>,
) -> (r: Option<Row>)
    requires
        c@.id == view.id,
        c@.opts == *opts,
        c@.curr == *curr,
        curr.holds(group.model()),
        group.index < i64::MAX,
        key.model() == group_key(c@.id, *curr, group.model()),
    ensures
        match r {
            Some(row) => !(is_single_cpu(c@, group.model()) && facts.cpu_offline) && row.model()
                == row_of(*view, c@, group.model(), *facts),
            None => is_single_cpu(c@, group.model()) && facts.cpu_offline,
        },
{
    let item = curr.lead_item(group);
    let single = view.id == ActivityId::CPU && !(group.index == 0 && curr.aggregate.is_some());
    if single && facts.cpu_offline {
        return None;
    }
    let values = if single && group.index > 0 && facts.tickless {
        tickless_cpu_values(&view.cells)
    } else {
        copy_values(&facts.values)
    };
    let row = Row {
        key,
        index: group.index,
        label: row_label(view.head, view.id, opts, curr.plan, item, group.index),
        tail: row_tail(view.tail, view.id, opts, curr.plan, item, group.index),
        values,
        means: Vec::new(),
    };
    assert(row.model() =~= row_of(*view, c@, group.model(), *facts));
    Some(row)
}

/// Whether a line is left out because its item has not changed.
fn leave_out(
    view: &BlockView,
    opts: &SarTextOptions,
    prev: &SampleItems<'_>,
    prev_lines: &Vec<ItemGroup>,
    curr: &SampleItems<'_>,
    group: &ItemGroup,
    key: &ItemKey,
    facts: &LineFacts,
    c: Ghost<Comparison<'_>>,
) -> (r: bool)
    requires
        c@.id == view.id,
        c@.opts == *opts,
        c@.prev == *prev,
        c@.prev_lines == group_models(prev_lines@),
        c@.curr == *curr,
        forall|i: int| 0 <= i < prev_lines@.len() ==> prev.holds(#[trigger] prev_lines@[i].model()),
        curr.holds(group.model()),
        key.model() == group_key(c@.id, *curr, group.model()),
    ensures
        r == is_omitted(c@, group.model(), *facts),
{
    if !opts.zero_omit || !zero_omit_applies(view.id) {
        return false;
    }
    match position_of_key(view.id, prev, prev_lines, key) {
        None => false,
        Some(p) => {
            assert(group_models(prev_lines@)[p as int] == prev_lines@[p as int].model());
            let now = &curr.lead_item(group).values;
            if facts.reregistered {
                let zero = zero_item(curr.plan.fields.len());
                same_sample(view.id, curr.plan, &zero, now)
            } else {
                same_sample(view.id, curr.plan, &prev.lead_item(&prev_lines[p]).values, now)
            }
        },
    }
}

/// The lines of the current sample that are shown.
pub fn build_rows(
    view: &BlockView,
    opts: &SarTextOptions,
    prev: &SampleItems<'_>,
    prev_lines: &Vec<ItemGroup>,
    curr: &SampleItems<'_>,
    lines: &Vec<ItemGroup>,
    facts: &Vec<LineFacts>,
) -> (r: Vec<Row>)
    requires
        forall|i: int| 0 <= i < prev_lines@.len() ==> prev.holds(#[trigger] prev_lines@[i].model()),
        forall|i: int| 0 <= i < lines@.len() ==> curr.holds(#[trigger] lines@[i].model()),
        forall|i: int| 0 <= i < lines@.len() ==> (#[trigger] lines@[i]).index < i64::MAX,
        facts@.len() == lines@.len(),
    ensures
        row_models(r@) == rows_of(
            *view,
            Comparison {
                id: view.id,
                opts: *opts,
                prev: *prev,
                prev_lines: group_models(prev_lines@),
                curr: *curr,
            },
            group_models(lines@),
            facts@,
            lines@.len() as int,
        ),
{
    let ghost c = Comparison {
        id: view.id,
        opts: *opts,
        prev: *prev,
        prev_lines: group_models(prev_lines@),
        curr: *curr,
    };
    let ghost gs = group_models(lines@);
    let mut out: Vec<Row> = Vec::new();
    let mut i: usize = 0;
    assert(row_models(out@) =~= rows_of(*view, c, gs, facts@, 0));
    while i < lines.len()
        invariant
            i <= lines.len(),
            c.id == view.id,
            c.opts == *opts,
            c.prev == *prev,
            c.prev_lines == group_models(prev_lines@),
            c.curr == *curr,
            gs == group_models(lines@),
            forall|i: int|
                0 <= i < prev_lines@.len() ==> prev.holds(#[trigger] prev_lines@[i].model()),
            forall|i: int| 0 <= i < lines@.len() ==> curr.holds(#[trigger] lines@[i].model()),
            forall|i: int| 0 <= i < lines@.len() ==> (#[trigger] lines@[i]).index < i64::MAX,
            facts@.len() == lines@.len(),
            row_models(out@) == rows_of(*view, c, gs, facts@, i as int),
        decreases lines.len() - i,
    {
        let group = &lines[i];
        let f = &facts[i];
        let ghost before = row_models(out@);
        let ghost g = group.model();
        assert(gs[i as int] == g);
        let item = curr.lead_item(group);
        if !f.offline && !f.unused {
            let key = item_key(view.id, curr.plan, item, group.index);
            if name_selected(view.id, opts, curr.plan, item, group.index) && !leave_out(
                view,
                opts,
                prev,
                prev_lines,
                curr,
                group,
                &key,
                f,
                Ghost(c),
            ) {
                if let Some(row) = make_row(view, opts, curr, group, key, f, Ghost(c)) {
                    out.push(row);
                    assert(row_models(out@) =~= before.push(row.model()));
                }
            }
        }
        i = i + 1;
        assert(row_models(out@) == rows_of(*view, c, gs, facts@, i as int));
    }
    out
}

/// Which kind of line a row is written as.
#[derive(Clone, Copy, PartialEq, Eq, Structural, Debug)]
pub enum RowMode {
    /// The values of a sample.
    Instant,
    /// Averages.
    Average,
    /// The smallest or the largest values.
    Extreme,
}

/// The description of the value `i` of a line. Values beyond the last column look like those of
/// the last column.
pub open spec fn column_of(cells: Seq<ColSpec>, i: int) -> Option<ColSpec> {
    if i < cells.len() {
        Some(cells[i])
    } else if cells.len() > 0 {
        Some(cells.last())
    } else {
        None
    }
}

/// The mean in the place of the value `i` of a line.
pub open spec fn mean_at(means: Seq<Option<MeanModel>>, i: int) -> Option<MeanModel> {
    if i < means.len() {
        means[i]
    } else {
        None
    }
}

/// The value `i` of a line.
pub open spec fn value_glyphs(
    cells: Seq<ColSpec>,
    opts: SarTextOptions,
    row: RowModel,
    i: int,
    mode: RowMode,
) -> Seq<Glyph> {
    match column_of(cells, i) {
        None => Seq::empty(),
        Some(c) => if mode != RowMode::Instant && !c.in_average {
            Seq::empty()
        } else {
            let cell = if mode == RowMode::Average {
                c.avg_cell
            } else {
                c.cell
            };
            match mean_at(row.means, i) {
                Some(m) => mean_glyphs(cell, m, opts),
                None => cell_glyphs(cell, row.values[i], opts),
            }
        },
    }
}

/// The first `n` values of a line.
pub open spec fn values_glyphs(
    cells: Seq<ColSpec>,
    opts: SarTextOptions,
    row: RowModel,
    n: int,
    mode: RowMode,
) -> Seq<Glyph>
    decreases n,
{
    if n <= 0 {
        Seq::empty()
    } else {
        values_glyphs(cells, opts, row, n - 1, mode) + value_glyphs(cells, opts, row, n - 1, mode)
    }
}

/// The item at the start of a line.
pub open spec fn head_text(head: HeadItem, label: LabelModel) -> Seq<char> {
    match (head, label) {
        (HeadItem::Cpu7, LabelModel::Aggregate) => "     all"@,
        (HeadItem::Cpu7, LabelModel::Number(n)) => " "@ + left_padded(int_dec(n), 7),
        (HeadItem::Cpu3, LabelModel::Aggregate) => "     all"@,
        (HeadItem::Cpu3, LabelModel::Number(n)) => "     "@ + left_padded(int_dec(n), 3),
        (HeadItem::Name9, LabelModel::Name(s)) => " "@ + left_padded(s, VALUE_WIDTH as nat),
        (HeadItem::Line3, LabelModel::Number(n)) => "       "@ + left_padded(int_dec(n), 3),
        (HeadItem::Index5, LabelModel::Number(n)) => "     "@ + left_padded(int_dec(n), 5),
        (HeadItem::Bus6, LabelModel::Number(n)) => "  "@ + left_padded(int_dec(n), 6),
        _ => ""@,
    }
}

/// The end of a line.
pub open spec fn tail_text(tail: TailModel) -> Seq<char> {
    match tail {
        TailModel::Nothing => ""@,
        TailModel::Name(s) => " "@ + s,
        TailModel::Usb(m, p) => " "@ + right_padded(m, MANUFACTURER_WIDTH as nat) + " "@ + p,
    }
}

/// A line: the timestamp or its title, the item, the values, the name at the end.
pub open spec fn row_glyphs(
    view: BlockView,
    opts: SarTextOptions,
    title: Seq<char>,
    row: RowModel,
    mode: RowMode,
) -> Seq<Glyph> {
    chars(right_padded(title, STAMP_WIDTH as nat)) + chars(head_text(view.head, row.label))
        + values_glyphs(view.cells@, opts, row, row.values.len() as int, mode) + chars(
        tail_text(row.tail),
    ) + chars("\n"@)
}

fn padded_number(lead: &str, n: i64, width: usize) -> (r: String)
    ensures
        r@ == lead@ + left_padded(int_dec(n as int), width as nat),
{
    let mut out = lead.to_owned();
    out.append(pad_left(int_text(n).as_str(), width).as_str());
    out
}

/// The item at the start of a line.
pub fn render_head(head: HeadItem, label: &RowLabel) -> (r: String)
    ensures
        r@ == head_text(head, label.model()),
{
    match (head, label) {
        (HeadItem::Cpu7, RowLabel::Aggregate) => "     all".to_owned(),
        (HeadItem::Cpu7, RowLabel::Number(n)) => padded_number(" ", *n, 7),
        (HeadItem::Cpu3, RowLabel::Aggregate) => "     all".to_owned(),
        (HeadItem::Cpu3, RowLabel::Number(n)) => padded_number("     ", *n, 3),
        (HeadItem::Name9, RowLabel::Name(s)) => {
            let mut out = " ".to_owned();
            out.append(pad_left(s.as_str(), VALUE_WIDTH).as_str());
            out
        },
        (HeadItem::Line3, RowLabel::Number(n)) => padded_number("       ", *n, 3),
        (HeadItem::Index5, RowLabel::Number(n)) => padded_number("     ", *n, 5),
        (HeadItem::Bus6, RowLabel::Number(n)) => padded_number("  ", *n, 6),
        _ => "".to_owned(),
    }
}

/// The end of a line.
pub fn render_tail(tail: &RowTail) -> (r: String)
    ensures
        r@ == tail_text(tail.model()),
{
    match tail {
        RowTail::Nothing => "".to_owned(),
        RowTail::Name(s) => {
            let mut out = " ".to_owned();
            out.append(s.as_str());
            out
        },
        RowTail::Usb(m, p) => {
            let mut out = " ".to_owned();
            out.append(pad_right(m.as_str(), MANUFACTURER_WIDTH).as_str());
            out.append(" ");
            out.append(p.as_str());
            out
        },
    }
}

/// A line.
pub fn render_row(
    view: &BlockView,
    opts: &SarTextOptions,
    title: &str,
    row: &Row,
    mode: RowMode,
) -> (r: Doc)
    ensures
        r@ == row_glyphs(*view, *opts, title@, row.model(), mode),
{
    let mut out = Doc::of(pad_right(title, STAMP_WIDTH).as_str());
    out.put(render_head(view.head, &row.label).as_str());
    let ghost lead = out@;
    let n: usize = view.cells.len();
    let mut i: usize = 0;
    assert(out@ =~= lead + values_glyphs(view.cells@, *opts, row.model(), 0, mode));
    while i < row.values.len()
        invariant
            i <= row.values.len(),
            n == view.cells@.len(),
            out@ == lead + values_glyphs(view.cells@, *opts, row.model(), i as int, mode),
        decreases row.values.len() - i,
    {
        let ghost before = out@;
        let ghost v = value_glyphs(view.cells@, *opts, row.model(), i as int, mode);
        if n > 0 {
            let spec = if i < n {
                view.cells[i]
            } else {
                view.cells[n - 1]
            };
            if mode == RowMode::Instant || spec.in_average {
                let cell = if mode == RowMode::Average {
                    spec.avg_cell
                } else {
                    spec.cell
                };
                let mean: Option<&Mean> = if i < row.means.len() {
                    match &row.means[i] {
                        Some(m) => Some(m),
                        None => None,
                    }
                } else {
                    None
                };
                match mean {
                    Some(m) => out.join(cell.render_mean(m, opts)),
                    None => out.join(cell.render(row.values[i], opts)),
                }
            } else {
                assert(out@ =~= before + v);
            }
        } else {
            assert(out@ =~= before + v);
        }
        i = i + 1;
        assert(out@ =~= lead + values_glyphs(view.cells@, *opts, row.model(), i as int, mode));
    }
    out.put(render_tail(&row.tail).as_str());
    out.put("\n");
    out
}

/// The lines of a list.
pub open spec fn rows_glyphs(
    view: BlockView,
    opts: SarTextOptions,
    title: Seq<char>,
    rows: Seq<RowModel>,
    mode: RowMode,
) -> Seq<Glyph>
    decreases rows.len(),
{
    if rows.len() == 0 {
        Seq::empty()
    } else {
        rows_glyphs(view, opts, title, rows.drop_last(), mode) + row_glyphs(
            view,
            opts,
            title,
            rows.last(),
            mode,
        )
    }
}

/// The lines of a list.
pub fn render_rows(
    view: &BlockView,
    opts: &SarTextOptions,
    title: &str,
    rows: &Vec<Row>,
    mode: RowMode,
) -> (r: Doc)
    ensures
        r@ == rows_glyphs(*view, *opts, title@, row_models(rows@), mode),
{
    let ghost ms = row_models(rows@);
    let mut out = Doc::new();
    let mut i: usize = 0;
    assert(ms.take(0) =~= Seq::<RowModel>::empty());
    while i < rows.len()
        invariant
            i <= rows.len(),
            ms == row_models(rows@),
            out@ == rows_glyphs(*view, *opts, title@, ms.take(i as int), mode),
        decreases rows.len() - i,
    {
        proof {
            assert(ms.take(i + 1).drop_last() =~= ms.take(i as int));
            assert(ms.take(i + 1).last() == rows@[i as int].model());
        }
        out.join(render_row(view, opts, title, &rows[i], mode));
        i = i + 1;
    }
    assert(ms.take(rows@.len() as int) =~= ms);
    out
}

}
