//! What the lines of a block show, column by column.

use vstd::prelude::*;

use crate::doc::{chars, Glyph};
use crate::model::{ActivityId, ComputeIssue};
use crate::sar_text::average_laws::{
    averaged_before, lemma_shown_deeper, lemma_value_stands, lemma_width_before,
};
use crate::sar_text::block::{
    average_lines, heading_of, mean_of, minmax_glyphs, state_after, summands, value_in,
    AverageFacts, LineModel, StateModel,
};
use crate::sar_text::cell::{
    cell_glyphs, columns_taken, law_a_mean_takes_ten_columns, law_a_value_takes_ten_columns,
};
use crate::sar_text::extremes::{
    any_set, extremes_shown, is_nan, rank, LARGEST_BITS, SMALLEST_BITS,
};
use crate::sar_text::groups::GroupModel;
use crate::sar_text::header::STAMP_WIDTH;
use crate::sar_text::layout::{BlockView, ColSpec};
use crate::sar_text::lines::{
    head_text, mean_at, row_glyphs, row_of, rows_of, tail_text, value_glyphs, values_glyphs,
    Comparison, LineFacts, RowMode, RowModel,
};
use crate::sar_text::options::SarTextOptions;
use crate::sar_text::rows::LabelModel;
use crate::text::right_padded;
use crate::within::{around, lemma_columns_add, lemma_stands_in, line_shows};

verus! {

/// The start of a line: its title and what tells the item.
pub open spec fn row_start(view: BlockView, title: Seq<char>, label: LabelModel) -> Seq<Glyph> {
    chars(right_padded(title, STAMP_WIDTH as nat)) + chars(head_text(view.head, label))
}

proof fn lemma_width_of_instants(cells: Seq<ColSpec>, opts: SarTextOptions, row: RowModel, n: int)
    requires
        0 <= n <= cells.len(),
        n <= row.values.len(),
    ensures
        columns_taken(values_glyphs(cells, opts, row, n, RowMode::Instant)) == 10 * n,
    decreases n,
{
    if n > 0 {
        lemma_width_of_instants(cells, opts, row, n - 1);
        let here = value_glyphs(cells, opts, row, n - 1, RowMode::Instant);
        lemma_columns_add(values_glyphs(cells, opts, row, n - 1, RowMode::Instant), here);
        match mean_at(row.means, n - 1) {
            Some(m) => law_a_mean_takes_ten_columns(cells[n - 1].cell, m, opts),
            None => law_a_value_takes_ten_columns(cells[n - 1].cell, row.values[n - 1], opts),
        }
    }
}

proof fn lemma_row_shows(
    view: BlockView,
    opts: SarTextOptions,
    title: Seq<char>,
    row: RowModel,
    i: int,
    mode: RowMode,
    at: nat,
)
    requires
        0 <= i < row.values.len(),
        columns_taken(values_glyphs(view.cells@, opts, row, i, mode)) == at,
    ensures
        line_shows(
            row_glyphs(view, opts, title, row, mode),
            row_start(view, title, row.label),
            at,
            value_glyphs(view.cells@, opts, row, i, mode),
        ),
{
    let cells = view.cells@;
    let n = row.values.len() as int;
    let mid = values_glyphs(cells, opts, row, i, mode);
    let what = value_glyphs(cells, opts, row, i, mode);
    let start = row_start(view, title, row.label);
    lemma_value_stands(cells, opts, row, i, n, mode);
    let after = choose|after: Seq<Glyph>| #[trigger]
        around(mid, what, after) == values_glyphs(cells, opts, row, n, mode);
    let rest = after + chars(tail_text(row.tail)) + chars("\n"@);
    let whole = row_glyphs(view, opts, title, row, mode);
    assert(whole =~= Seq::<Glyph>::empty() + (start + mid + what) + rest);
    lemma_stands_in(Seq::empty(), start + mid + what, rest, whole);
    assert(columns_taken(mid) == at);
}

/// The line of an item at a sample shows the value of each column below its heading: ten columns
/// for each column before it, behind the time and what tells the item.
pub proof fn law_a_line_shows_its_values(
    view: BlockView,
    opts: SarTextOptions,
    title: Seq<char>,
    row: RowModel,
    i: int,
)
    requires
        row.means.len() == 0,
        row.values.len() == view.cells@.len(),
        0 <= i < view.cells@.len(),
    ensures
        line_shows(
            row_glyphs(view, opts, title, row, RowMode::Instant),
            row_start(view, title, row.label),
            (10 * i) as nat,
            cell_glyphs(view.cells@[i].cell, row.values[i], opts),
        ),
{
    lemma_width_of_instants(view.cells@, opts, row, i);
    lemma_row_shows(view, opts, title, row, i, RowMode::Instant, (10 * i) as nat);
}

/// A line ends with what stands behind its values.
pub proof fn law_a_line_ends_with_its_name(
    view: BlockView,
    opts: SarTextOptions,
    title: Seq<char>,
    row: RowModel,
    mode: RowMode,
)
    ensures
        (chars(tail_text(row.tail)) + chars("\n"@)).is_suffix_of(
            row_glyphs(view, opts, title, row, mode),
        ),
        row_start(view, title, row.label).is_prefix_of(row_glyphs(view, opts, title, row, mode)),
{
    let whole = row_glyphs(view, opts, title, row, mode);
    let end = chars(tail_text(row.tail)) + chars("\n"@);
    let start = row_start(view, title, row.label);
    assert(whole.skip(whole.len() - end.len()) =~= end);
    assert(whole.take(start.len() as int) =~= start);
}

/// Whether the values of a line are those that were worked out for it: those of a CPU that has
/// not ticked are not.
pub open spec fn shows_facts(c: Comparison<'_>, g: GroupModel, f: LineFacts) -> bool {
    !(c.id == ActivityId::CPU && g.index > 0 && f.tickless)
}

/// Each line of a sample is that of an item which is in use and whose CPU is on, and shows the
/// values of that item.
pub proof fn law_lines_are_those_of_items_in_use(
    view: BlockView,
    c: Comparison<'_>,
    lines: Seq<GroupModel>,
    facts: Seq<LineFacts>,
    n: int,
    j: int,
)
    requires
        0 <= n <= lines.len(),
        n <= facts.len(),
        0 <= j < rows_of(view, c, lines, facts, n).len(),
    ensures
        exists|k: int|
            0 <= k < n && {
                &&& (#[trigger] lines[k]).index == rows_of(view, c, lines, facts, n)[j].index
                &&& !facts[k].offline
                &&& !facts[k].unused
                &&& shows_facts(c, lines[k], facts[k]) ==> rows_of(view, c, lines, facts, n)[j].values
                    == facts[k].values@
            },
    decreases n,
{
    let rows = rows_of(view, c, lines, facts, n);
    let before = rows_of(view, c, lines, facts, n - 1);
    if j < before.len() {
        law_lines_are_those_of_items_in_use(view, c, lines, facts, n - 1, j);
        assert(rows[j] == before[j]);
        let k = choose|k: int|
            0 <= k < n - 1 && {
                &&& (#[trigger] lines[k]).index == before[j].index
                &&& !facts[k].offline
                &&& !facts[k].unused
                &&& shows_facts(c, lines[k], facts[k]) ==> before[j].values == facts[k].values@
            };
        assert(0 <= k < n && lines[k].index == rows[j].index);
    } else {
        let k = n - 1;
        assert(rows[j] == row_of(view, c, lines[k], facts[k]));
        assert(lines[k].index == rows[j].index);
    }
}

/// A CPU that has not ticked was idle all the time: each column shows nothing, and the one of
/// idle time the whole.
pub proof fn law_a_cpu_without_ticks_is_idle(
    view: BlockView,
    c: Comparison<'_>,
    g: GroupModel,
    f: LineFacts,
    i: int,
)
    requires
        c.id == ActivityId::CPU,
        g.index > 0,
        f.tickless,
        0 <= i < view.cells@.len(),
    ensures
        row_of(view, c, g, f).values.len() == view.cells@.len(),
        row_of(view, c, g, f).values[i] == Ok::<u64, ComputeIssue>(
            if view.cells@[i].col == 5 {
                0x4059_0000_0000_0000
            } else {
                0
            },
        ),
{
}

/// The extremes of an item take in each of its lines: none of the values is below the smallest
/// or above the largest, and a value on its own is both.
pub proof fn law_extremes_take_in_each_line(s: StateModel, row: RowModel, sample: usize, i: int)
    requires
        0 <= i < row.values.len(),
        row.values[i] is Ok,
        !is_nan(row.values[i]->Ok_0),
    ensures
        ({
            let v = row.values[i]->Ok_0;
            let after = state_after(s, row, sample, true);
            &&& i < after.min.len()
            &&& i < after.max.len()
            &&& rank(after.min[i]) <= rank(v) || is_nan(after.min[i])
            &&& rank(after.max[i]) >= rank(v) || is_nan(after.max[i])
            &&& i < s.min.len() && !is_nan(s.min[i]) ==> rank(after.min[i]) <= rank(s.min[i])
            &&& i < s.max.len() && !is_nan(s.max[i]) ==> rank(after.max[i]) >= rank(s.max[i])
            &&& rank(after.min[i]) == rank(v) || (i < s.min.len() && after.min[i] == s.min[i])
                || after.min[i] == LARGEST_BITS
            &&& rank(after.max[i]) == rank(v) || (i < s.max.len() && after.max[i] == s.max[i])
                || after.max[i] == SMALLEST_BITS
        }),
{
}

proof fn lemma_extreme_stands(
    view: BlockView,
    opts: SarTextOptions,
    title: Seq<char>,
    row: RowModel,
    i: int,
    before: Seq<Glyph>,
    after: Seq<Glyph>,
    whole: Seq<Glyph>,
)
    requires
        0 <= i < view.cells@.len() <= row.values.len(),
        view.cells@[i].in_average,
        row.means.len() == 0,
        whole == before + row_glyphs(view, opts, title, row, RowMode::Extreme) + after,
    ensures
        line_shows(
            whole,
            row_start(view, title, row.label),
            10 * averaged_before(view.cells@, i),
            cell_glyphs(view.cells@[i].cell, row.values[i], opts),
        ),
{
    let line = row_glyphs(view, opts, title, row, RowMode::Extreme);
    lemma_width_before(view.cells@, opts, row, i, RowMode::Extreme);
    let at = 10 * averaged_before(view.cells@, i);
    lemma_row_shows(view, opts, title, row, i, RowMode::Extreme, at);
    lemma_stands_in(before, line, after, whole);
    lemma_shown_deeper(
        line,
        whole,
        row_start(view, title, row.label),
        at,
        value_glyphs(view.cells@, opts, row, i, RowMode::Extreme),
    );
}

/// The line that starts with `Minimum:` shows the smallest value of each column, and the one
/// that starts with `Maximum:` the largest.
pub proof fn law_extremes_stand_behind_their_titles(
    view: BlockView,
    opts: SarTextOptions,
    cols: Seq<usize>,
    title: Seq<char>,
    s: StateModel,
    row: RowModel,
    i: int,
)
    requires
        0 <= i < view.cells@.len() <= row.values.len(),
        view.cells@[i].in_average,
        i < s.min.len(),
        i < s.max.len(),
        s.min[i] != LARGEST_BITS,
        s.max[i] != SMALLEST_BITS,
    ensures
        line_shows(
            minmax_glyphs(view, opts, cols, title, s, row),
            row_start(view, "Minimum:"@, row.label),
            10 * averaged_before(view.cells@, i),
            cell_glyphs(view.cells@[i].cell, Ok(s.min[i]), opts),
        ),
        line_shows(
            minmax_glyphs(view, opts, cols, title, s, row),
            row_start(view, "Maximum:"@, row.label),
            10 * averaged_before(view.cells@, i),
            cell_glyphs(view.cells@[i].cell, Ok(s.max[i]), opts),
        ),
{
    let n = row.values.len() as int;
    let low = RowModel {
        values: extremes_shown(s.min, n, LARGEST_BITS),
        means: Seq::empty(),
        ..row
    };
    let high = RowModel {
        values: extremes_shown(s.max, n, SMALLEST_BITS),
        means: Seq::empty(),
        ..row
    };
    assert(any_set(s.min));
    let head = chars(heading_of(view, cols, "Summary:"@));
    let first = row_glyphs(view, opts, "Minimum:"@, low, RowMode::Extreme);
    let second = row_glyphs(view, opts, "Maximum:"@, high, RowMode::Extreme);
    let last = row_glyphs(view, opts, title, row, RowMode::Average);
    let whole = minmax_glyphs(view, opts, cols, title, s, row);
    assert(whole == head + first + second + last);
    assert(whole =~= head + first + (second + last));
    assert(whole =~= (head + first) + second + last);
    lemma_extreme_stands(view, opts, "Minimum:"@, low, i, head, second + last, whole);
    lemma_extreme_stands(view, opts, "Maximum:"@, high, i, head + first, last, whole);
}

/// The averages have a line for the item at a position exactly where the item was shown and its
/// CPU is on at both ends, and no item has two.
pub proof fn law_averages_are_of_the_items_shown(
    view: BlockView,
    states: Seq<StateModel>,
    facts: Seq<AverageFacts>,
    count: u64,
    n: int,
    p: int,
)
    requires
        0 <= n <= states.len(),
        n <= facts.len(),
        0 <= p < states.len(),
    ensures
        (exists|k: int|
            0 <= k < average_lines(view, states, facts, count, n).len() && (#[trigger] average_lines(
                view,
                states,
                facts,
                count,
                n,
            )[k]).0 == p) <==> (p < n && states[p].displayed && !facts[p].offline),
        forall|a: int, b: int|
            0 <= a < b < average_lines(view, states, facts, count, n).len() ==> (
            #[trigger] average_lines(view, states, facts, count, n)[a]).0 < (
            #[trigger] average_lines(view, states, facts, count, n)[b]).0 < n,
        forall|a: int|
            0 <= a < average_lines(view, states, facts, count, n).len() ==> 0 <= (
            #[trigger] average_lines(view, states, facts, count, n)[a]).0 < n,
        forall|a: int|
            0 <= a < average_lines(view, states, facts, count, n).len() ==> {
                let r = #[trigger] average_lines(view, states, facts, count, n)[a];
                r.1.label == states[r.0].label && r.1.tail == states[r.0].tail
            },
    decreases n,
{
    if n > 0 {
        law_averages_are_of_the_items_shown(view, states, facts, count, n - 1, p);
        let before = average_lines(view, states, facts, count, n - 1);
        let all = average_lines(view, states, facts, count, n);
        if states[n - 1].displayed && !facts[n - 1].offline {
            assert(all[before.len() as int].0 == n - 1);
            assert forall|k: int| 0 <= k < before.len() implies before[k] == #[trigger] all[k] by {}
            if exists|k: int| 0 <= k < before.len() && (#[trigger] before[k]).0 == p {
                let k = choose|k: int| 0 <= k < before.len() && (#[trigger] before[k]).0 == p;
                assert(all[k].0 == p);
            }
            if exists|k: int| 0 <= k < all.len() && (#[trigger] all[k]).0 == p {
                let k = choose|k: int| 0 <= k < all.len() && (#[trigger] all[k]).0 == p;
                if k < before.len() {
                    assert(before[k].0 == p);
                }
            }
        }
    }
}

/// A mean adds up the values of one column over the lines that were shown, each line once and in
/// their order.
pub proof fn law_a_mean_adds_up_its_column(lines: Seq<LineModel>, i: int, count: u64)
    requires
        lines.len() > 0,
        0 <= i,
        forall|k: int|
            0 <= k < lines.len() ==> i < (#[trigger] lines[k]).values.len() && lines[k].values[i] is Ok,
    ensures
        mean_of(lines, i, count) is Some,
        mean_of(lines, i, count)->Some_0.summands =~= Seq::new(
            lines.len(),
            |k: int| lines[k].values[i]->Ok_0,
        ),
        mean_of(lines, i, count)->Some_0.count == count,
    decreases lines.len(),
{
    if lines.len() > 1 {
        let before = lines.drop_last();
        assert forall|k: int| 0 <= k < before.len() implies i < (#[trigger] before[k]).values.len()
            && before[k].values[i] is Ok by {
            assert(before[k] == lines[k]);
        }
        law_a_mean_adds_up_its_column(before, i, count);
    } else {
        assert(summands(lines.drop_last(), i) =~= Seq::<u64>::empty());
    }
    assert(value_in(lines.last(), i) == lines[lines.len() - 1].values[i]);
}

}
