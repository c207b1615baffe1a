//! What the line with the averages shows, column by column.

use vstd::prelude::*;

use crate::doc::{chars, Glyph};
use crate::model::{ActivityId, Computed};
use crate::sar_text::block::{
    average_glyphs, average_lines, average_row, average_title, fits, heading_of, is_matrix,
    minmax_glyphs, minmax_lines, only_rows, state_models, EndFacts, SarBlock, StateModel,
};
use crate::sar_text::block_laws::lemma_average_line;
use crate::sar_text::cell::{
    cell_glyphs, columns_taken, law_a_mean_takes_ten_columns, law_a_value_takes_ten_columns,
};
use crate::sar_text::header::STAMP_WIDTH;
use crate::sar_text::layout::{AvgKind, BlockView, ColSpec, HeaderPolicy};
use crate::sar_text::lines::{
    head_text, mean_at, row_glyphs, rows_glyphs, tail_text, value_glyphs, values_glyphs, RowMode,
    RowModel,
};
use crate::sar_text::options::SarTextOptions;
use crate::text::right_padded;
use crate::within::{
    around, lemma_columns_add, lemma_stands_deeper, lemma_stands_in, line_shows, stands_in,
};

verus! {

/// The number of columns among the first `n` that the line with the averages has.
pub open spec fn averaged_before(cells: Seq<ColSpec>, n: int) -> nat
    decreases n,
{
    if n <= 0 {
        0
    } else {
        averaged_before(cells, n - 1) + if cells[n - 1].in_average {
            1nat
        } else {
            0nat
        }
    }
}

/// The start of the line of an item: the title and what tells the item.
pub open spec fn line_start(view: BlockView, title: Seq<char>, s: StateModel) -> Seq<Glyph> {
    chars(right_padded(title, STAMP_WIDTH as nat)) + chars(head_text(view.head, s.label))
}

pub(crate) proof fn lemma_width_before(
    cells: Seq<ColSpec>,
    opts: SarTextOptions,
    row: RowModel,
    n: int,
    mode: RowMode,
)
    requires
        0 <= n <= cells.len(),
        n <= row.values.len(),
        mode != RowMode::Instant,
    ensures
        columns_taken(values_glyphs(cells, opts, row, n, mode)) == 10 * averaged_before(cells, n),
    decreases n,
{
    if n > 0 {
        lemma_width_before(cells, opts, row, n - 1, mode);
        let here = value_glyphs(cells, opts, row, n - 1, mode);
        lemma_columns_add(values_glyphs(cells, opts, row, n - 1, mode), here);
        let c = cells[n - 1];
        let cell = if mode == RowMode::Average {
            c.avg_cell
        } else {
            c.cell
        };
        if c.in_average {
            match mean_at(row.means, n - 1) {
                Some(m) => law_a_mean_takes_ten_columns(cell, m, opts),
                None => law_a_value_takes_ten_columns(cell, row.values[n - 1], opts),
            }
        }
    }
}

pub(crate) proof fn lemma_value_stands(
    cells: Seq<ColSpec>,
    opts: SarTextOptions,
    row: RowModel,
    i: int,
    n: int,
    mode: RowMode,
)
    requires
        0 <= i < n <= row.values.len(),
    ensures
        exists|after: Seq<Glyph>| #[trigger]
            around(
                values_glyphs(cells, opts, row, i, mode),
                value_glyphs(cells, opts, row, i, mode),
                after,
            ) == values_glyphs(cells, opts, row, n, mode),
    decreases n,
{
    let lead = values_glyphs(cells, opts, row, i, mode);
    let here = value_glyphs(cells, opts, row, i, mode);
    if i == n - 1 {
        assert(around(lead, here, Seq::empty()) =~= values_glyphs(cells, opts, row, n, mode));
    } else {
        lemma_value_stands(cells, opts, row, i, n - 1, mode);
        let after = choose|after: Seq<Glyph>| #[trigger]
            around(lead, here, after) == values_glyphs(cells, opts, row, n - 1, mode);
        let more = value_glyphs(cells, opts, row, n - 1, mode);
        assert(around(lead, here, after + more) =~= values_glyphs(cells, opts, row, n, mode));
    }
}

proof fn lemma_line_shows(
    view: BlockView,
    opts: SarTextOptions,
    title: Seq<char>,
    s: StateModel,
    row: RowModel,
    i: int,
)
    requires
        0 <= i < view.cells@.len() <= row.values.len(),
        row.label == s.label,
    ensures
        line_shows(
            row_glyphs(view, opts, title, row, RowMode::Average),
            line_start(view, title, s),
            10 * averaged_before(view.cells@, i),
            value_glyphs(view.cells@, opts, row, i, RowMode::Average),
        ),
{
    let cells = view.cells@;
    let n = row.values.len() as int;
    let mid = values_glyphs(cells, opts, row, i, RowMode::Average);
    let what = value_glyphs(cells, opts, row, i, RowMode::Average);
    let start = line_start(view, title, s);
    lemma_width_before(cells, opts, row, i, RowMode::Average);
    lemma_value_stands(cells, opts, row, i, n, RowMode::Average);
    let after = choose|after: Seq<Glyph>| #[trigger]
        around(mid, what, after) == values_glyphs(cells, opts, row, n, RowMode::Average);
    let rest = after + chars(tail_text(row.tail)) + chars("\n"@);
    let whole = row_glyphs(view, opts, title, row, RowMode::Average);
    assert(whole =~= Seq::<Glyph>::empty() + (start + mid + what) + rest);
    lemma_stands_in(Seq::empty(), start + mid + what, rest, whole);
    assert(columns_taken(mid) == 10 * averaged_before(cells, i));
}

pub(crate) proof fn lemma_shown_deeper(
    text: Seq<Glyph>,
    whole: Seq<Glyph>,
    start: Seq<Glyph>,
    at: nat,
    what: Seq<Glyph>,
)
    requires
        line_shows(text, start, at, what),
        stands_in(text, whole),
    ensures
        line_shows(whole, start, at, what),
{
    let mid = choose|mid: Seq<Glyph>| #[trigger]
        columns_taken(mid) == at && stands_in(start + mid + what, text);
    lemma_stands_deeper(start + mid + what, text, whole);
    assert(columns_taken(mid) == at);
}

proof fn lemma_row_stands(
    view: BlockView,
    opts: SarTextOptions,
    title: Seq<char>,
    rows: Seq<RowModel>,
    k: int,
)
    requires
        0 <= k < rows.len(),
    ensures
        stands_in(
            row_glyphs(view, opts, title, rows[k], RowMode::Average),
            rows_glyphs(view, opts, title, rows, RowMode::Average),
        ),
    decreases rows.len(),
{
    let whole = rows_glyphs(view, opts, title, rows, RowMode::Average);
    let before = rows_glyphs(view, opts, title, rows.drop_last(), RowMode::Average);
    let last = row_glyphs(view, opts, title, rows.last(), RowMode::Average);
    if k == rows.len() - 1 {
        assert(whole =~= before + last + Seq::<Glyph>::empty());
        lemma_stands_in(before, last, Seq::empty(), whole);
    } else {
        lemma_row_stands(view, opts, title, rows.drop_last(), k);
        assert(whole =~= Seq::<Glyph>::empty() + before + last);
        lemma_stands_in(Seq::empty(), before, last, whole);
        lemma_stands_deeper(
            row_glyphs(view, opts, title, rows[k], RowMode::Average),
            before,
            whole,
        );
    }
}

proof fn lemma_minmax_stands(
    view: BlockView,
    opts: SarTextOptions,
    cols: Seq<usize>,
    title: Seq<char>,
    states: Seq<StateModel>,
    rows: Seq<(int, RowModel)>,
    n: int,
    k: int,
)
    requires
        0 <= k < n <= rows.len(),
    ensures
        stands_in(
            row_glyphs(view, opts, title, rows[k].1, RowMode::Average),
            minmax_lines(view, opts, cols, title, states, rows, n),
        ),
    decreases n,
{
    let whole = minmax_lines(view, opts, cols, title, states, rows, n);
    let before = minmax_lines(view, opts, cols, title, states, rows, n - 1);
    let last = minmax_glyphs(view, opts, cols, title, states[rows[n - 1].0], rows[n - 1].1);
    let line = row_glyphs(view, opts, title, rows[k].1, RowMode::Average);
    if k == n - 1 {
        let lead = last.take(last.len() - line.len());
        assert(last =~= lead + line);
        assert(whole =~= (before + lead) + line + Seq::<Glyph>::empty());
        lemma_stands_in(before + lead, line, Seq::empty(), whole);
    } else {
        lemma_minmax_stands(view, opts, cols, title, states, rows, n - 1, k);
        assert(whole =~= Seq::<Glyph>::empty() + before + last);
        lemma_stands_in(Seq::empty(), before, last, whole);
        lemma_stands_deeper(line, before, whole);
    }
}

/// The line of an item stands among the averages.
proof fn lemma_average_stands(b: SarBlock<'_>, ends: EndFacts, p: int, i: int)
    requires
        has_average(b, ends, p),
        0 <= i < b.view.cells@.len(),
    ensures
        ({
            let s = state_models(b.items@)[p];
            let row = average_row(b.view, s, ends.items@[p], b.displayed);
            line_shows(
                average_glyphs(b, ends),
                line_start(b.view, average_title(b.view.avg_label, b.opts.minmax), s),
                10 * averaged_before(b.view.cells@, i),
                value_glyphs(b.view.cells@, *b.opts, row, i, RowMode::Average),
            )
        }),
{
    let states = state_models(b.items@);
    let n = states.len() as int;
    let s = states[p];
    let row = average_row(b.view, s, ends.items@[p], b.displayed);
    let rows = average_lines(b.view, states, ends.items@, b.displayed, n);
    let title = average_title(b.view.avg_label, b.opts.minmax);
    let cols = b.end_columns(ends.online@);
    let whole = average_glyphs(b, ends);
    let line = row_glyphs(b.view, *b.opts, title, row, RowMode::Average);
    lemma_average_line(b.view, states, ends.items@, b.displayed, n, p);
    let k = choose|k: int| 0 <= k < rows.len() && rows[k] == (p, row);
    if b.opts.minmax && b.view.id != ActivityId::PWR_USB {
        lemma_minmax_stands(b.view, *b.opts, cols, title, states, rows, rows.len() as int, k);
    } else {
        lemma_row_stands(b.view, *b.opts, title, only_rows(rows), k);
        let body = rows_glyphs(b.view, *b.opts, title, only_rows(rows), RowMode::Average);
        let head = if b.view.header == HeaderPolicy::EverySample {
            chars(heading_of(b.view, cols, title))
        } else {
            Seq::empty()
        };
        assert(whole =~= head + body + Seq::<Glyph>::empty());
        lemma_stands_in(head, body, Seq::empty(), whole);
        lemma_stands_deeper(line, body, whole);
    }
    lemma_line_shows(b.view, *b.opts, title, s, row, i);
    lemma_shown_deeper(
        line,
        whole,
        line_start(b.view, title, s),
        10 * averaged_before(b.view.cells@, i),
        value_glyphs(b.view.cells@, *b.opts, row, i, RowMode::Average),
    );
}

/// Whether the averages have a line for the item at a position: samples were shown, the item
/// was among them, and its CPU is on at both ends. Its values stand for one item each.
pub open spec fn has_average(b: SarBlock<'_>, ends: EndFacts, p: int) -> bool {
    &&& fits(b, ends)
    &&& b.displayed > 0
    &&& !is_matrix(b.view)
    &&& 0 <= p < b.items@.len()
    &&& b.items@[p].displayed
    &&& !ends.items@[p].offline
}

/// Whether the line with the averages of the item at a position shows a value in the column `i`,
/// in the form that the column has there: behind what tells the item and ten columns for each
/// column before it that the line has.
pub open spec fn average_shows(
    b: SarBlock<'_>,
    ends: EndFacts,
    p: int,
    i: int,
    v: Computed,
) -> bool {
    line_shows(
        average_glyphs(b, ends),
        line_start(
            b.view,
            average_title(b.view.avg_label, b.opts.minmax),
            state_models(b.items@)[p],
        ),
        10 * averaged_before(b.view.cells@, i),
        cell_glyphs(b.view.cells@[i].avg_cell, v, *b.opts),
    )
}

/// A rate in the line with the averages is the one over the time between the first and the last
/// sample of the stretch, and not one of those that were shown in between.
pub proof fn law_rates_are_over_the_stretch(b: SarBlock<'_>, ends: EndFacts, p: int, i: int)
    requires
        has_average(b, ends, p),
        0 <= i < b.view.cells@.len(),
        b.view.cells@[i].in_average,
        b.view.cells@[i].avg == AvgKind::Rate,
    ensures
        average_shows(b, ends, p, i, ends.items@[p].rates@[i]),
{
    lemma_average_stands(b, ends, p, i);
}

/// A share in the line with the averages is the ratio of means, and not the mean of ratios.
pub proof fn law_shares_are_ratios_of_means(b: SarBlock<'_>, ends: EndFacts, p: int, i: int)
    requires
        has_average(b, ends, p),
        0 <= i < b.view.cells@.len(),
        b.view.cells@[i].in_average,
        b.view.cells@[i].avg == AvgKind::MeanRatio,
    ensures
        average_shows(b, ends, p, i, ends.items@[p].ratios@[i]),
{
    lemma_average_stands(b, ends, p, i);
}

/// Where the line with the averages shows the last value of a column, it is the one that was
/// last seen.
pub proof fn law_last_values_are_the_last_seen(b: SarBlock<'_>, ends: EndFacts, p: int, i: int)
    requires
        has_average(b, ends, p),
        0 <= i < b.view.cells@.len(),
        b.view.cells@[i].in_average,
        b.view.cells@[i].avg == AvgKind::Last,
    ensures
        average_shows(b, ends, p, i, ends.items@[p].lasts@[i]),
{
    lemma_average_stands(b, ends, p, i);
}

}
