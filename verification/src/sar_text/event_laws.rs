//! What the text of a sample, a restart and a comment is made of.

use vstd::prelude::*;

use crate::clock::has_date;
use crate::clock_laws::{law_short_dates_read_month_day_year, reads_as};
use crate::doc::{chars, Form, Glyph, SarUnit};
use crate::model::as_signed;
use crate::sar_text::block::{heading_of, online_columns, SampleHead, SarBlock};
use crate::sar_text::cell::{number_column, value_column};
use crate::sar_text::header::{banner_day, comment_text, restart_text, stamp_text, FileHeader};
use crate::sar_text::layout::{BlockView, Cell, HeaderPolicy};
use crate::sar_text::lines::{row_glyphs, rows_glyphs, RowMode, RowModel};
use crate::sar_text::options::{SarTextOptions, TimeStyle};
use crate::sar_text::report::{is_number_or_sum, unusable_names};
use crate::text::{dec, printable_text, right_padded};
use crate::text_laws::{decimal_value, law_decimals_have_their_value};
use crate::within::{lemma_stands_deeper, lemma_stands_in, stands_in};

verus! {

proof fn lemma_each_row(
    view: BlockView,
    opts: SarTextOptions,
    title: Seq<char>,
    rows: Seq<RowModel>,
    k: int,
)
    requires
        0 <= k < rows.len(),
    ensures
        stands_in(
            row_glyphs(view, opts, title, rows[k], RowMode::Instant),
            rows_glyphs(view, opts, title, rows, RowMode::Instant),
        ),
    decreases rows.len(),
{
    let whole = rows_glyphs(view, opts, title, rows, RowMode::Instant);
    let before = rows_glyphs(view, opts, title, rows.drop_last(), RowMode::Instant);
    let last = row_glyphs(view, opts, title, rows.last(), RowMode::Instant);
    if k == rows.len() - 1 {
        assert(whole =~= before + last + Seq::<Glyph>::empty());
        lemma_stands_in(before, last, Seq::empty(), whole);
    } else {
        lemma_each_row(view, opts, title, rows.drop_last(), k);
        assert(whole =~= Seq::<Glyph>::empty() + before + last);
        lemma_stands_in(Seq::empty(), before, last, whole);
        lemma_stands_deeper(
            row_glyphs(view, opts, title, rows[k], RowMode::Instant),
            before,
            whole,
        );
    }
}

/// The text of a sample has each of its lines behind the time of the sample. The headings stand
/// before them, behind the time of the sample before: with each sample, or with the first one only.
pub proof fn law_a_sample_shows_each_line(
    b: SarBlock<'_>,
    cols: Seq<usize>,
    head: SampleHead,
    rows: Seq<RowModel>,
    k: int,
)
    requires
        0 <= k < rows.len(),
    ensures
        stands_in(
            row_glyphs(
                b.view,
                *b.opts,
                stamp_text(head.time, b.opts.time),
                rows[k],
                RowMode::Instant,
            ),
            b.sample_glyphs(cols, head, rows),
        ),
        !b.header_done || b.view.header == HeaderPolicy::EverySample ==> chars(
            heading_of(b.view, cols, b.prev_ts@),
        ).is_prefix_of(b.sample_glyphs(cols, head, rows)),
        b.header_done && b.view.header == HeaderPolicy::Once ==> b.sample_glyphs(cols, head, rows)
            == rows_glyphs(
            b.view,
            *b.opts,
            stamp_text(head.time, b.opts.time),
            rows,
            RowMode::Instant,
        ),
{
    let ts = stamp_text(head.time, b.opts.time);
    let body = rows_glyphs(b.view, *b.opts, ts, rows, RowMode::Instant);
    let whole = b.sample_glyphs(cols, head, rows);
    let line = row_glyphs(b.view, *b.opts, ts, rows[k], RowMode::Instant);
    let heading = chars(heading_of(b.view, cols, b.prev_ts@));
    lemma_each_row(b.view, *b.opts, ts, rows, k);
    if b.header_done && b.view.header == HeaderPolicy::Once {
        assert(whole =~= body);
        assert(whole =~= Seq::<Glyph>::empty() + body + Seq::<Glyph>::empty());
        lemma_stands_in(Seq::empty(), body, Seq::empty(), whole);
    } else {
        assert(whole =~= heading + body + Seq::<Glyph>::empty());
        lemma_stands_in(heading, body, Seq::empty(), whole);
        assert(whole.take(heading.len() as int) =~= heading);
    }
    lemma_stands_deeper(line, body, whole);
}

/// The line of a restart starts with its time and ends with the number of CPUs; the line of a
/// comment starts with its time and ends with what it says.
pub proof fn law_event_lines_say_what_happened(ts: Seq<char>, cpu_nr: u32, text: Seq<char>)
    ensures
        (seq!['\n'] + right_padded(ts, 11) + "  LINUX RESTART\t("@).is_prefix_of(
            restart_text(ts, cpu_nr),
        ),
        (dec(cpu_nr as nat) + " CPU)\n"@).is_suffix_of(restart_text(ts, cpu_nr)),
        decimal_value(dec(cpu_nr as nat)) == cpu_nr,
        (right_padded(ts, 11) + "  COM "@).is_prefix_of(comment_text(ts, text)),
        (printable_text(text) + "\n"@).is_suffix_of(comment_text(ts, text)),
{
    law_decimals_have_their_value(cpu_nr as nat);
    let r = restart_text(ts, cpu_nr);
    let c = comment_text(ts, text);
    let a = seq!['\n'] + right_padded(ts, 11) + "  LINUX RESTART\t("@;
    let b = dec(cpu_nr as nat) + " CPU)\n"@;
    let d = right_padded(ts, 11) + "  COM "@;
    let e = printable_text(text) + "\n"@;
    assert(r.take(a.len() as int) =~= a);
    assert(r.skip(r.len() - b.len()) =~= b);
    assert(c.take(d.len() as int) =~= d);
    assert(c.skip(c.len() - e.len()) =~= e);
}

/// The day of the banner is that of the file where the recorded times are shown, and else that of
/// its creation: at the reader, or in UTC.
pub proof fn law_the_banner_has_the_day_of_the_file(h: FileHeader)
    requires
        has_date(as_signed(h.created.ust_time)),
        h.created.local.month < 256,
        h.created.local.day < 256,
    ensures
        reads_as(
            banner_day(h, TimeStyle::Recorded),
            '/',
            h.month as int,
            h.day as int,
            h.year as int % 100,
        ),
        reads_as(
            banner_day(h, TimeStyle::Local),
            '/',
            h.created.local.month as int,
            h.created.local.day as int,
            h.created.local.year as int % 100,
        ),
        banner_day(h, TimeStyle::Utc) == banner_day(h, TimeStyle::Epoch),
{
    law_short_dates_read_month_day_year(h.year as int, h.month as int, h.day as int);
    let c = h.created.local;
    assert(c.month as u8 == c.month && c.day as u8 == c.day);
    law_short_dates_read_month_day_year(c.year as int, c.month as int, c.day as int);
}

/// An amount is shown in the unit of its column, or with the letter of a unit that suits it where
/// that was asked for.
pub proof fn law_amounts_are_shown_in_their_unit(
    unit: SarUnit,
    plain_div: u32,
    bits: u64,
    opts: SarTextOptions,
)
    ensures
        !opts.human ==> value_column(Cell::IntUnit { unit, plain_div }, bits, opts) == number_column(
            bits,
            Form::Whole { divisor: plain_div },
            9,
        ),
        !opts.human && opts.dec_places is None ==> value_column(
            Cell::FloatUnit { wd: 2, unit, plain_div },
            bits,
            opts,
        ) == number_column(bits, Form::Fixed { decimals: 2, divisor: plain_div, sign: false }, 9),
        opts.human ==> value_column(Cell::IntUnit { unit, plain_div }, bits, opts) == value_column(
            Cell::FloatUnit { wd: 2, unit, plain_div },
            bits,
            opts,
        ),
        opts.human && opts.dec_places != Some(0u8) ==> value_column(
            Cell::IntUnit { unit, plain_div },
            bits,
            opts,
        ) == number_column(bits, Form::Scaled { unit, decimals: 1 }, 9),
        value_column(Cell::Int, bits, opts) == number_column(bits, Form::Whole { divisor: 1 }, 9),
        value_column(Cell::Hex, bits, opts) == number_column(bits, Form::Hex, 9),
{
}

/// Where percentages are marked as such, the mark takes the place of a decimal.
pub proof fn law_percentages_are_marked(wd: u8, bits: u64, opts: SarTextOptions)
    requires
        opts.human,
        opts.dec_places is None,
        wd >= 2,
    ensures
        value_column(Cell::Percent { wd }, bits, opts) == number_column(
            bits,
            Form::Fixed { decimals: (wd - 1) as u8, divisor: 1, sign: false },
            8,
        ) + chars("%"@),
{
}

/// The columns of CPUs that are off are left out, and no others.
pub proof fn law_columns_of_cpus_that_are_off_are_left_out(cols: Seq<int>, online: Seq<bool>, c: int)
    ensures
        online_columns(cols, online).contains(c) <==> cols.contains(c) && 0 <= c < online.len()
            && online[c],
    decreases cols.len(),
{
    if cols.len() > 0 {
        let rest = cols.drop_last();
        let before = online_columns(rest, online);
        let all = online_columns(cols, online);
        law_columns_of_cpus_that_are_off_are_left_out(rest, online, c);
        if before.contains(c) {
            let k = choose|k: int| 0 <= k < before.len() && before[k] == c;
            assert(all[k] == c);
        }
        if rest.contains(c) {
            let k = choose|k: int| 0 <= k < rest.len() && rest[k] == c;
            assert(cols[k] == c);
        }
        if cols.contains(c) {
            let k = choose|k: int| 0 <= k < cols.len() && cols[k] == c;
            if k < rest.len() {
                assert(rest[k] == c);
            }
        }
        if 0 <= cols.last() < online.len() && online[cols.last()] {
            assert(all[before.len() as int] == cols.last());
        }
        if all.contains(c) {
            let k = choose|k: int| 0 <= k < all.len() && all[k] == c;
            if k < before.len() {
                assert(before[k] == c);
            } else {
                assert(cols[cols.len() - 1] == c);
            }
        }
    }
}

/// The names that no interrupt without a name of its own can have are those that are neither a
/// number nor the sum.
pub proof fn law_unusable_names_are_no_numbers(names: Seq<String>, n: int, k: int)
    requires
        0 <= n <= names.len(),
        0 <= k < n,
    ensures
        unusable_names(names, n).contains(names[k]@) <==> !is_number_or_sum(names[k]@),
    decreases n,
{
    lemma_unusable(names, n, names[k]@);
    if !is_number_or_sum(names[k]@) {
        lemma_kept(names, n, k);
    }
}

proof fn lemma_unusable(names: Seq<String>, n: int, s: Seq<char>)
    requires
        0 <= n <= names.len(),
    ensures
        unusable_names(names, n).contains(s) ==> !is_number_or_sum(s),
    decreases n,
{
    if n > 0 {
        lemma_unusable(names, n - 1, s);
        let before = unusable_names(names, n - 1);
        let all = unusable_names(names, n);
        if all.contains(s) {
            let k = choose|k: int| 0 <= k < all.len() && all[k] == s;
            if k < before.len() {
                assert(before[k] == s);
            }
        }
    }
}

proof fn lemma_kept(names: Seq<String>, n: int, k: int)
    requires
        0 <= k < n <= names.len(),
        !is_number_or_sum(names[k]@),
    ensures
        unusable_names(names, n).contains(names[k]@),
    decreases n,
{
    let all = unusable_names(names, n);
    let before = unusable_names(names, n - 1);
    if k == n - 1 {
        assert(all[before.len() as int] == names[k]@);
    } else {
        lemma_kept(names, n - 1, k);
        let j = choose|j: int| 0 <= j < before.len() && before[j] == names[k]@;
        assert(all[j] == names[k]@);
    }
}

}
