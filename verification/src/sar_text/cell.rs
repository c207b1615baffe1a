//! How a value is laid out in its column.

use vstd::prelude::*;

use crate::doc::{averaged, chars, number, Doc, Form, Glyph, Mean, MeanModel, Slot};
use crate::model::{ComputeIssue, Computed, ZERO_BITS};
use crate::sar_text::header::VALUE_WIDTH;
use crate::sar_text::layout::Cell;
use crate::sar_text::options::SarTextOptions;
use crate::text::{byte_len, left_padded, pad_left, push_char};

verus! {

/// What stands for a value that could not be computed.
pub const UNKNOWN: &'static str = "?";

/// The whole part of a double that is at least 1 and less than 5; 0 for any other. The bit
/// patterns of positive doubles grow with the doubles.
pub open spec fn small_whole(bits: u64) -> u64 {
    if 0x3ff0_0000_0000_0000 <= bits < 0x4000_0000_0000_0000 {
        1
    } else if 0x4000_0000_0000_0000 <= bits < 0x4008_0000_0000_0000 {
        2
    } else if 0x4008_0000_0000_0000 <= bits < 0x4010_0000_0000_0000 {
        3
    } else if 0x4010_0000_0000_0000 <= bits < 0x4014_0000_0000_0000 {
        4
    } else {
        0
    }
}

/// The whole part of a double that is at least 1 and less than 5; 0 for any other.
pub fn whole_part(bits: u64) -> (r: u64)
    ensures
        r == small_whole(bits),
{
    if 0x3ff0_0000_0000_0000 <= bits && bits < 0x4000_0000_0000_0000 {
        1
    } else if 0x4000_0000_0000_0000 <= bits && bits < 0x4008_0000_0000_0000 {
        2
    } else if 0x4008_0000_0000_0000 <= bits && bits < 0x4010_0000_0000_0000 {
        3
    } else if 0x4010_0000_0000_0000 <= bits && bits < 0x4014_0000_0000_0000 {
        4
    } else {
        0
    }
}

/// The state of a battery: an arrow in eleven bytes, or a question mark in nine. An arrow has
/// three bytes, so both fill the same columns on a screen.
pub open spec fn bat_status_text(status: u64) -> Seq<char> {
    seq![' '] + if status == 1 {
        left_padded("\u{2197}"@, 11)
    } else if status == 2 {
        left_padded("\u{2198}"@, 11)
    } else if status == 3 {
        left_padded("\u{2192}"@, 11)
    } else if status == 4 {
        left_padded("\u{2191}"@, 11)
    } else {
        left_padded("?"@, 9)
    }
}

/// The state of a battery.
pub fn bat_status_cell(status: u64) -> (r: String)
    ensures
        r@ == bat_status_text(status),
{
    let mut out = String::new();
    push_char(&mut out, ' ');
    let body = if status == 1 {
        pad_left("\u{2197}", 11)
    } else if status == 2 {
        pad_left("\u{2198}", 11)
    } else if status == 3 {
        pad_left("\u{2192}", 11)
    } else if status == 4 {
        pad_left("\u{2191}", 11)
    } else {
        pad_left("?", 9)
    };
    out.append(body.as_str());
    out
}

/// A column that holds a number.
pub open spec fn number_column(bits: u64, form: Form, width: usize) -> Seq<Glyph> {
    chars(" "@) + number(Slot { bits, form, width })
}

/// A value with a fixed number of decimals.
pub open spec fn fixed(decimals: u8, divisor: u32, sign: bool) -> Form {
    Form::Fixed { decimals, divisor, sign }
}

/// A value in its column.
pub open spec fn value_column(cell: Cell, bits: u64, opts: SarTextOptions) -> Seq<Glyph> {
    match cell {
        Cell::Float { wd, sign } => number_column(
            bits,
            fixed(opts.decimals_of(wd), 1, sign),
            VALUE_WIDTH,
        ),
        Cell::Int => number_column(bits, Form::Whole { divisor: 1 }, VALUE_WIDTH),
        Cell::Hex => number_column(bits, Form::Hex, VALUE_WIDTH),
        Cell::Percent { wd } => {
            let d = opts.decimals_of(wd);
            if opts.human {
                // The sign takes one column, and one decimal where there are several.
                number_column(
                    bits,
                    fixed(
                        if d > 1 {
                            (d - 1) as u8
                        } else {
                            d
                        },
                        1,
                        false,
                    ),
                    8,
                ) + chars("%"@)
            } else {
                number_column(bits, fixed(d, 1, false), VALUE_WIDTH)
            }
        },
        Cell::FloatUnit { wd, unit, plain_div } => if opts.human {
            number_column(
                bits,
                Form::Scaled { unit, decimals: opts.scaled_decimals() },
                VALUE_WIDTH,
            )
        } else {
            number_column(bits, fixed(opts.decimals_of(wd), plain_div, false), VALUE_WIDTH)
        },
        Cell::IntUnit { unit, plain_div } => if opts.human {
            number_column(
                bits,
                Form::Scaled { unit, decimals: opts.scaled_decimals() },
                VALUE_WIDTH,
            )
        } else {
            number_column(bits, Form::Whole { divisor: plain_div }, VALUE_WIDTH)
        },
        Cell::BatStatus => chars(bat_status_text(small_whole(bits))),
    }
}

/// A column. A value that the generation of the file does not have counts as 0; any other
/// value that there is not is a question mark, so that it cannot be taken for 0.
pub open spec fn cell_glyphs(cell: Cell, value: Computed, opts: SarTextOptions) -> Seq<Glyph> {
    match value {
        Ok(bits) => value_column(cell, bits, opts),
        Err(ComputeIssue::UnsupportedBySource) => value_column(cell, ZERO_BITS, opts),
        Err(_) => chars(seq![' '] + left_padded(UNKNOWN@, VALUE_WIDTH as nat)),
    }
}

fn number_cell(bits: u64, form: Form, width: usize) -> (r: Doc)
    ensures
        r@ == number_column(bits, form, width),
{
    let mut out = Doc::of(" ");
    out.put_number(Slot { bits, form, width });
    out
}

impl Cell {
    /// A value in its column.
    fn render_value(self, bits: u64, opts: &SarTextOptions) -> (r: Doc)
        ensures
            r@ == value_column(self, bits, *opts),
    {
        match self {
            Cell::Float { wd, sign } => number_cell(
                bits,
                Form::Fixed { decimals: opts.decimals(wd), divisor: 1, sign },
                VALUE_WIDTH,
            ),
            Cell::Int => number_cell(bits, Form::Whole { divisor: 1 }, VALUE_WIDTH),
            Cell::Hex => number_cell(bits, Form::Hex, VALUE_WIDTH),
            Cell::Percent { wd } => {
                let d: u8 = opts.decimals(wd);
                if opts.human {
                    let decimals: u8 = if d > 1 {
                        d - 1
                    } else {
                        d
                    };
                    let mut out = number_cell(
                        bits,
                        Form::Fixed { decimals, divisor: 1, sign: false },
                        8,
                    );
                    out.put("%");
                    out
                } else {
                    number_cell(
                        bits,
                        Form::Fixed { decimals: d, divisor: 1, sign: false },
                        VALUE_WIDTH,
                    )
                }
            },
            Cell::FloatUnit { wd, unit, plain_div } => if opts.human {
                number_cell(
                    bits,
                    Form::Scaled { unit, decimals: opts.unit_decimals() },
                    VALUE_WIDTH,
                )
            } else {
                number_cell(
                    bits,
                    Form::Fixed { decimals: opts.decimals(wd), divisor: plain_div, sign: false },
                    VALUE_WIDTH,
                )
            },
            Cell::IntUnit { unit, plain_div } => if opts.human {
                number_cell(
                    bits,
                    Form::Scaled { unit, decimals: opts.unit_decimals() },
                    VALUE_WIDTH,
                )
            } else {
                number_cell(bits, Form::Whole { divisor: plain_div }, VALUE_WIDTH)
            },
            Cell::BatStatus => Doc::of(bat_status_cell(whole_part(bits)).as_str()),
        }
    }

    /// A column.
    pub fn render(self, value: Computed, opts: &SarTextOptions) -> (r: Doc)
        ensures
            r@ == cell_glyphs(self, value, *opts),
    {
        match value {
            Ok(bits) => self.render_value(bits, opts),
            Err(ComputeIssue::UnsupportedBySource) => self.render_value(ZERO_BITS, opts),
            Err(_) => {
                let mut out = String::new();
                push_char(&mut out, ' ');
                out.append(pad_left(UNKNOWN, VALUE_WIDTH).as_str());
                Doc::of(out.as_str())
            },
        }
    }
}

/// A mean in its column.
pub open spec fn mean_glyphs(cell: Cell, m: MeanModel, opts: SarTextOptions) -> Seq<Glyph> {
    averaged(value_column(cell, ZERO_BITS, opts), m)
}

impl Cell {
    /// A mean in its column.
    pub fn render_mean(self, m: &Mean, opts: &SarTextOptions) -> (r: Doc)
        ensures
            r@ == mean_glyphs(self, m.model(), *opts),
    {
        self.render_value(ZERO_BITS, opts).with_mean(m)
    }
}

/// The columns that glyphs take where each number fits its room.
pub open spec fn columns_taken(g: Seq<Glyph>) -> nat
    decreases g.len(),
{
    if g.len() == 0 {
        0
    } else {
        columns_taken(g.drop_last()) + match g.last() {
            Glyph::Num(n) => n.width as nat,
            Glyph::Avg(_, _, width) => width as nat,
            _ => 1nat,
        }
    }
}

proof fn lemma_columns_of_number(bits: u64, form: Form, width: usize)
    ensures
        columns_taken(number_column(bits, form, width)) == width + 1,
{
    let n = Slot { bits, form, width };
    reveal_strlit(" ");
    let g = number_column(bits, form, width);
    assert(g =~= seq![Glyph::Ch(' '), Glyph::Num(n)]);
    assert(g.drop_last() =~= seq![Glyph::Ch(' ')]);
    assert(g.drop_last().drop_last() =~= Seq::empty());
    reveal_with_fuel(columns_taken, 3);
}

pub(crate) proof fn lemma_columns_of_text(s: Seq<char>)
    ensures
        columns_taken(chars(s)) == s.len(),
    decreases s.len(),
{
    if s.len() > 0 {
        lemma_columns_of_text(s.drop_last());
        assert(chars(s).drop_last() =~= chars(s.drop_last()));
    }
}

/// A character between U+0800 and U+D7FF has three bytes.
proof fn lemma_three_bytes(c: char)
    requires
        0x800 <= c as u32 <= 0xd7ff,
    ensures
        byte_len(seq![c]) == 3,
{
    reveal_with_fuel(vstd::utf8::encode_utf8, 2);
    assert(seq![c].drop_first() =~= Seq::empty());
}

/// The state of a battery takes ten columns: an arrow is one column wide and has three bytes.
proof fn lemma_battery_columns(status: u64)
    ensures
        bat_status_text(status).len() == 10,
{
    reveal_strlit("\u{2197}");
    reveal_strlit("\u{2198}");
    reveal_strlit("\u{2192}");
    reveal_strlit("\u{2191}");
    reveal_strlit("?");
    assert("\u{2197}"@ =~= seq!['\u{2197}']);
    assert("\u{2198}"@ =~= seq!['\u{2198}']);
    assert("\u{2192}"@ =~= seq!['\u{2192}']);
    assert("\u{2191}"@ =~= seq!['\u{2191}']);
    lemma_three_bytes('\u{2197}');
    lemma_three_bytes('\u{2198}');
    lemma_three_bytes('\u{2192}');
    lemma_three_bytes('\u{2191}');
    assert(vstd::utf8::is_ascii_chars("?"@));
    vstd::utf8::is_ascii_chars_encode_utf8("?"@);
}

/// A value takes ten columns, whatever the options are and whether it is there or not: more
/// decimals, units and percent signs change what stands in the columns only, and so does the
/// state of a battery.
pub proof fn law_a_value_takes_ten_columns(cell: Cell, value: Computed, opts: SarTextOptions)
    ensures
        columns_taken(cell_glyphs(cell, value, opts)) == 10,
{
    reveal_strlit("?");
    reveal_strlit("%");
    assert(vstd::utf8::is_ascii_chars(UNKNOWN@));
    vstd::utf8::is_ascii_chars_encode_utf8(UNKNOWN@);
    lemma_columns_of_text(seq![' '] + left_padded(UNKNOWN@, VALUE_WIDTH as nat));
    let bits = match value {
        Ok(b) => b,
        Err(_) => ZERO_BITS,
    };
    let shown = value_column(cell, bits, opts);
    match cell {
        Cell::Percent { wd } => if opts.human {
            let d = opts.decimals_of(wd);
            let form = fixed(
                if d > 1 {
                    (d - 1) as u8
                } else {
                    d
                },
                1,
                false,
            );
            lemma_columns_of_number(bits, form, 8);
            assert(chars("%"@) =~= seq![Glyph::Ch('%')]);
            assert(shown.drop_last() =~= number_column(bits, form, 8));
        } else {
            lemma_columns_of_number(bits, fixed(opts.decimals_of(wd), 1, false), VALUE_WIDTH);
        },
        Cell::Float { wd, sign } => {
            lemma_columns_of_number(bits, fixed(opts.decimals_of(wd), 1, sign), VALUE_WIDTH);
        },
        Cell::Int => {
            lemma_columns_of_number(bits, Form::Whole { divisor: 1 }, VALUE_WIDTH);
        },
        Cell::Hex => {
            lemma_columns_of_number(bits, Form::Hex, VALUE_WIDTH);
        },
        Cell::FloatUnit { wd, unit, plain_div } => {
            lemma_columns_of_number(
                bits,
                Form::Scaled { unit, decimals: opts.scaled_decimals() },
                VALUE_WIDTH,
            );
            lemma_columns_of_number(
                bits,
                fixed(opts.decimals_of(wd), plain_div, false),
                VALUE_WIDTH,
            );
        },
        Cell::IntUnit { unit, plain_div } => {
            lemma_columns_of_number(
                bits,
                Form::Scaled { unit, decimals: opts.scaled_decimals() },
                VALUE_WIDTH,
            );
            lemma_columns_of_number(bits, Form::Whole { divisor: plain_div }, VALUE_WIDTH);
        },
        Cell::BatStatus => {
            lemma_battery_columns(small_whole(bits));
            lemma_columns_of_text(bat_status_text(small_whole(bits)));
        },
    }
}

proof fn lemma_columns_of_mean(g: Seq<Glyph>, m: MeanModel)
    ensures
        columns_taken(averaged(g, m)) == columns_taken(g),
    decreases g.len(),
{
    if g.len() > 0 {
        lemma_columns_of_mean(g.drop_last(), m);
        assert(averaged(g, m).drop_last() =~= averaged(g.drop_last(), m));
    }
}

/// A mean takes ten columns, as a value does.
pub proof fn law_a_mean_takes_ten_columns(cell: Cell, m: MeanModel, opts: SarTextOptions)
    ensures
        columns_taken(mean_glyphs(cell, m, opts)) == 10,
{
    law_a_value_takes_ten_columns(cell, Ok(ZERO_BITS), opts);
    lemma_columns_of_mean(value_column(cell, ZERO_BITS, opts), m);
}

}
