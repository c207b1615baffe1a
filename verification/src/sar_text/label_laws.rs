//! What tells the items of a block apart, and how single values look.

use vstd::arithmetic::power::{lemma_pow1, lemma_pow_adds, pow};
use vstd::prelude::*;

use crate::doc::Form;
use crate::model::{as_signed, ActivityId, DecodePlan, ItemSnapshot};
use crate::sar_text::cell::{bat_status_text, number_column, value_column};
use crate::sar_text::column_laws::headings_of;
use crate::sar_text::header::MANUFACTURER_WIDTH;
use crate::sar_text::layout::{
    activity_models, AvgLabel, Cell, HeadItem, HeaderPolicy, Layout, TailItem,
};
use crate::sar_text::lines::{head_text, tail_text};
use crate::sar_text::options::SarTextOptions;
use crate::sar_text::rows::{
    disk_title, item_title, key_of, label_of, KeyModel, LabelModel, TailModel,
};
use crate::text::{dec, hex, int_dec, repeated, zero_filled};
use crate::text_laws::{
    aligned, decimal_value, hexadecimal_value, lacks, law_decimals_have_their_value,
    law_hexadecimals_have_their_value, law_padding_keeps_the_text, law_signed_decimals,
};

verus! {

/// Where a block tells its items: the columns that this takes at the start of a line, and
/// whether a name stands at the end.
pub struct Place {
    pub start: int,
    pub at_end: bool,
}

/// Where the items of an activity are told.
pub open spec fn place_of(id: ActivityId, opts: SarTextOptions) -> Place {
    match id {
        ActivityId::CPU
        | ActivityId::NET_SOFT
        | ActivityId::PWR_CPU
        | ActivityId::PWR_FREQ => Place { start: 8, at_end: false },
        ActivityId::SERIAL | ActivityId::PWR_BAT => Place { start: 10, at_end: false },
        ActivityId::IRQ
        | ActivityId::DISK
        | ActivityId::NET_DEV
        | ActivityId::NET_EDEV => if opts.pretty {
            Place { start: 0, at_end: true }
        } else {
            Place { start: 10, at_end: false }
        },
        ActivityId::FS | ActivityId::NET_FC => Place { start: 0, at_end: true },
        ActivityId::PWR_FAN | ActivityId::PWR_TEMP | ActivityId::PWR_IN => Place {
            start: 10,
            at_end: true,
        },
        ActivityId::PWR_USB => Place { start: 8, at_end: true },
        _ => Place { start: 0, at_end: false },
    }
}

/// The columns that tell an item at the start of a line.
pub open spec fn room_of(head: HeadItem) -> int {
    match head {
        HeadItem::Nothing => 0,
        HeadItem::Cpu7 | HeadItem::Cpu3 | HeadItem::Bus6 => 8,
        HeadItem::Name9 | HeadItem::Line3 | HeadItem::Index5 => 10,
    }
}

/// The items of a block are told where its headings say: at the start of a line below their
/// heading, at the end of it, or not at all where there is one item only.
pub proof fn law_items_are_told_below_their_headings(id: ActivityId, opts: SarTextOptions, i: int)
    requires
        0 <= i < activity_models(id, opts).len(),
    ensures
        ({
            let v = activity_models(id, opts)[i];
            let p = place_of(id, opts);
            &&& v.id == id
            &&& room_of(v.head) == p.start
            &&& (v.tail != TailItem::Nothing) == p.at_end
            &&& id != ActivityId::PWR_USB ==> (v.iwidth < 0) == p.at_end
            &&& id != ActivityId::PWR_USB ==> (v.iwidth == 7) == (p.start == 8)
            &&& v.iwidth < 0 ==> -v.iwidth == headings_of(id, opts, i).items.len()
            &&& (v.layout == Layout::Single) == (p.start == 0 && !p.at_end)
        }),
{
}

/// The headings of the activities with an item on each line are repeated with each sample where
/// unchanged items are left out; those of the interrupts always are.
pub proof fn law_headings_are_repeated_where_lines_are_left_out(
    id: ActivityId,
    opts: SarTextOptions,
    i: int,
)
    requires
        0 <= i < activity_models(id, opts).len(),
    ensures
        (activity_models(id, opts)[i].header == HeaderPolicy::EverySample) <==> (id
            == ActivityId::IRQ || opts.zero_omit && (id == ActivityId::SERIAL || id
            == ActivityId::DISK || id == ActivityId::NET_DEV || id == ActivityId::NET_EDEV || id
            == ActivityId::FS || id == ActivityId::NET_SOFT)),
        activity_models(id, opts)[i].avg_label == (if id == ActivityId::PWR_USB {
            AvgLabel::Summary
        } else if id == ActivityId::FS {
            AvgLabel::SummaryOrLast
        } else {
            AvgLabel::Average
        }),
{
}

/// What a label reads.
pub open spec fn reading(label: LabelModel) -> Seq<char> {
    match label {
        LabelModel::Nothing => Seq::empty(),
        LabelModel::Aggregate => "all"@,
        LabelModel::Number(n) => int_dec(n),
        LabelModel::Name(s) => s,
    }
}

/// Whether a label is one of those that stand at the start of a line in this way.
pub open spec fn suits(head: HeadItem, label: LabelModel) -> bool {
    match head {
        HeadItem::Nothing => label is Nothing,
        HeadItem::Cpu7 | HeadItem::Cpu3 => label is Aggregate || label is Number,
        HeadItem::Name9 => label is Name,
        HeadItem::Line3 | HeadItem::Index5 | HeadItem::Bus6 => label is Number,
    }
}

/// What tells an item stands at the right end of its room.
pub proof fn law_labels_stand_at_the_right(head: HeadItem, label: LabelModel)
    requires
        suits(head, label),
        reading(label).len() <= (match head {
            HeadItem::Cpu3 | HeadItem::Line3 => 3int,
            HeadItem::Index5 => 5,
            HeadItem::Bus6 => 6,
            HeadItem::Cpu7 => 7,
            _ => 9,
        }),
        vstd::utf8::is_ascii_chars(reading(label)),
    ensures
        head_text(head, label) == aligned(reading(label), room_of(head) as nat),
{
    reveal_strlit("");
    reveal_strlit(" ");
    reveal_strlit("  ");
    reveal_strlit("     ");
    reveal_strlit("       ");
    reveal_strlit("     all");
    reveal_strlit("all");
    let s = reading(label);
    law_padding_keeps_the_text(s, 3);
    law_padding_keeps_the_text(s, 5);
    law_padding_keeps_the_text(s, 6);
    law_padding_keeps_the_text(s, 7);
    law_padding_keeps_the_text(s, 9);
    assert(head_text(head, label) =~= aligned(s, room_of(head) as nat));
}

/// The CPU at the first place is all of them together, and each of the others has a number that
/// is one below its place.
pub proof fn law_cpus_are_counted_from_zero(
    head: HeadItem,
    id: ActivityId,
    opts: SarTextOptions,
    plan: DecodePlan,
    item: ItemSnapshot,
    index: int,
)
    requires
        head == HeadItem::Cpu7 || head == HeadItem::Cpu3,
        0 <= index,
    ensures
        index == 0 ==> reading(label_of(head, id, opts, plan, item, index)) == "all"@,
        index > 0 ==> decimal_value(reading(label_of(head, id, opts, plan, item, index))) + 1
            == index,
{
    if index > 0 {
        law_decimals_have_their_value((index - 1) as nat);
        law_signed_decimals(index - 1);
    }
}

/// Fans and temperatures are counted from 1, voltages from 0; a bus has its own number.
pub proof fn law_sensors_are_counted_from_one(
    id: ActivityId,
    opts: SarTextOptions,
    plan: DecodePlan,
    item: ItemSnapshot,
    index: int,
)
    requires
        0 <= index,
    ensures
        id == ActivityId::PWR_FAN || id == ActivityId::PWR_TEMP ==> label_of(
            HeadItem::Index5,
            id,
            opts,
            plan,
            item,
            index,
        ) == LabelModel::Number(index + 1),
        id == ActivityId::PWR_IN ==> label_of(HeadItem::Index5, id, opts, plan, item, index)
            == LabelModel::Number(index),
        label_of(HeadItem::Bus6, id, opts, plan, item, index) == LabelModel::Number(
            as_signed(plan.raw_or(item, 0, 0)),
        ),
        plan.raw_or(item, 0, 0) >= plan.serial_line_offset ==> label_of(
            HeadItem::Line3,
            id,
            opts,
            plan,
            item,
            index,
        ) == LabelModel::Number(
            as_signed((plan.raw_or(item, 0, 0) - plan.serial_line_offset) as u64),
        ),
{
}

/// A disk goes by its two numbers, the major one before the minor one, unless it has a name of
/// its own and such names are asked for.
pub proof fn law_disks_go_by_their_numbers(
    plan: DecodePlan,
    item: ItemSnapshot,
    opts: SarTextOptions,
    index: int,
)
    requires
        !opts.dev_sid || plan.raw_or(item, 10, 0) == 0,
    ensures
        ({
            let title = item_title(ActivityId::DISK, opts, plan, item, index);
            let major = dec(plan.raw_or(item, 0, 0) as nat);
            let minor = dec(plan.raw_or(item, 1, 0) as nat);
            &&& title == "dev"@ + major + seq!['-'] + minor
            &&& decimal_value(major) == plan.raw_or(item, 0, 0)
            &&& decimal_value(minor) == plan.raw_or(item, 1, 0)
            &&& lacks(major, '-')
            &&& key_of(ActivityId::DISK, plan, item, index) == KeyModel::Dev(
                plan.raw_or(item, 0, 0),
                plan.raw_or(item, 1, 0),
            )
        }),
{
    reveal_strlit("-");
    law_decimals_have_their_value(plan.raw_or(item, 0, 0) as nat);
    law_decimals_have_their_value(plan.raw_or(item, 1, 0) as nat);
    let major = dec(plan.raw_or(item, 0, 0) as nat);
    assert("-"@ =~= seq!['-']);
    assert forall|k: int| 0 <= k < major.len() implies #[trigger] major[k] != '-' by {
        assert(48 <= major[k] as u32 <= 57);
    }
}

/// The name of a disk that has one of its own: the two halves of its number in hexadecimal, the
/// high one first, and the number of the partition.
pub proof fn law_disks_go_by_their_own_names(
    plan: DecodePlan,
    item: ItemSnapshot,
    opts: SarTextOptions,
    index: int,
)
    requires
        opts.dev_sid,
        plan.raw_or(item, 10, 0) != 0,
    ensures
        ({
            let title = item_title(ActivityId::DISK, opts, plan, item, index);
            let low = plan.raw_or(item, 11, 0);
            let part = plan.raw_or(item, 12, 0);
            let high = title.subrange(2, 2 + if hex(plan.raw_or(item, 10, 0) as nat).len() > 14 {
                hex(plan.raw_or(item, 10, 0) as nat).len() as int
            } else {
                14
            });
            &&& title.take(2) == "0x"@
            &&& hexadecimal_value(high) == plan.raw_or(item, 10, 0)
            &&& low == 0 && part == 0 ==> title.len() == 2 + high.len()
            &&& low != 0 && part == 0 ==> title.len() == 18 + high.len() && hexadecimal_value(
                title.skip(2 + high.len() as int),
            ) == low
            &&& part != 0 ==> ("-"@ + dec(part as nat)).is_suffix_of(title)
        }),
{
    reveal_strlit("0x");
    reveal_strlit("-");
    let h = plan.raw_or(item, 10, 0);
    let low = plan.raw_or(item, 11, 0);
    let part = plan.raw_or(item, 12, 0);
    law_hexadecimals_have_their_value(h as nat);
    law_hexadecimals_have_their_value(low as nat);
    let title = disk_title(plan, item, true);
    let filled = zero_filled(hex(h as nat), 14);
    let rest = zero_filled(hex(low as nat), 16);
    lemma_filled_hexadecimal(h as nat, 14);
    lemma_filled_hexadecimal(low as nat, 16);
    reveal_with_fuel(pow, 17);
    assert(pow(16, 16) == 0x1_0000_0000_0000_0000);
    lemma_short_hexadecimal(low as nat, 16);
    assert(title.take(2) =~= "0x"@);
    assert(title.subrange(2, 2 + filled.len() as int) =~= filled);
    if low != 0 && part == 0 {
        assert(title.skip(2 + filled.len() as int) =~= rest);
    }
    if part != 0 {
        let end = "-"@ + dec(part as nat);
        assert(title.skip(title.len() - end.len()) =~= end);
    }
}

proof fn lemma_filled_hexadecimal(n: nat, width: nat)
    ensures
        hexadecimal_value(zero_filled(hex(n), width)) == n,
{
    law_hexadecimals_have_their_value(n);
    if hex(n).len() < width {
        lemma_zeros_before(hex(n), (width - hex(n).len()) as nat);
    }
}

proof fn lemma_zeros_before(s: Seq<char>, k: nat)
    ensures
        hexadecimal_value(repeated('0', k) + s) == hexadecimal_value(s),
    decreases s.len(), k,
{
    let all = repeated('0', k) + s;
    if s.len() > 0 {
        lemma_zeros_before(s.drop_last(), k);
        assert(all.drop_last() =~= repeated('0', k) + s.drop_last());
    } else if k > 0 {
        lemma_zeros_before(s, (k - 1) as nat);
        assert(all.drop_last() =~= repeated('0', (k - 1) as nat) + s);
        assert(all.last() == '0');
    } else {
        assert(all =~= s);
    }
}

proof fn lemma_short_hexadecimal(n: nat, k: nat)
    requires
        k >= 1,
        n < pow(16, k),
    ensures
        hex(n).len() <= k,
    decreases k,
{
    lemma_pow1(16);
    if n >= 16 {
        lemma_pow_adds(16, 1, (k - 1) as nat);
        if k > 1 {
            assert(n / 16 < pow(16, (k - 1) as nat)) by (nonlinear_arith)
                requires
                    n < 16 * pow(16, (k - 1) as nat),
            ;
            lemma_short_hexadecimal(n / 16, (k - 1) as nat);
        }
    }
}

/// The names at the end of a line: that of the item, or the maker and the product of a device.
pub proof fn law_names_at_the_end(m: Seq<char>, p: Seq<char>, s: Seq<char>)
    requires
        vstd::utf8::is_ascii_chars(m),
    ensures
        tail_text(TailModel::Name(s)) == seq![' '] + s,
        m.is_prefix_of(tail_text(TailModel::Usb(m, p)).skip(1)),
        p.is_suffix_of(tail_text(TailModel::Usb(m, p))),
{
    reveal_strlit(" ");
    assert(" "@ =~= seq![' ']);
    let t = tail_text(TailModel::Usb(m, p));
    law_padding_keeps_the_text(
        m,
        MANUFACTURER_WIDTH as nat,
    );
    assert(t.skip(1).take(m.len() as int) =~= m);
    assert(t.skip(t.len() - p.len()) =~= p);
}

/// The arrows that stand for the states of a battery: up while it is charged, down while it is
/// used, level where it does neither, and straight up where it is full.
pub open spec fn battery_arrow(state: u64) -> char {
    match state {
        1 => '\u{2197}',
        2 => '\u{2198}',
        3 => '\u{2192}',
        4 => '\u{2191}',
        _ => '?',
    }
}

/// The state of a battery is shown by its arrow, behind blanks.
pub proof fn law_batteries_are_shown_by_arrows(state: u64)
    ensures
        bat_status_text(state).last() == battery_arrow(state),
        forall|k: int|
            0 <= k < bat_status_text(state).len() - 1 ==> #[trigger] bat_status_text(state)[k] == ' ',
{
    reveal_strlit("\u{2197}");
    reveal_strlit("\u{2198}");
    reveal_strlit("\u{2192}");
    reveal_strlit("\u{2191}");
    reveal_strlit("?");
}

/// Without options for it, a number with decimals has as many as its column says, and stands at
/// the right end of ten columns; with a number of decimals asked for, it has that many, unless
/// the column has none.
pub proof fn law_numbers_have_the_decimals_asked_for(
    wd: u8,
    sign: bool,
    bits: u64,
    opts: SarTextOptions,
    d: u8,
)
    requires
        opts.dec_places == Some(d) && wd > 0 || opts.dec_places is None && d == wd || wd == 0 && d
            == 0,
    ensures
        value_column(Cell::Float { wd, sign }, bits, opts) == number_column(
            bits,
            Form::Fixed { decimals: d, divisor: 1, sign },
            9,
        ),
        !opts.human ==> value_column(Cell::Percent { wd }, bits, opts) == number_column(
            bits,
            Form::Fixed { decimals: d, divisor: 1, sign: false },
            9,
        ),
{
}

}
