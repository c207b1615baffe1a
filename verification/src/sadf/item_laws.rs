//! Which items are shown, what they are called, and which of their values are shown.

use vstd::prelude::*;

use crate::doc::{Form, Slot};
use crate::model::{ActivityId, Availability, ComputeIssue, ItemSnapshot};
use crate::sadf::access::{column_position, partner, ActivityPair, ItemFacts, ItemModel, ItemShape};
use crate::sadf::config::SadfConfig;
use crate::sadf::items::{irq_at, irq_title, item_passes, items_shown, passing};
use crate::sadf::render::{battery_state, device_name, field_shown, label_of};
use crate::sadf::table::{Field, Fmt, ItemKind};
use crate::sadf::value::{cpu_label, value_shown, LabelModel, ShownModel};
use crate::sar_text::options::name_passes;
use crate::text::dec;
use crate::text_laws::{decimal_value, lacks, law_decimals_have_their_value};

verus! {

proof fn lemma_passing(
    cfg: SadfConfig,
    id: ActivityId,
    kind: ItemKind,
    list: Seq<ItemModel>,
    raw: bool,
    x: ItemModel,
)
    ensures
        passing(cfg, id, kind, list, raw).contains(x) <==> list.contains(x) && item_passes(
            cfg,
            id,
            kind,
            x,
            raw,
        ),
    decreases list.len(),
{
    if list.len() > 0 {
        let rest = list.drop_last();
        let before = passing(cfg, id, kind, rest, raw);
        let all = passing(cfg, id, kind, list, raw);
        lemma_passing(cfg, id, kind, rest, raw, x);
        if before.contains(x) {
            let k = choose|k: int| 0 <= k < before.len() && before[k] == x;
            assert(all[k] == x);
        }
        if rest.contains(x) {
            let k = choose|k: int| 0 <= k < rest.len() && rest[k] == x;
            assert(list[k] == x);
        }
        if list.contains(x) {
            let k = choose|k: int| 0 <= k < list.len() && list[k] == x;
            if k < rest.len() {
                assert(rest[k] == x);
            }
        }
        if item_passes(cfg, id, kind, list.last(), raw) {
            assert(all[before.len() as int] == list.last());
            if all.contains(x) {
                let k = choose|k: int| 0 <= k < all.len() && all[k] == x;
                if k < before.len() {
                    assert(before[k] == x);
                } else {
                    assert(list[list.len() - 1] == x);
                }
            }
        }
    }
}

/// An item is shown exactly where it is one of the sample, is in use, and was selected: a CPU by
/// its number, and a disk or what goes by a name by that name. A CPU that was off is shown with
/// the raw counters only.
pub proof fn law_items_shown_are_those_selected(
    cfg: SadfConfig,
    kind: ItemKind,
    pair: ActivityPair<'_>,
    raw: bool,
    x: ItemModel,
)
    ensures
        items_shown(cfg, kind, pair, raw).contains(x) <==> {
            &&& pair.rows_upto(pair.row_count()).contains(x)
            &&& !(x.facts matches Some(f) && f.unused)
            &&& raw || !(x.facts matches Some(f) && f.offline)
            &&& kind is Cpu ==> cfg.cpus.selects(x.index)
            &&& kind is Disk || kind is Name ==> name_passes(
                cfg.item_names@,
                pair.id,
                label_of(kind, x).db,
            )
        },
{
    lemma_passing(cfg, pair.id, kind, pair.rows_upto(pair.row_count()), raw, x);
}

/// The items of an activity that is no matrix are those of the sample in their order, each
/// compared with its partner at the sample before.
pub proof fn law_rows_are_the_items_of_the_sample(pair: ActivityPair<'_>, n: int, k: int)
    requires
        pair.sample.def.shape != ItemShape::Matrix,
        0 <= k < n <= pair.sample.curr.items@.len(),
    ensures
        pair.rows_upto(n).len() == n,
        pair.rows_upto(n)[k].curr == pair.sample.curr.items@[k],
        pair.rows_upto(n)[k].index == k,
        pair.rows_upto(n)[k].prev == partner(pair.sample.prev, pair.sample.curr.items@[k], k),
        k < pair.sample.items@.len() ==> pair.rows_upto(n)[k].facts == Some(pair.sample.items@[k]),
    decreases n,
{
    if n == 1 {
        reveal_with_fuel(ActivityPair::rows_upto, 2);
    } else if k < n - 1 {
        law_rows_are_the_items_of_the_sample(pair, n - 1, k);
    } else {
        law_rows_are_the_items_of_the_sample(pair, n - 1, 0);
    }
}

proof fn lemma_first_column(item: ItemModel, name: Seq<char>, i: int, n: int)
    requires
        0 <= i < n <= item.def.columns@.len(),
        item.def.columns@[i].public_name@ == name,
        forall|j: int| 0 <= j < i ==> (#[trigger] item.def.columns@[j]).public_name@ != name,
    ensures
        column_position(item.def.columns@, name, n) == Some(i),
    decreases n,
{
    if i < n - 1 {
        lemma_first_column(item, name, i, n - 1);
    } else {
        lemma_no_column(item, name, n - 1);
    }
}

proof fn lemma_no_column(item: ItemModel, name: Seq<char>, n: int)
    requires
        0 <= n <= item.def.columns@.len(),
        forall|j: int| 0 <= j < n ==> (#[trigger] item.def.columns@[j]).public_name@ != name,
    ensures
        column_position(item.def.columns@, name, n) is None,
    decreases n,
{
    if n > 0 {
        lemma_no_column(item, name, n - 1);
    }
}

/// A value is read by the name of its column: the one that was worked out for the column, and
/// the counters of that column at the sample and at the one before.
pub proof fn law_values_are_those_of_the_column_named(
    item: ItemModel,
    f: ItemFacts,
    before: ItemSnapshot,
    name: Seq<char>,
    i: int,
)
    requires
        item.row is None,
        item.facts == Some(f),
        item.prev == Some(before),
        item.ctx.has_prev,
        0 <= i < item.def.columns@.len(),
        i < f.shown@.len(),
        item.def.columns@[i].public_name@ == name,
        forall|j: int| 0 <= j < i ==> (#[trigger] item.def.columns@[j]).public_name@ != name,
    ensures
        item.computed_by_name(name) == f.shown@[i],
        item.raw_by_name(name, false) == item.plan.column(item.curr.values@, i),
        item.raw_by_name(name, true) == item.plan.column(before.values@, i),
{
    lemma_first_column(item, name, i, item.def.columns@.len() as int);
}

/// Where interrupts are counted for each CPU, the count of an interrupt on a CPU is the item at
/// the row of the CPU and the column of the interrupt.
pub proof fn law_interrupts_are_those_of_their_cpu(pair: ActivityPair<'_>, cpu: int, irq: int)
    requires
        pair.transposed(),
        pair.sample.def.shape == ItemShape::Matrix,
        pair.sample.curr.nr2 > 0,
        0 <= cpu,
        0 <= irq < pair.sample.curr.nr2,
        cpu * pair.sample.curr.nr2 + irq < pair.sample.curr.items@.len(),
    ensures
        irq_at(pair, cpu, irq) matches Some(x) && x.curr == pair.sample.curr.items@[cpu
            * pair.sample.curr.nr2 + irq],
{
    assert(0 <= cpu * pair.sample.curr.nr2) by (nonlinear_arith)
        requires
            0 <= cpu,
            0 <= pair.sample.curr.nr2,
    ;
}

/// An interrupt goes by its name; without one, the first place is that of the sum, and the others
/// have a number that is one below their place.
pub proof fn law_interrupts_are_counted_from_zero(pair: ActivityPair<'_>, irq: int)
    requires
        0 <= irq,
    ensures
        irq_at(pair, 0, irq) matches Some(x) ==> x.curr.key is Some ==> irq_title(pair, irq)
            == x.curr.key->0@,
        !(irq_at(pair, 0, irq) matches Some(x) && x.curr.key is Some) ==> (if irq == 0 {
            irq_title(pair, irq) == "sum"@
        } else {
            decimal_value(irq_title(pair, irq)) + 1 == irq
        }),
{
    if irq > 0 {
        law_decimals_have_their_value((irq - 1) as nat);
    }
}

/// The CPU at the first place is all of them together, which a database reads as -1; each of the
/// others has a number that is one below its place.
pub proof fn law_cpus_are_counted_from_zero(index: int)
    requires
        0 <= index,
    ensures
        index == 0 ==> cpu_label(index).ppc == "all"@ && cpu_label(index).jx == "all"@ && cpu_label(
            index,
        ).db == "-1"@,
        index > 0 ==> {
            &&& decimal_value(cpu_label(index).db) + 1 == index
            &&& decimal_value(cpu_label(index).jx) + 1 == index
            &&& cpu_label(index).ppc == "cpu"@ + cpu_label(index).db
        },
{
    if index > 0 {
        law_decimals_have_their_value((index - 1) as nat);
    }
}

/// A disk goes by its two numbers, the major one before the minor one.
pub proof fn law_disks_go_by_their_numbers(item: ItemModel, major: u64, minor: u64)
    requires
        item.raw_by_name("major"@, false) == Availability::Present(major),
        item.raw_by_name("minor"@, false) == Availability::Present(minor),
    ensures
        device_name(item) is Some,
        device_name(item)->0 == "dev"@ + dec(major as nat) + "-"@ + dec(minor as nat),
        decimal_value(dec(major as nat)) == major,
        decimal_value(dec(minor as nat)) == minor,
        lacks(dec(major as nat), '-'),
        label_of(ItemKind::Disk, item).db == device_name(item)->0,
        label_of(ItemKind::Disk, item).ppc == device_name(item)->0,
        label_of(ItemKind::Disk, item).jx == device_name(item)->0,
{
    law_decimals_have_their_value(major as nat);
    law_decimals_have_their_value(minor as nat);
    let s = dec(major as nat);
    assert forall|k: int| 0 <= k < s.len() implies #[trigger] s[k] != '-' by {
        assert(48 <= s[k] as u32 <= 57);
    }
}

/// What goes by a name, by its position or by a number of its own is called so in each format;
/// the one with a line for each value puts the kind before the number.
pub proof fn law_items_go_by_name_or_number(
    item: ItemModel,
    prefix: &'static str,
    base: u32,
    col: &'static str,
)
    requires
        0 <= item.index,
    ensures
        item.curr.key is Some ==> label_of(ItemKind::Name, item).ppc == item.curr.key->0@ && label_of(
            ItemKind::Name,
            item,
        ).db == item.curr.key->0@ && label_of(ItemKind::Name, item).jx == item.curr.key->0@,
        ({
            let l = label_of(ItemKind::Index { prefix, base }, item);
            &&& decimal_value(l.db) == item.index + base
            &&& l.jx == l.db
            &&& l.ppc == prefix@ + l.db
        }),
        item.raw_by_name(col@, false) matches Availability::Present(v) ==> {
            let l = label_of(ItemKind::Column { col, prefix }, item);
            &&& decimal_value(l.db) == v
            &&& l.jx == l.db
            &&& l.ppc == prefix@ + l.db
        },
{
    law_decimals_have_their_value((item.index + base) as nat);
    if let Availability::Present(v) = item.raw_by_name(col@, false) {
        law_decimals_have_their_value(v as nat);
    }
}

/// The states of a battery by their numbers.
pub open spec fn battery_words() -> Seq<&'static str> {
    seq!["Unknown", "Charging", "Discharging", "NotCharging", "Full"]
}

/// The state of a battery is shown by its word.
pub proof fn law_batteries_are_shown_by_words(v: u64)
    ensures
        v < 5 ==> battery_state(v) == battery_words()[v as int]@,
        v >= 5 ==> battery_state(v) == "UNDEFINED"@,
{
}

/// A value that is there is shown as the number it is: with two decimals, rounded, cut off, or in
/// hexadecimal. One that the file cannot hold is shown as 0, and one that is missing as what
/// stands for it.
pub proof fn law_values_are_shown_as_numbers(bits: u64, absent: Seq<char>, issue: ComputeIssue)
    ensures
        value_shown(Ok(bits), Fmt::R2, absent) == ShownModel::Number(
            Slot { bits, form: Form::Fixed { decimals: 2, divisor: 1, sign: false }, width: 0 },
        ),
        value_shown(Ok(bits), Fmt::R0, absent) == ShownModel::Number(
            Slot { bits, form: Form::Fixed { decimals: 0, divisor: 1, sign: false }, width: 0 },
        ),
        value_shown(Ok(bits), Fmt::Int, absent) == ShownModel::Number(
            Slot { bits, form: Form::Count, width: 0 },
        ),
        value_shown(Ok(bits), Fmt::Hex, absent) == ShownModel::Number(
            Slot { bits, form: Form::CountHex, width: 0 },
        ),
        forall|fmt: Fmt| #[trigger]
            value_shown(Err(issue), fmt, absent) == (if issue
                == ComputeIssue::UnsupportedBySource {
                value_shown(Ok(0u64), fmt, absent)
            } else {
                ShownModel::Text(absent)
            }),
{
}

/// A field shows the value of the column that it names, in its own form.
pub proof fn law_fields_show_the_column_they_name(
    id: ActivityId,
    item: ItemModel,
    field: Field,
    fmt: Fmt,
    label: LabelModel,
    absent: Seq<char>,
)
    requires
        field.col@.len() > 0,
    ensures
        fmt == Fmt::R2 || fmt == Fmt::R0 || fmt == Fmt::Int || fmt == Fmt::Hex ==> field_shown(
            id,
            item,
            field,
            fmt,
            label,
            absent,
        ) == value_shown(item.computed_by_name(field.col@), fmt, absent),
        fmt == Fmt::ItemKeyStr || fmt == Fmt::ItemKeyNum ==> field_shown(
            id,
            item,
            field,
            fmt,
            label,
            absent,
        ) == ShownModel::Text(label.jx),
        fmt == Fmt::Str && id != ActivityId::PWR_BAT ==> (item.text(field.col@) matches Some(t)
            ==> field_shown(id, item, field, fmt, label, absent) == ShownModel::Text(t)),
{
}

}
