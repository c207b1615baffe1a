//! The parts of a line that the formats share.

use vstd::prelude::*;

use crate::model::{ActivityId, Availability, ComputeIssue, Computed};
use crate::sadf::access::{ItemModel, ItemPair};
use crate::sadf::table::{
    ActivitySpec, Field, Fmt, ItemKind, RawField, RawStyle, Section, SectionModel,
};
use crate::sadf::value::{
    cpu_label, name_label, no_label, number_label, show_value, value_shown, ItemLabel, LabelModel,
    Shown, ShownModel, Unavailable,
};
use crate::text::{dec, push_dec, same_text};

verus! {

/// The name of the state of a battery.
pub open spec fn battery_state(v: u64) -> Seq<char> {
    if v == 0 {
        "Unknown"@
    } else if v == 1 {
        "Charging"@
    } else if v == 2 {
        "Discharging"@
    } else if v == 3 {
        "NotCharging"@
    } else if v == 4 {
        "Full"@
    } else {
        "UNDEFINED"@
    }
}

/// The name of the state of a battery.
pub fn bat_status(v: u64) -> (r: &'static str)
    ensures
        r@ == battery_state(v),
{
    match v {
        0 => "Unknown",
        1 => "Charging",
        2 => "Discharging",
        3 => "NotCharging",
        4 => "Full",
        _ => "UNDEFINED",
    }
}

/// The name of a block device: its device numbers.
pub open spec fn device_name(item: ItemModel) -> Option<Seq<char>> {
    match (item.raw_by_name("major"@, false), item.raw_by_name("minor"@, false)) {
        (Availability::Present(ma), Availability::Present(mi)) => Some(
            "dev"@ + dec(ma as nat) + "-"@ + dec(mi as nat),
        ),
        _ => None,
    }
}

fn find_device_name(item: &ItemPair<'_>) -> (r: Option<String>)
    ensures
        match r {
            Some(s) => device_name(item.model()) == Some(s@),
            None => device_name(item.model()) is None,
        },
{
    match (item.raw_curr_by_name("major"), item.raw_curr_by_name("minor")) {
        (Availability::Present(ma), Availability::Present(mi)) => {
            let mut out = "dev".to_owned();
            push_dec(&mut out, ma);
            out.append("-");
            push_dec(&mut out, mi);
            Some(out)
        },
        _ => None,
    }
}

/// What tells an item from others. Where the name, the column or the device numbers are
/// missing, its position does.
pub open spec fn label_of(kind: ItemKind, item: ItemModel) -> LabelModel {
    match kind {
        ItemKind::Single => no_label(),
        ItemKind::Irq => no_label(),
        ItemKind::Cpu => cpu_label(item.index),
        ItemKind::Name => match item.key() {
            Some(k) => name_label(k),
            None => number_label(""@, item.index as nat),
        },
        ItemKind::Index { prefix, base } => number_label(prefix@, (item.index + base) as nat),
        ItemKind::Column { col, prefix } => match item.raw_by_name(col@, false) {
            Availability::Present(v) => number_label(prefix@, v as nat),
            _ => number_label(prefix@, item.index as nat),
        },
        ItemKind::Disk => match device_name(item) {
            Some(name) => name_label(name),
            None => number_label("dev"@, item.index as nat),
        },
    }
}

/// What tells an item from others.
pub fn item_label(spec_of: &ActivitySpec, item: &ItemPair<'_>) -> (r: ItemLabel)
    ensures
        r.model() == label_of(spec_of.item, item.model()),
{
    match spec_of.item {
        ItemKind::Single | ItemKind::Irq => ItemLabel::none(),
        ItemKind::Cpu => ItemLabel::cpu(item.index),
        ItemKind::Name => match item.key() {
            Some(k) => ItemLabel::named(k),
            None => ItemLabel::numbered("", item.index as u64),
        },
        ItemKind::Index { prefix, base } => ItemLabel::counted(prefix, item.index as u64, base),
        ItemKind::Column { col, prefix } => match item.raw_curr_by_name(col) {
            Availability::Present(v) => ItemLabel::numbered(prefix, v),
            _ => ItemLabel::numbered(prefix, item.index as u64),
        },
        ItemKind::Disk => match find_device_name(item) {
            Some(name) => ItemLabel::named(name.as_str()),
            None => ItemLabel::numbered("dev", item.index as u64),
        },
    }
}

/// What tells an item from others in a section. Where the section names a column, its text
/// does, though it is empty.
pub open spec fn label_in(kind: ItemKind, section: SectionModel, item: ItemModel) -> LabelModel {
    if section.item_col@.len() == 0 {
        label_of(kind, item)
    } else {
        match item.text(section.item_col@) {
            Some(t) => name_label(t),
            None => name_label(""@),
        }
    }
}

/// What tells an item from others in a section.
pub fn item_label_in(spec_of: &ActivitySpec, section: &Section, item: &ItemPair<'_>) -> (r:
    ItemLabel)
    ensures
        r.model() == label_in(spec_of.item, section.model(), item.model()),
{
    if section.item_col.is_empty() {
        item_label(spec_of, item)
    } else {
        match item.text(section.item_col) {
            Some(t) => ItemLabel::named(t),
            None => ItemLabel::named(""),
        }
    }
}

/// The text of a column. The state of a battery is a number in the file and has a name.
pub open spec fn text_of(id: ActivityId, item: ItemModel, col: Seq<char>) -> Option<Seq<char>> {
    if id == ActivityId::PWR_BAT && col == "status"@ {
        match item.raw_by_name(col, false) {
            Availability::Present(v) => Some(battery_state(v)),
            _ => None,
        }
    } else {
        item.text(col)
    }
}

/// The text of a column.
pub fn field_text(id: ActivityId, item: &ItemPair<'_>, col: &str) -> (r: Option<String>)
    ensures
        match r {
            Some(s) => text_of(id, item.model(), col@) == Some(s@),
            None => text_of(id, item.model(), col@) is None,
        },
{
    if id == ActivityId::PWR_BAT && same_text(col, "status") {
        return match item.raw_curr_by_name(col) {
            Availability::Present(v) => Some(bat_status(v).to_owned()),
            _ => None,
        };
    }
    match item.text(col) {
        Some(t) => Some(t.to_owned()),
        None => None,
    }
}

/// The displayed value of a field.
pub open spec fn value_in(item: ItemModel, field: Field) -> Computed {
    if field.col@.len() == 0 {
        Err(ComputeIssue::NotImplemented)
    } else {
        item.computed_by_name(field.col@)
    }
}

/// The displayed value of a field.
pub fn value_of(item: &ItemPair<'_>, field: &Field) -> (r: Computed)
    ensures
        r == value_in(item.model(), *field),
{
    if field.col.is_empty() {
        return Err(ComputeIssue::NotImplemented);
    }
    item.computed_by_name(field.col)
}

/// Why a field has no value; `None` where it has one.
pub fn absence_of(item: &ItemPair<'_>, field: &Field) -> (r: Option<Unavailable>)
    ensures
        r == (match value_in(item.model(), *field) {
            Ok(_) => None,
            Err(e) => Some(Unavailable(e)),
        }),
{
    match value_of(item, field) {
        Ok(_) => None,
        Err(e) => Some(Unavailable(e)),
    }
}

/// A field as it is shown in the form `fmt`.
pub open spec fn field_shown(
    id: ActivityId,
    item: ItemModel,
    field: Field,
    fmt: Fmt,
    label: LabelModel,
    absent: Seq<char>,
) -> ShownModel {
    match fmt {
        Fmt::Skip => ShownModel::Text(Seq::empty()),
        Fmt::ItemKeyStr | Fmt::ItemKeyNum => ShownModel::Text(label.jx),
        Fmt::Str => match text_of(id, item, field.col@) {
            Some(t) => ShownModel::Text(t),
            None => ShownModel::Text(absent),
        },
        _ => value_shown(value_in(item, field), fmt, absent),
    }
}

/// A field as it is shown in the form `fmt`.
pub fn field_value(
    id: ActivityId,
    item: &ItemPair<'_>,
    field: &Field,
    fmt: Fmt,
    label: &ItemLabel,
    absent: &str,
) -> (r: Shown)
    ensures
        r.model() == field_shown(id, item.model(), *field, fmt, label.model(), absent@),
{
    match fmt {
        Fmt::Skip => {
            let r = Shown::Text(String::new());
            assert(r.model() =~= ShownModel::Text(Seq::empty()));
            r
        },
        Fmt::ItemKeyStr | Fmt::ItemKeyNum => Shown::Text(label.jx.as_str().to_owned()),
        Fmt::Str => match field_text(id, item, field.col) {
            Some(t) => Shown::Text(t),
            None => Shown::Text(absent.to_owned()),
        },
        _ => show_value(value_of(item, field), fmt, absent),
    }
}

/// Whether the order of a section names fields of it only.
pub open spec fn ordered(section: SectionModel) -> bool {
    forall|i: int|
        0 <= i < section.jx_order.len() ==> (#[trigger] section.jx_order[i]) < section.fields.len()
}

/// The fields of a section in the order of JSON and XML.
pub open spec fn nested_fields(section: SectionModel) -> Seq<Field> {
    if section.jx_order.len() == 0 {
        section.fields
    } else {
        Seq::new(
            section.jx_order.len(),
            |i: int| section.fields[section.jx_order[i] as int],
        )
    }
}

/// The fields of a section in the order of JSON and XML.
pub fn jx_fields(section: &Section) -> (r: Vec<Field>)
    requires
        ordered(section.model()),
    ensures
        r@ == nested_fields(section.model()),
{
    let mut out: Vec<Field> = Vec::new();
    let mut i: usize = 0;
    if section.jx_order.len() == 0 {
        while i < section.fields.len()
            invariant
                i <= section.fields@.len(),
                out@ == section.fields@.take(i as int),
            decreases section.fields.len() - i,
        {
            out.push(section.fields[i]);
            i = i + 1;
            assert(out@ =~= section.fields@.take(i as int));
        }
        assert(section.fields@.take(i as int) =~= section.fields@);
        return out;
    }
    while i < section.jx_order.len()
        invariant
            i <= section.jx_order@.len(),
            ordered(section.model()),
            out@.len() == i,
            forall|k: int|
                0 <= k < i ==> out@[k] == section.fields@[section.jx_order@[k] as int],
        decreases section.jx_order.len() - i,
    {
        assert(section.model().jx_order[i as int] < section.model().fields.len());
        out.push(section.fields[section.jx_order[i]]);
        i = i + 1;
    }
    assert(out@ =~= nested_fields(section.model()));
    out
}

/// What the raw format shows of a field: the value before and the value now.
pub open spec fn raw_values(item: ItemModel, f: RawField) -> (Availability, Availability) {
    match f.style {
        RawStyle::PvalSum(a, b, c) => (
            item.raw_sum(seq![a, b, c], true),
            item.raw_sum(seq![a, b, c], false),
        ),
        RawStyle::PvalDiff(a, b) => (
            item.raw_diff(a@, b@, true),
            item.raw_diff(a@, b@, false),
        ),
        _ => (item.raw_by_name(f.col@, true), item.raw_by_name(f.col@, false)),
    }
}

/// What the raw format shows of a field: the value before and the value now.
pub fn raw_pair(item: &ItemPair<'_>, f: &RawField) -> (r: (Availability, Availability))
    ensures
        r == raw_values(item.model(), *f),
{
    match f.style {
        RawStyle::PvalSum(a, b, c) => {
            let names = vec![a, b, c];
            assert(names@ =~= seq![a, b, c]);
            (item.raw_sum(names.as_slice(), true), item.raw_sum(names.as_slice(), false))
        },
        RawStyle::PvalDiff(a, b) => (item.raw_diff(a, b, true), item.raw_diff(a, b, false)),
        _ => (item.raw_prev_by_name(f.col), item.raw_curr_by_name(f.col)),
    }
}

}
