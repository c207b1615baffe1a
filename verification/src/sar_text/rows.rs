//! The lines of a sample: which items they stand for and what they are called.

use vstd::prelude::*;

use crate::model::{
    as_signed, signed_byte, text_position, to_signed, to_signed_byte, ActivityId, DecodePlan,
    ItemSnapshot,
};
use crate::sar_text::columns::{
    BAT_ID, DISK_MAJOR, DISK_MINOR, DISK_PART_NR, DISK_WWN_HIGH, DISK_WWN_LOW, SERIAL_LINE, USB_BUS,
    USB_PRODUCT, USB_VENDOR,
};
use crate::sar_text::layout::{HeadItem, TailItem};
use crate::sar_text::options::{contains_name, filter_of, has_name, names_for, SarTextOptions};
use crate::text::{dec, dec_text, hex, hex_text, same_text, zero_fill, zero_filled};

verus! {

/// What tells the items of two samples apart.
#[derive(Debug)]
pub enum ItemKey {
    /// The position of the item.
    Index(usize),
    /// Its name.
    Name(String),
    /// The numbers of a disk.
    Dev(u64, u64),
    /// The number of a serial line.
    Line(u64),
    /// The bus, the vendor and the product of a USB device.
    Usb(u64, u64, u64),
}

/// What an [`ItemKey`] holds.
pub enum KeyModel {
    Index(int),
    Name(Seq<char>),
    Dev(u64, u64),
    Line(u64),
    Usb(u64, u64, u64),
}

impl ItemKey {
    pub open spec fn model(self) -> KeyModel {
        match self {
            ItemKey::Index(i) => KeyModel::Index(i as int),
            ItemKey::Name(s) => KeyModel::Name(s@),
            ItemKey::Dev(a, b) => KeyModel::Dev(a, b),
            ItemKey::Line(n) => KeyModel::Line(n),
            ItemKey::Usb(a, b, c) => KeyModel::Usb(a, b, c),
        }
    }

    /// A copy.
    pub fn copy(&self) -> (r: ItemKey)
        ensures
            r.model() == self.model(),
    {
        match self {
            ItemKey::Index(i) => ItemKey::Index(*i),
            ItemKey::Name(s) => ItemKey::Name(s.clone()),
            ItemKey::Dev(a, b) => ItemKey::Dev(*a, *b),
            ItemKey::Line(n) => ItemKey::Line(*n),
            ItemKey::Usb(a, b, c) => ItemKey::Usb(*a, *b, *c),
        }
    }

    /// Whether two keys are the same.
    pub fn same(&self, other: &ItemKey) -> (r: bool)
        ensures
            r == (self.model() == other.model()),
    {
        match (self, other) {
            (ItemKey::Index(a), ItemKey::Index(b)) => *a == *b,
            (ItemKey::Name(a), ItemKey::Name(b)) => same_text(a.as_str(), b.as_str()),
            (ItemKey::Dev(a, b), ItemKey::Dev(c, d)) => *a == *c && *b == *d,
            (ItemKey::Line(a), ItemKey::Line(b)) => *a == *b,
            (ItemKey::Usb(a, b, c), ItemKey::Usb(d, e, f)) => *a == *d && *b == *e && *c == *f,
            _ => false,
        }
    }
}

/// Whether the items of an activity are told apart by their names. Sensors are not: several of
/// them have the name of one chip.
pub open spec fn goes_by_name(id: ActivityId) -> bool {
    id == ActivityId::NET_DEV || id == ActivityId::NET_EDEV || id == ActivityId::FS || id
        == ActivityId::NET_FC || id == ActivityId::IRQ
}

/// What tells an item from the others of its sample.
pub open spec fn key_of(
    id: ActivityId,
    plan: DecodePlan,
    item: ItemSnapshot,
    index: int,
) -> KeyModel {
    if id == ActivityId::DISK {
        KeyModel::Dev(
            plan.raw_or(item, DISK_MAJOR as int, 0),
            plan.raw_or(item, DISK_MINOR as int, 0),
        )
    } else if id == ActivityId::SERIAL {
        KeyModel::Line(plan.raw_or(item, SERIAL_LINE as int, index as u64))
    } else if id == ActivityId::PWR_USB {
        KeyModel::Usb(
            plan.raw_or(item, USB_BUS as int, 0),
            plan.raw_or(item, USB_VENDOR as int, 0),
            plan.raw_or(item, USB_PRODUCT as int, 0),
        )
    } else if goes_by_name(id) {
        match item.name() {
            Some(n) => KeyModel::Name(n),
            None => KeyModel::Index(index),
        }
    } else {
        KeyModel::Index(index)
    }
}

/// What tells an item from the others of its sample.
pub fn item_key(id: ActivityId, plan: &DecodePlan, item: &ItemSnapshot, index: usize) -> (r:
    ItemKey)
    ensures
        r.model() == key_of(id, *plan, *item, index as int),
{
    match id {
        ActivityId::DISK => ItemKey::Dev(
            plan.raw_column(item, DISK_MAJOR, 0),
            plan.raw_column(item, DISK_MINOR, 0),
        ),
        ActivityId::SERIAL => ItemKey::Line(plan.raw_column(item, SERIAL_LINE, index as u64)),
        ActivityId::PWR_USB => ItemKey::Usb(
            plan.raw_column(item, USB_BUS, 0),
            plan.raw_column(item, USB_VENDOR, 0),
            plan.raw_column(item, USB_PRODUCT, 0),
        ),
        ActivityId::NET_DEV
        | ActivityId::NET_EDEV
        | ActivityId::FS
        | ActivityId::NET_FC
        | ActivityId::IRQ => match item.name_text() {
            Some(n) => ItemKey::Name(n.to_owned()),
            None => ItemKey::Index(index),
        },
        _ => ItemKey::Index(index),
    }
}

/// The name of a disk: `dev<major>-<minor>`, or its stable identifier where that was asked for
/// and the disk has one.
pub open spec fn disk_title(plan: DecodePlan, item: ItemSnapshot, dev_sid: bool) -> Seq<char> {
    let high = plan.raw_or(item, DISK_WWN_HIGH as int, 0);
    let low = plan.raw_or(item, DISK_WWN_LOW as int, 0);
    let part = plan.raw_or(item, DISK_PART_NR as int, 0);
    if dev_sid && high != 0 {
        "0x"@ + zero_filled(hex(high as nat), 14) + (if low != 0 {
            zero_filled(hex(low as nat), 16)
        } else {
            Seq::empty()
        }) + (if part != 0 {
            "-"@ + dec(part as nat)
        } else {
            Seq::empty()
        })
    } else {
        "dev"@ + dec(plan.raw_or(item, DISK_MAJOR as int, 0) as nat) + "-"@ + dec(
            plan.raw_or(item, DISK_MINOR as int, 0) as nat,
        )
    }
}

/// The name of a disk.
pub fn disk_name(plan: &DecodePlan, item: &ItemSnapshot, dev_sid: bool) -> (r: String)
    ensures
        r@ == disk_title(*plan, *item, dev_sid),
{
    if dev_sid {
        let high: u64 = plan.raw_column(item, DISK_WWN_HIGH, 0);
        if high != 0 {
            let low: u64 = plan.raw_column(item, DISK_WWN_LOW, 0);
            let part: u64 = plan.raw_column(item, DISK_PART_NR, 0);
            let mut out = "0x".to_owned();
            out.append(zero_fill(hex_text(high).as_str(), 14).as_str());
            let ghost a = out@;
            if low != 0 {
                out.append(zero_fill(hex_text(low).as_str(), 16).as_str());
            } else {
                assert(a + Seq::<char>::empty() == a);
            }
            let ghost b = out@;
            if part != 0 {
                out.append("-");
                out.append(dec_text(part).as_str());
                assert(out@ == b + ("-"@ + dec(part as nat)));
            } else {
                assert(b + Seq::<char>::empty() == b);
            }
            return out;
        }
    }
    let mut out = "dev".to_owned();
    out.append(dec_text(plan.raw_column(item, DISK_MAJOR, 0)).as_str());
    out.append("-");
    out.append(dec_text(plan.raw_column(item, DISK_MINOR, 0)).as_str());
    out
}

/// The name that an item is shown under. A filesystem goes by its mount point where that was
/// asked for; an interrupt without a name goes by its number, and the first one is the sum of
/// all.
pub open spec fn item_title(
    id: ActivityId,
    opts: SarTextOptions,
    plan: DecodePlan,
    item: ItemSnapshot,
    index: int,
) -> Seq<char> {
    if id == ActivityId::DISK {
        disk_title(plan, item, opts.dev_sid)
    } else if id == ActivityId::FS && opts.mount {
        named_text(plan, item, "mountp"@)
    } else {
        match item.name() {
            Some(n) => n,
            None => if id == ActivityId::IRQ {
                if index == 0 {
                    "sum"@
                } else {
                    dec((index - 1) as nat)
                }
            } else {
                Seq::empty()
            },
        }
    }
}

/// The name that an item is shown under.
pub fn item_name(
    id: ActivityId,
    opts: &SarTextOptions,
    plan: &DecodePlan,
    item: &ItemSnapshot,
    index: usize,
) -> (r: String)
    ensures
        r@ == item_title(id, *opts, *plan, *item, index as int),
{
    if id == ActivityId::DISK {
        return disk_name(plan, item, opts.dev_sid);
    }
    if id == ActivityId::FS && opts.mount {
        return text_or_empty(plan, item, "mountp");
    }
    match item.name_text() {
        Some(n) => n.to_owned(),
        None => if id == ActivityId::IRQ {
            if index == 0 {
                "sum".to_owned()
            } else {
                dec_text((index - 1) as u64)
            }
        } else {
            String::new()
        },
    }
}

/// Whether the names of an activity's items can be filtered.
pub open spec fn filters_names(id: ActivityId) -> bool {
    id == ActivityId::DISK || id == ActivityId::NET_DEV || id == ActivityId::NET_EDEV || id
        == ActivityId::FS || id == ActivityId::IRQ
}

/// Whether an item is shown under the name filters.
pub open spec fn title_passes(opts: SarTextOptions, id: ActivityId, title: Seq<char>) -> bool {
    match names_for(opts.item_names@, id) {
        None => true,
        Some(names) => names.len() == 0 || !filters_names(id) || has_name(names, title),
    }
}

/// Whether an item is shown under the name filters.
pub fn name_selected(
    id: ActivityId,
    opts: &SarTextOptions,
    plan: &DecodePlan,
    item: &ItemSnapshot,
    index: usize,
) -> (r: bool)
    ensures
        r == title_passes(
            *opts,
            id,
            item_title(id, *opts, *plan, *item, index as int),
        ),
{
    match filter_of(&opts.item_names, id) {
        None => true,
        Some(names) => {
            if names.len() == 0 {
                return true;
            }
            match id {
                ActivityId::DISK
                | ActivityId::NET_DEV
                | ActivityId::NET_EDEV
                | ActivityId::FS
                | ActivityId::IRQ => {
                    let name = item_name(id, opts, plan, item, index);
                    contains_name(names, name.as_str())
                },
                _ => true,
            }
        },
    }
}

/// The item at the start of a line.
#[derive(Debug)]
pub enum RowLabel {
    Nothing,
    /// All CPUs together.
    Aggregate,
    Number(i64),
    Name(String),
}

/// What a [`RowLabel`] holds.
pub enum LabelModel {
    Nothing,
    Aggregate,
    Number(int),
    Name(Seq<char>),
}

impl RowLabel {
    pub open spec fn model(self) -> LabelModel {
        match self {
            RowLabel::Nothing => LabelModel::Nothing,
            RowLabel::Aggregate => LabelModel::Aggregate,
            RowLabel::Number(n) => LabelModel::Number(n as int),
            RowLabel::Name(s) => LabelModel::Name(s@),
        }
    }

    /// A copy.
    pub fn copy(&self) -> (r: RowLabel)
        ensures
            r.model() == self.model(),
    {
        match self {
            RowLabel::Nothing => RowLabel::Nothing,
            RowLabel::Aggregate => RowLabel::Aggregate,
            RowLabel::Number(n) => RowLabel::Number(*n),
            RowLabel::Name(s) => RowLabel::Name(s.clone()),
        }
    }
}

/// The item at the start of a line. Fans and temperatures are counted from 1, voltages from 0.
pub open spec fn label_of(
    head: HeadItem,
    id: ActivityId,
    opts: SarTextOptions,
    plan: DecodePlan,
    item: ItemSnapshot,
    index: int,
) -> LabelModel {
    match head {
        HeadItem::Nothing => LabelModel::Nothing,
        HeadItem::Cpu7 | HeadItem::Cpu3 => if index == 0 {
            LabelModel::Aggregate
        } else {
            LabelModel::Number(index - 1)
        },
        HeadItem::Name9 => LabelModel::Name(item_title(id, opts, plan, item, index)),
        HeadItem::Line3 => {
            let line = plan.raw_or(item, SERIAL_LINE as int, 0);
            LabelModel::Number(
                as_signed(
                    if line >= plan.serial_line_offset {
                        (line - plan.serial_line_offset) as u64
                    } else {
                        0
                    },
                ),
            )
        },
        HeadItem::Index5 => if id == ActivityId::PWR_FAN || id == ActivityId::PWR_TEMP {
            LabelModel::Number(index + 1)
        } else if id == ActivityId::PWR_BAT {
            LabelModel::Number(signed_byte(plan.raw_or(item, BAT_ID as int, 0)))
        } else {
            LabelModel::Number(index)
        },
        HeadItem::Bus6 => LabelModel::Number(as_signed(plan.raw_or(item, USB_BUS as int, 0))),
    }
}

/// The item at the start of a line.
pub fn row_label(
    head: HeadItem,
    id: ActivityId,
    opts: &SarTextOptions,
    plan: &DecodePlan,
    item: &ItemSnapshot,
    index: usize,
) -> (r: RowLabel)
    requires
        index < i64::MAX,
    ensures
        r.model() == label_of(head, id, *opts, *plan, *item, index as int),
{
    match head {
        HeadItem::Nothing => RowLabel::Nothing,
        HeadItem::Cpu7 | HeadItem::Cpu3 => if index == 0 {
            RowLabel::Aggregate
        } else {
            RowLabel::Number(index as i64 - 1)
        },
        HeadItem::Name9 => RowLabel::Name(item_name(id, opts, plan, item, index)),
        HeadItem::Line3 => {
            let line: u64 = plan.raw_column(item, SERIAL_LINE, 0);
            let offset: u64 = plan.serial_line_offset as u64;
            RowLabel::Number(
                to_signed(
                    if line >= offset {
                        line - offset
                    } else {
                        0
                    },
                ),
            )
        },
        HeadItem::Index5 => match id {
            ActivityId::PWR_FAN | ActivityId::PWR_TEMP => RowLabel::Number(index as i64 + 1),
            ActivityId::PWR_BAT => RowLabel::Number(
                to_signed_byte(plan.raw_column(item, BAT_ID, 0)),
            ),
            _ => RowLabel::Number(index as i64),
        },
        HeadItem::Bus6 => RowLabel::Number(to_signed(plan.raw_column(item, USB_BUS, 0))),
    }
}

/// The text of an item by its name; empty where there is none.
pub open spec fn named_text(plan: DecodePlan, item: ItemSnapshot, name: Seq<char>) -> Seq<char> {
    match text_position(plan.text_fields@, name) {
        Some(i) => match item.text_at(i) {
            Some(t) => t,
            None => Seq::empty(),
        },
        None => Seq::empty(),
    }
}

fn text_or_empty(plan: &DecodePlan, item: &ItemSnapshot, name: &str) -> (r: String)
    ensures
        r@ == named_text(*plan, *item, name@),
{
    match plan.text_index(name) {
        Some(i) => match item.text(i) {
            Some(t) => t.to_owned(),
            None => String::new(),
        },
        None => String::new(),
    }
}

/// The end of a line.
#[derive(Debug)]
pub enum RowTail {
    Nothing,
    Name(String),
    /// The manufacturer and the product.
    Usb(String, String),
}

/// What a [`RowTail`] holds.
pub enum TailModel {
    Nothing,
    Name(Seq<char>),
    Usb(Seq<char>, Seq<char>),
}

impl RowTail {
    pub open spec fn model(self) -> TailModel {
        match self {
            RowTail::Nothing => TailModel::Nothing,
            RowTail::Name(s) => TailModel::Name(s@),
            RowTail::Usb(a, b) => TailModel::Usb(a@, b@),
        }
    }

    /// A copy.
    pub fn copy(&self) -> (r: RowTail)
        ensures
            r.model() == self.model(),
    {
        match self {
            RowTail::Nothing => RowTail::Nothing,
            RowTail::Name(s) => RowTail::Name(s.clone()),
            RowTail::Usb(a, b) => RowTail::Usb(a.clone(), b.clone()),
        }
    }
}

/// The end of a line.
pub open spec fn tail_of(
    tail: TailItem,
    id: ActivityId,
    opts: SarTextOptions,
    plan: DecodePlan,
    item: ItemSnapshot,
    index: int,
) -> TailModel {
    match tail {
        TailItem::Nothing => TailModel::Nothing,
        TailItem::Name => TailModel::Name(item_title(id, opts, plan, item, index)),
        TailItem::UsbNames => TailModel::Usb(
            named_text(plan, item, "manufacturer"@),
            named_text(plan, item, "product"@),
        ),
    }
}

/// The end of a line.
pub fn row_tail(
    tail: TailItem,
    id: ActivityId,
    opts: &SarTextOptions,
    plan: &DecodePlan,
    item: &ItemSnapshot,
    index: usize,
) -> (r: RowTail)
    ensures
        r.model() == tail_of(tail, id, *opts, *plan, *item, index as int),
{
    match tail {
        TailItem::Nothing => RowTail::Nothing,
        TailItem::Name => RowTail::Name(item_name(id, opts, plan, item, index)),
        TailItem::UsbNames => RowTail::Usb(
            text_or_empty(plan, item, "manufacturer"),
            text_or_empty(plan, item, "product"),
        ),
    }
}

}
