//! Activities, decoded items and displayed values.

use vstd::prelude::*;

use crate::text::same_text;

verus! {

/// A kind of statistics. The number of each is fixed by the data file format.
#[allow(non_camel_case_types)]
#[derive(Clone, Copy, PartialEq, Eq, Structural, Debug)]
pub enum ActivityId {
    CPU,
    PCSW,
    IRQ,
    SWAP,
    PAGE,
    IO,
    MEMORY,
    KTABLES,
    QUEUE,
    SERIAL,
    DISK,
    NET_DEV,
    NET_EDEV,
    NET_NFS,
    NET_NFSD,
    NET_SOCK,
    NET_IP,
    NET_EIP,
    NET_ICMP,
    NET_EICMP,
    NET_TCP,
    NET_ETCP,
    NET_UDP,
    NET_SOCK6,
    NET_IP6,
    NET_EIP6,
    NET_ICMP6,
    NET_EICMP6,
    NET_UDP6,
    PWR_CPU,
    PWR_FAN,
    PWR_TEMP,
    PWR_IN,
    HUGE,
    PWR_FREQ,
    PWR_USB,
    FS,
    NET_FC,
    NET_SOFT,
    PSI_CPU,
    PSI_IO,
    PSI_MEM,
    PWR_BAT,
    /// A number that no activity has.
    Unknown(u32),
}

impl ActivityId {
    /// Whether the activity is one of those that can be displayed.
    pub open spec fn known(self) -> bool {
        !(self is Unknown)
    }

    /// Whether the activity is one of those that can be displayed.
    pub fn is_known(self) -> (r: bool)
        ensures
            r == self.known(),
    {
        match self {
            ActivityId::Unknown(_) => false,
            _ => true,
        }
    }
}

impl ActivityId {
    /// The number of the activity in the file.
    pub open spec fn num(self) -> u32 {
        match self {
            ActivityId::CPU => 1,
            ActivityId::PCSW => 2,
            ActivityId::IRQ => 3,
            ActivityId::SWAP => 4,
            ActivityId::PAGE => 5,
            ActivityId::IO => 6,
            ActivityId::MEMORY => 7,
            ActivityId::KTABLES => 8,
            ActivityId::QUEUE => 9,
            ActivityId::SERIAL => 10,
            ActivityId::DISK => 11,
            ActivityId::NET_DEV => 12,
            ActivityId::NET_EDEV => 13,
            ActivityId::NET_NFS => 14,
            ActivityId::NET_NFSD => 15,
            ActivityId::NET_SOCK => 16,
            ActivityId::NET_IP => 17,
            ActivityId::NET_EIP => 18,
            ActivityId::NET_ICMP => 19,
            ActivityId::NET_EICMP => 20,
            ActivityId::NET_TCP => 21,
            ActivityId::NET_ETCP => 22,
            ActivityId::NET_UDP => 23,
            ActivityId::NET_SOCK6 => 24,
            ActivityId::NET_IP6 => 25,
            ActivityId::NET_EIP6 => 26,
            ActivityId::NET_ICMP6 => 27,
            ActivityId::NET_EICMP6 => 28,
            ActivityId::NET_UDP6 => 29,
            ActivityId::PWR_CPU => 30,
            ActivityId::PWR_FAN => 31,
            ActivityId::PWR_TEMP => 32,
            ActivityId::PWR_IN => 33,
            ActivityId::HUGE => 34,
            ActivityId::PWR_FREQ => 35,
            ActivityId::PWR_USB => 36,
            ActivityId::FS => 37,
            ActivityId::NET_FC => 38,
            ActivityId::NET_SOFT => 39,
            ActivityId::PSI_CPU => 40,
            ActivityId::PSI_IO => 41,
            ActivityId::PSI_MEM => 42,
            ActivityId::PWR_BAT => 43,
            ActivityId::Unknown(n) => n,
        }
    }

    /// The number of the activity in the file.
    pub fn number(self) -> (r: u32)
        ensures
            r == self.num(),
    {
        match self {
            ActivityId::CPU => 1,
            ActivityId::PCSW => 2,
            ActivityId::IRQ => 3,
            ActivityId::SWAP => 4,
            ActivityId::PAGE => 5,
            ActivityId::IO => 6,
            ActivityId::MEMORY => 7,
            ActivityId::KTABLES => 8,
            ActivityId::QUEUE => 9,
            ActivityId::SERIAL => 10,
            ActivityId::DISK => 11,
            ActivityId::NET_DEV => 12,
            ActivityId::NET_EDEV => 13,
            ActivityId::NET_NFS => 14,
            ActivityId::NET_NFSD => 15,
            ActivityId::NET_SOCK => 16,
            ActivityId::NET_IP => 17,
            ActivityId::NET_EIP => 18,
            ActivityId::NET_ICMP => 19,
            ActivityId::NET_EICMP => 20,
            ActivityId::NET_TCP => 21,
            ActivityId::NET_ETCP => 22,
            ActivityId::NET_UDP => 23,
            ActivityId::NET_SOCK6 => 24,
            ActivityId::NET_IP6 => 25,
            ActivityId::NET_EIP6 => 26,
            ActivityId::NET_ICMP6 => 27,
            ActivityId::NET_EICMP6 => 28,
            ActivityId::NET_UDP6 => 29,
            ActivityId::PWR_CPU => 30,
            ActivityId::PWR_FAN => 31,
            ActivityId::PWR_TEMP => 32,
            ActivityId::PWR_IN => 33,
            ActivityId::HUGE => 34,
            ActivityId::PWR_FREQ => 35,
            ActivityId::PWR_USB => 36,
            ActivityId::FS => 37,
            ActivityId::NET_FC => 38,
            ActivityId::NET_SOFT => 39,
            ActivityId::PSI_CPU => 40,
            ActivityId::PSI_IO => 41,
            ActivityId::PSI_MEM => 42,
            ActivityId::PWR_BAT => 43,
            ActivityId::Unknown(n) => n,
        }
    }
}

/// Whether `id` is in the list.
pub open spec fn listed(ids: Seq<ActivityId>, id: ActivityId) -> bool {
    exists|i: int| 0 <= i < ids.len() && ids[i] == id
}

/// Whether `id` is in the list.
pub fn list_contains(ids: &Vec<ActivityId>, id: ActivityId) -> (r: bool)
    ensures
        r == listed(ids@, id),
{
    let mut i: usize = 0;
    while i < ids.len()
        invariant
            i <= ids.len(),
            forall|k: int| 0 <= k < i ==> ids@[k] != id,
        decreases ids.len() - i,
    {
        if ids[i] == id {
            return true;
        }
        i = i + 1;
    }
    false
}

/// A value read from a record.
#[derive(Clone, Copy, PartialEq, Eq, Structural, Debug)]
pub enum Availability {
    Present(u64),
    /// The generation of the file has no such field.
    UnsupportedBySource,
    /// The record does not hold the value.
    MissingInSample,
}

/// Why two samples cannot be compared.
#[derive(Clone, Copy, PartialEq, Eq, Structural, Debug)]
pub enum Discontinuity {
    /// The machine was restarted between them.
    Restart,
    /// The item of the earlier sample is another one.
    ItemReplaced,
}

/// Why a value cannot be shown.
#[derive(Clone, Copy, PartialEq, Eq, Structural, Debug)]
pub enum ComputeIssue {
    UnsupportedBySource,
    MissingInSample,
    Discontinuous(Discontinuity),
    NotNumeric,
    NeedsItemGroup,
    NotImplemented,
}

/// A displayed value: the bit pattern of a double, or the reason why there is none.
pub type Computed = Result<u64, ComputeIssue>;

/// The bit pattern of the double 0.
pub const ZERO_BITS: u64 = 0;

/// The bit pattern of the double 100.
pub const HUNDRED_BITS: u64 = 0x4059_0000_0000_0000;

/// An unsigned number cast to a signed one of the same size.
pub open spec fn as_signed(v: u64) -> int {
    if v >= 0x8000_0000_0000_0000 {
        v - 0x1_0000_0000_0000_0000
    } else {
        v as int
    }
}

/// An unsigned number cast to a signed one of the same size.
pub fn to_signed(v: u64) -> (r: i64)
    ensures
        r == as_signed(v),
{
    if v >= 0x8000_0000_0000_0000 {
        (v as i128 - 0x1_0000_0000_0000_0000) as i64
    } else {
        v as i64
    }
}

/// The low byte of a number as a signed one.
pub open spec fn signed_byte(v: u64) -> int {
    let low = v % 256;
    if low >= 128 {
        low - 256
    } else {
        low as int
    }
}

/// The low byte of a number as a signed one.
pub fn to_signed_byte(v: u64) -> (r: i64)
    ensures
        r == signed_byte(v),
{
    let low: u64 = v % 256;
    if low >= 128 {
        low as i64 - 256
    } else {
        low as i64
    }
}

/// One item of a sample, as it was read.
#[derive(Debug)]
pub struct ItemSnapshot {
    /// The name that tells the item from others, where it has one.
    pub key: Option<String>,
    /// The texts of the item, in the order of the plan.
    pub texts: Vec<Option<String>>,
    /// The values of the item, in the order of the plan.
    pub values: Vec<Availability>,
}

impl ItemSnapshot {
    /// The name of the item; `None` where it has none or an empty one.
    pub open spec fn name(self) -> Option<Seq<char>> {
        match self.key {
            Some(k) => if k@.len() > 0 {
                Some(k@)
            } else {
                None
            },
            None => None,
        }
    }

    /// The name of the item.
    pub fn name_text(&self) -> (r: Option<&str>)
        ensures
            match r {
                Some(k) => self.name() == Some(k@),
                None => self.name() is None,
            },
    {
        match &self.key {
            Some(k) => if k.as_str().is_empty() {
                None
            } else {
                Some(k.as_str())
            },
            None => None,
        }
    }

    /// The text at a position; none where it is empty.
    pub open spec fn text_at(self, i: int) -> Option<Seq<char>> {
        if 0 <= i < self.texts@.len() {
            match self.texts@[i] {
                Some(t) => if t@.len() > 0 {
                    Some(t@)
                } else {
                    None
                },
                None => None,
            }
        } else {
            None
        }
    }

    /// The text at a position; none where it is empty.
    pub fn text(&self, i: usize) -> (r: Option<&str>)
        ensures
            match r {
                Some(t) => self.text_at(i as int) == Some(t@),
                None => self.text_at(i as int) is None,
            },
    {
        if i < self.texts.len() {
            match &self.texts[i] {
                Some(t) => if t.as_str().is_empty() {
                    None
                } else {
                    Some(t.as_str())
                },
                None => None,
            }
        } else {
            None
        }
    }
}

/// A field of the records of an activity.
#[derive(Debug)]
pub struct FieldPlan {
    pub name: String,
    /// Whether the generation of the file has the field.
    pub available: bool,
}

/// How the records of an activity are read.
#[derive(Debug)]
pub struct DecodePlan {
    pub fields: Vec<FieldPlan>,
    /// For each column, the value of an item that it shows.
    pub column_fields: Vec<Option<usize>>,
    /// The names of the texts of an item.
    pub text_fields: Vec<String>,
    /// The size of the second dimension of the items.
    pub nr2: u32,
    /// What the numbers of serial lines are too large by.
    pub serial_line_offset: u32,
}

/// Where a list of texts first holds `name`.
pub open spec fn text_position(list: Seq<String>, name: Seq<char>) -> Option<int>
    decreases list.len(),
{
    if list.len() == 0 {
        None
    } else {
        match text_position(list.drop_last(), name) {
            Some(i) => Some(i),
            None => if list.last()@ == name {
                Some(list.len() - 1)
            } else {
                None
            },
        }
    }
}

/// Where a list of texts first holds `name`.
pub fn position_of_text(list: &Vec<String>, name: &str) -> (r: Option<usize>)
    ensures
        match r {
            Some(i) => text_position(list@, name@) == Some(i as int) && i < list@.len()
                && list@[i as int]@ == name@,
            None => text_position(list@, name@) is None,
        },
{
    let mut i: usize = 0;
    let mut found: Option<usize> = None;
    proof {
        assert(list@.take(0) == Seq::<String>::empty());
    }
    while i < list.len()
        invariant
            i <= list.len(),
            match found {
                Some(k) => text_position(list@.take(i as int), name@) == Some(k as int) && k
                    < list@.len() && list@[k as int]@ == name@,
                None => text_position(list@.take(i as int), name@) is None,
            },
        decreases list.len() - i,
    {
        proof {
            assert(list@.take(i + 1).drop_last() == list@.take(i as int));
            assert(list@.take(i + 1).last() == list@[i as int]);
        }
        if found.is_none() && same_text(list[i].as_str(), name) {
            found = Some(i);
        }
        i = i + 1;
    }
    assert(list@.take(list@.len() as int) == list@);
    found
}

impl DecodePlan {
    /// The value that a column shows of an item's values.
    pub open spec fn column(self, values: Seq<Availability>, col: int) -> Availability {
        if 0 <= col < self.column_fields@.len() {
            match self.column_fields@[col] {
                Some(f) => if f < values.len() {
                    values[f as int]
                } else {
                    Availability::MissingInSample
                },
                None => Availability::UnsupportedBySource,
            }
        } else {
            Availability::UnsupportedBySource
        }
    }

    /// The value that a column shows of an item's values.
    pub fn column_value(&self, values: &Vec<Availability>, col: usize) -> (r: Availability)
        ensures
            r == self.column(values@, col as int),
    {
        if col < self.column_fields.len() {
            match self.column_fields[col] {
                Some(f) => if f < values.len() {
                    values[f]
                } else {
                    Availability::MissingInSample
                },
                None => Availability::UnsupportedBySource,
            }
        } else {
            Availability::UnsupportedBySource
        }
    }

    /// The value of a column where it is there, else `otherwise`.
    pub open spec fn raw_or(self, item: ItemSnapshot, col: int, otherwise: u64) -> u64 {
        match self.column(item.values@, col) {
            Availability::Present(v) => v,
            _ => otherwise,
        }
    }

    /// The value of a column where it is there, else `otherwise`.
    pub fn raw_column(&self, item: &ItemSnapshot, col: usize, otherwise: u64) -> (r: u64)
        ensures
            r == self.raw_or(*item, col as int, otherwise),
    {
        match self.column_value(&item.values, col) {
            Availability::Present(v) => v,
            _ => otherwise,
        }
    }

    /// Where an item has the text of this name.
    pub fn text_index(&self, name: &str) -> (r: Option<usize>)
        ensures
            match r {
                Some(i) => text_position(self.text_fields@, name@) == Some(i as int),
                None => text_position(self.text_fields@, name@) is None,
            },
    {
        position_of_text(&self.text_fields, name)
    }

    /// Whether interrupts have names in this file.
    pub open spec fn names_interrupts(self) -> bool {
        text_position(self.text_fields@, "irq_name"@) is Some
    }

    /// Whether interrupts have names in this file.
    pub fn has_irq_names(&self) -> (r: bool)
        ensures
            r == self.names_interrupts(),
    {
        self.text_index("irq_name").is_some()
    }
}

}
