//! What a report shows and how.

use vstd::prelude::*;

use crate::model::ActivityId;
use crate::sadf::select::effective_interval;
use crate::text::same_text;

verus! {

/// Whose clock the timestamps go by.
#[derive(Clone, Copy, PartialEq, Eq, Structural, Debug)]
pub enum TimeStyle {
    /// The local time of the reader.
    Local,
    /// UTC.
    Utc,
    /// The time of day that the record holds.
    Recorded,
    /// Seconds since the epoch.
    Epoch,
}

impl Default for TimeStyle {
    fn default() -> (r: Self)
        ensures
            r == TimeStyle::Local,
    {
        TimeStyle::Local
    }
}

/// Which CPUs are shown. Item 0 is the line for all CPUs together, item `n` is CPU `n - 1`.
#[derive(Clone, PartialEq, Eq, Debug)]
pub enum CpuSelection {
    /// The line for all CPUs only.
    Aggregate,
    /// That line and every CPU.
    All,
    /// The CPUs of a list, with or without the line for all of them.
    Listed { aggregate: bool, cpus: Vec<usize> },
}

impl Default for CpuSelection {
    fn default() -> (r: Self)
        ensures
            r == CpuSelection::Aggregate,
    {
        CpuSelection::Aggregate
    }
}

/// Whether a list of numbers holds `n`.
pub open spec fn has_number(list: Seq<usize>, n: int) -> bool {
    exists|k: int| 0 <= k < list.len() && #[trigger] list[k] == n
}

/// Whether a list of numbers holds `n`.
pub fn holds_number(list: &Vec<usize>, n: usize) -> (r: bool)
    ensures
        r == has_number(list@, n as int),
{
    let mut k: usize = 0;
    while k < list.len()
        invariant
            k <= list.len(),
            forall|j: int| 0 <= j < k ==> #[trigger] list@[j] != n,
        decreases list.len() - k,
    {
        if list[k] == n {
            return true;
        }
        k = k + 1;
    }
    false
}

impl CpuSelection {
    /// Whether the item with this index is selected.
    pub open spec fn selects(self, item_index: int) -> bool {
        match self {
            CpuSelection::Aggregate => item_index == 0,
            CpuSelection::All => true,
            CpuSelection::Listed { aggregate, cpus } => if item_index == 0 {
                aggregate
            } else {
                has_number(cpus@, item_index - 1)
            },
        }
    }

    /// Whether the item with this index is selected.
    pub fn includes(&self, item_index: usize) -> (r: bool)
        ensures
            r == self.selects(item_index as int),
    {
        match self {
            CpuSelection::Aggregate => item_index == 0,
            CpuSelection::All => true,
            CpuSelection::Listed { aggregate, cpus } => {
                if item_index == 0 {
                    return *aggregate;
                }
                holds_number(cpus, item_index - 1)
            },
        }
    }
}

/// Which samples are shown: each that is close to a multiple of `interval`, and at most
/// `count` of them between two restarts.
#[derive(Clone, Copy, PartialEq, Eq, Structural, Debug)]
pub struct SampleSelect {
    /// The interval in seconds. 1 takes every sample; 0 counts as 1.
    pub interval: u64,
    /// The most samples that are shown between two restarts; without it, all.
    pub count: Option<u64>,
}

impl Default for SampleSelect {
    fn default() -> (r: Self)
        ensures
            r == (SampleSelect { interval: 1, count: None }),
    {
        SampleSelect { interval: 1, count: None }
    }
}

impl SampleSelect {
    /// The interval in force.
    pub fn interval(self) -> (r: u64)
        ensures
            r == effective_interval(self.interval),
    {
        if self.interval == 0 {
            1
        } else {
            self.interval
        }
    }

    /// Whether every sample is taken.
    pub fn selects_every_record(self) -> (r: bool)
        ensures
            r == (self.interval <= 1),
    {
        self.interval() == 1
    }
}

/// The names that the items of one activity are narrowed down to.
#[derive(Clone, Debug)]
pub struct NameFilter {
    pub id: ActivityId,
    pub names: Vec<String>,
}

/// The names that the items of `id` are narrowed down to; `None` where there is no filter.
pub open spec fn names_for(filters: Seq<NameFilter>, id: ActivityId) -> Option<Seq<String>>
    decreases filters.len(),
{
    if filters.len() == 0 {
        None
    } else if filters[0].id == id {
        Some(filters[0].names@)
    } else {
        names_for(filters.drop_first(), id)
    }
}

/// Whether a list of names holds `name`.
pub open spec fn has_name(names: Seq<String>, name: Seq<char>) -> bool {
    exists|k: int| 0 <= k < names.len() && #[trigger] names[k]@ == name
}

/// Whether an item is shown under the filters: it has no filter, its filter is empty, or its
/// filter names it.
pub open spec fn name_passes(filters: Seq<NameFilter>, id: ActivityId, name: Seq<char>) -> bool {
    match names_for(filters, id) {
        None => true,
        Some(names) => names.len() == 0 || has_name(names, name),
    }
}

/// Whether a list of names holds `name`.
pub fn contains_name(names: &Vec<String>, name: &str) -> (r: bool)
    ensures
        r == has_name(names@, name@),
{
    let mut k: usize = 0;
    while k < names.len()
        invariant
            k <= names.len(),
            forall|j: int| 0 <= j < k ==> #[trigger] names@[j]@ != name@,
        decreases names.len() - k,
    {
        if same_text(names[k].as_str(), name) {
            assert(names@[k as int]@ == name@);
            return true;
        }
        k = k + 1;
    }
    false
}

/// The filter of an activity.
pub fn filter_of(filters: &Vec<NameFilter>, id: ActivityId) -> (r: Option<&Vec<String>>)
    ensures
        match r {
            None => names_for(filters@, id) is None,
            Some(names) => names_for(filters@, id) == Some(names@),
        },
{
    let mut k: usize = 0;
    proof {
        assert(filters@.skip(0) == filters@);
    }
    while k < filters.len()
        invariant
            k <= filters.len(),
            names_for(filters@, id) == names_for(filters@.skip(k as int), id),
        decreases filters.len() - k,
    {
        proof {
            assert(filters@.skip(k as int)[0] == filters@[k as int]);
            assert(filters@.skip(k as int).drop_first() == filters@.skip(k + 1));
        }
        if filters[k].id == id {
            return Some(&filters[k].names);
        }
        k = k + 1;
    }
    None
}

/// Whether an item is shown under the filters.
pub fn name_is_selected(filters: &Vec<NameFilter>, id: ActivityId, name: &str) -> (r: bool)
    ensures
        r == name_passes(filters@, id, name@),
{
    match filter_of(filters, id) {
        None => true,
        Some(names) => names.len() == 0 || contains_name(names, name),
    }
}

/// The options of a text report.
#[derive(Clone, Debug)]
pub struct SarTextOptions {
    /// Item names stand at the end of the line.
    pub pretty: bool,
    /// Values are scaled and carry their unit.
    pub human: bool,
    /// The number of decimals, where one was asked for.
    pub dec_places: Option<u8>,
    /// Comments are shown.
    pub comment: bool,
    /// The smallest and the largest values are shown.
    pub minmax: bool,
    /// Items that have not changed since the last sample are left out.
    pub zero_omit: bool,
    /// The long form of the CPU report.
    pub cpu_all: bool,
    /// The memory report. It is also shown where neither it nor the swap report is asked for.
    pub memory: bool,
    /// The long form of the memory report.
    pub mem_all: bool,
    /// The swap report.
    pub swap: bool,
    /// Filesystems go by their mount point.
    pub mount: bool,
    /// Disks go by their stable identifier.
    pub dev_sid: bool,
    pub time: TimeStyle,
    pub cpus: CpuSelection,
    /// The items that are shown, by name. An activity without an entry shows all.
    pub item_names: Vec<NameFilter>,
}

impl Default for SarTextOptions {
    fn default() -> (r: Self)
        ensures
            !r.pretty && !r.human && !r.comment && !r.minmax && !r.zero_omit && !r.cpu_all,
            !r.memory && !r.mem_all && !r.swap && !r.mount && !r.dev_sid,
            r.dec_places is None,
            r.time == TimeStyle::Local,
            r.cpus == CpuSelection::Aggregate,
            r.item_names@.len() == 0,
    {
        SarTextOptions {
            pretty: false,
            human: false,
            dec_places: None,
            comment: false,
            minmax: false,
            zero_omit: false,
            cpu_all: false,
            memory: false,
            mem_all: false,
            swap: false,
            mount: false,
            dev_sid: false,
            time: TimeStyle::Local,
            cpus: CpuSelection::Aggregate,
            item_names: Vec::new(),
        }
    }
}

impl SarTextOptions {
    /// Whether the memory report is shown: where it is asked for, or where neither it nor the
    /// swap report is.
    pub open spec fn shows_memory(self) -> bool {
        self.memory || !self.swap
    }

    /// The decimals of a column that has `wd` of them by default. A column without decimals
    /// stays without.
    pub open spec fn decimals_of(self, wd: u8) -> u8 {
        match self.dec_places {
            Some(d) => if wd > 0 {
                d
            } else {
                wd
            },
            None => wd,
        }
    }

    /// The decimals of a scaled value: one, unless none were asked for.
    pub open spec fn scaled_decimals(self) -> u8 {
        if self.dec_places == Some(0u8) {
            0
        } else {
            1
        }
    }

    /// Whether the memory report and the swap report are shown.
    pub fn memory_blocks(&self) -> (r: (bool, bool))
        ensures
            r.0 == self.shows_memory(),
            r.1 == self.swap,
    {
        if !self.memory && !self.swap {
            (true, false)
        } else {
            (self.memory, self.swap)
        }
    }

    /// The decimals of a column that has `wd` of them by default.
    pub fn decimals(&self, wd: u8) -> (r: u8)
        ensures
            r == self.decimals_of(wd),
    {
        match self.dec_places {
            Some(d) => if wd > 0 {
                d
            } else {
                wd
            },
            None => wd,
        }
    }

    /// The decimals of a scaled value.
    pub fn unit_decimals(&self) -> (r: u8)
        ensures
            r == self.scaled_decimals(),
    {
        match self.dec_places {
            Some(d) => if d == 0 {
                0
            } else {
                1
            },
            None => 1,
        }
    }
}

}
