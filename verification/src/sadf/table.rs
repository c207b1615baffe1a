//! What is shown of each activity, and how: names, keys, forms and orders.
//!
//! The formats do not agree on the names and the order of the fields of an activity, nor does
//! the list of names that heads a database output always agree with the fields under it. The
//! tables keep these differences.

use vstd::prelude::*;

use crate::model::ActivityId;
use crate::sadf::activities::{
    cpu_model, cpu_spec, disk_model, disk_spec, fs_model, fs_spec, huge_model, huge_spec,
    io_model, io_spec, irq_model, irq_spec, ktables_model, ktables_spec, memory_model,
    memory_spec, net_dev_model, net_dev_spec, net_edev_model, net_edev_spec, net_eicmp6_model,
    net_eicmp6_spec, net_eicmp_model, net_eicmp_spec, net_eip6_model, net_eip6_spec,
    net_eip_model, net_eip_spec, net_etcp_model, net_etcp_spec, net_fc_model, net_fc_spec,
    net_icmp6_model, net_icmp6_spec, net_icmp_model, net_icmp_spec, net_ip6_model, net_ip6_spec,
    net_ip_model, net_ip_spec, net_nfs_model, net_nfs_spec, net_nfsd_model, net_nfsd_spec,
    net_sock6_model, net_sock6_spec, net_sock_model, net_sock_spec, net_soft_model, net_soft_spec,
    net_tcp_model, net_tcp_spec, net_udp6_model, net_udp6_spec, net_udp_model, net_udp_spec,
    page_model, page_spec, pcsw_model, pcsw_spec, psi_cpu_model, psi_cpu_spec, psi_io_model,
    psi_io_spec, psi_mem_model, psi_mem_spec, pwr_bat_model, pwr_bat_spec, pwr_cpu_model,
    pwr_cpu_spec, pwr_fan_model, pwr_fan_spec, pwr_freq_model, pwr_freq_spec, pwr_in_model,
    pwr_in_spec, pwr_temp_model, pwr_temp_spec, pwr_usb_model, pwr_usb_spec, queue_model,
    queue_spec, serial_model, serial_spec, swap_model, swap_spec,
};
use crate::text::{cut, find, find_char, push_char};

verus! {

/// How a value is written.
#[derive(Clone, Copy, PartialEq, Eq, Structural, Debug)]
pub enum Fmt {
    /// Two decimals.
    R2,
    /// Rounded, without decimals.
    R0,
    /// An integer, cut off.
    Int,
    /// A text.
    Str,
    /// A hexadecimal number.
    Hex,
    /// What tells the item from others, as a text.
    ItemKeyStr,
    /// What tells the item from others, as a number.
    ItemKeyNum,
    /// Not shown in this format.
    Skip,
}

/// What tells the items of an activity from one another.
#[derive(Clone, Copy, Debug)]
pub enum ItemKind {
    /// The activity has no items.
    Single,
    /// CPUs; the first item stands for all of them.
    Cpu,
    /// A name.
    Name,
    /// The position, counted from `base`.
    Index { prefix: &'static str, base: u32 },
    /// The value of a column.
    Column { col: &'static str, prefix: &'static str },
    /// A block device, told by its device numbers.
    Disk,
    /// An interrupt.
    Irq,
}

impl ItemKind {
    /// Whether the activity has no items.
    pub fn is_single(&self) -> (r: bool)
        ensures
            r == (*self is Single),
    {
        match self {
            ItemKind::Single => true,
            _ => false,
        }
    }
}

/// When a section is shown.
#[derive(Clone, Copy, PartialEq, Eq, Structural, Debug)]
pub enum SectionGate {
    Always,
    /// CPU utilization in brief.
    CpuDef,
    /// CPU utilization in full.
    CpuAll,
    Memory,
    Swap,
    /// File systems by device.
    FsName,
    /// File systems by mount point.
    FsMount,
}

/// When a field is shown.
#[derive(Clone, Copy, PartialEq, Eq, Structural, Debug)]
pub enum FieldGate {
    Always,
    /// Only where memory is shown in full.
    MemAll,
}

/// A field of a section.
#[derive(Clone, Copy, Debug)]
pub struct Field {
    /// The column that the field shows; empty where it shows none.
    pub col: &'static str,
    /// The name of the field where each value has a line of its own; empty where the flat
    /// formats do not show the field.
    pub pp: &'static str,
    /// The form of the value in the flat formats.
    pub dp_fmt: Fmt,
    /// The key of the field in JSON; empty where it is not shown there.
    pub key: &'static str,
    /// The attribute of the field in XML; empty where it is not shown there.
    pub attr: &'static str,
    /// The form of the value in JSON and XML.
    pub jx_fmt: Fmt,
    pub gate: FieldGate,
}

/// How a field is written in the raw format.
#[derive(Clone, Copy, Debug)]
pub enum RawStyle {
    /// The value before and the value now.
    Pval,
    /// The value before and the value now, never marked as a decrease.
    Pair,
    /// The sums of three columns before and now.
    PvalSum(&'static str, &'static str, &'static str),
    /// The differences of two columns before and now.
    PvalDiff(&'static str, &'static str),
    /// The value now.
    Int,
    /// The value now as it is displayed, cut off to an integer.
    IntCompat,
    /// The value now, which is a double, with six decimals.
    Sensor,
    Text,
    /// A text in double quotes.
    QuotedText,
    /// The value now, in hexadecimal.
    Hex,
}

/// A field in the raw format.
#[derive(Clone, Copy, Debug)]
pub struct RawField {
    /// The column; empty where the style names the columns.
    pub col: &'static str,
    pub name: &'static str,
    pub style: RawStyle,
    pub gate: FieldGate,
}

/// The fields of a section in the raw format.
#[derive(Debug)]
pub enum RawSpec {
    /// All fields of the flat formats, each with its value before and now.
    AllPval,
    Fields(Vec<RawField>),
}

/// The fields of a section in the raw format.
#[verifier::ext_equal]
pub enum RawModel {
    AllPval,
    Fields(Seq<RawField>),
}

impl RawSpec {
    pub open spec fn model(self) -> RawModel {
        match self {
            RawSpec::AllPval => RawModel::AllPval,
            RawSpec::Fields(list) => RawModel::Fields(list@),
        }
    }
}

/// A part of an activity that is shown on its own.
#[derive(Debug)]
pub struct Section {
    pub gate: SectionGate,
    /// The column whose text tells the items; empty where the activity says what does.
    pub item_col: &'static str,
    /// The names that head the section in a database output. What stands behind `&` is shown
    /// only where memory is shown in full.
    pub hdr_line: &'static str,
    pub fields: Vec<Field>,
    /// The order of the fields in JSON and XML; empty where it is that of `fields`.
    pub jx_order: Vec<usize>,
    pub raw: RawSpec,
}

/// A part of an activity that is shown on its own.
#[verifier::ext_equal]
pub struct SectionModel {
    pub gate: SectionGate,
    pub item_col: &'static str,
    pub hdr_line: &'static str,
    pub fields: Seq<Field>,
    pub jx_order: Seq<usize>,
    pub raw: RawModel,
}

impl Section {
    pub open spec fn model(self) -> SectionModel {
        SectionModel {
            gate: self.gate,
            item_col: self.item_col,
            hdr_line: self.hdr_line,
            fields: self.fields@,
            jx_order: self.jx_order@,
            raw: self.raw.model(),
        }
    }
}

/// What surrounds several activities in JSON and XML.
#[derive(Clone, Copy, PartialEq, Eq, Structural, Debug)]
pub enum Group {
    Ungrouped,
    Network,
    PowerManagement,
    Psi,
}

impl Group {
    /// The name of the group.
    pub open spec fn name(self) -> Seq<char> {
        match self {
            Group::Ungrouped => ""@,
            Group::Network => "network"@,
            Group::PowerManagement => "power-management"@,
            Group::Psi => "psi"@,
        }
    }

    /// The name of the group.
    pub fn tag(self) -> (r: &'static str)
        ensures
            r@ == self.name(),
    {
        match self {
            Group::Ungrouped => "",
            Group::Network => "network",
            Group::PowerManagement => "power-management",
            Group::Psi => "psi",
        }
    }

    /// The attributes of the group in XML.
    pub open spec fn attributes(self) -> Seq<char> {
        match self {
            Group::Network | Group::Psi => " per=\"second\""@,
            _ => ""@,
        }
    }

    /// The attributes of the group in XML.
    pub fn xml_attrs(self) -> (r: &'static str)
        ensures
            r@ == self.attributes(),
    {
        match self {
            Group::Network | Group::Psi => " per=\"second\"",
            _ => "",
        }
    }
}

/// What an activity looks like in JSON and XML.
#[derive(Clone, Copy, PartialEq, Eq, Structural, Debug)]
pub enum Shape {
    /// One object.
    Object,
    /// A list with an object for each item.
    Array,
    /// One object, whose values are the contents of elements in XML.
    TextChildren,
    /// A shape of its own.
    Custom,
}

/// What is shown of an activity.
#[derive(Debug)]
pub struct ActivitySpec {
    pub id: ActivityId,
    pub name: &'static str,
    pub desc: &'static str,
    pub json_key: &'static str,
    pub xml_elem: &'static str,
    pub xml_child: &'static str,
    pub xml_wrapper_attrs: &'static str,
    pub group: Group,
    /// Whether the group ends with this activity.
    pub closes_group: bool,
    pub item: ItemKind,
    pub shape: Shape,
    /// Whether the sections are one object in JSON and XML.
    pub merge_sections: bool,
    pub sections: Vec<Section>,
}

/// What is shown of an activity.
#[verifier::ext_equal]
pub struct SpecModel {
    pub id: ActivityId,
    pub name: &'static str,
    pub desc: &'static str,
    pub json_key: &'static str,
    pub xml_elem: &'static str,
    pub xml_child: &'static str,
    pub xml_wrapper_attrs: &'static str,
    pub group: Group,
    pub closes_group: bool,
    pub item: ItemKind,
    pub shape: Shape,
    pub merge_sections: bool,
    pub sections: Seq<SectionModel>,
}

/// The sections whose gates are open, by their positions among the first `n`.
pub open spec fn active(sections: Seq<SectionModel>, cfg: SectionConfig, n: int) -> Seq<int>
    decreases n,
{
    if n <= 0 {
        Seq::empty()
    } else {
        let before = active(sections, cfg, n - 1);
        if cfg.opens(sections[n - 1].gate) {
            before.push(n - 1)
        } else {
            before
        }
    }
}

impl SpecModel {
    /// The sections that are shown, by their positions.
    pub open spec fn active(self, cfg: SectionConfig) -> Seq<int> {
        active(self.sections, cfg, self.sections.len() as int)
    }
}

impl ActivitySpec {
    pub open spec fn model(self) -> SpecModel {
        SpecModel {
            id: self.id,
            name: self.name,
            desc: self.desc,
            json_key: self.json_key,
            xml_elem: self.xml_elem,
            xml_child: self.xml_child,
            xml_wrapper_attrs: self.xml_wrapper_attrs,
            group: self.group,
            closes_group: self.closes_group,
            item: self.item,
            shape: self.shape,
            merge_sections: self.merge_sections,
            sections: Seq::new(self.sections@.len(), |i: int| self.sections@[i].model()),
        }
    }

    /// The sections that are shown, by their positions.
    pub fn active_positions(&self, cfg: &SectionConfig) -> (r: Vec<usize>)
        ensures
            r@.len() == self.model().active(*cfg).len(),
            forall|k: int|
                0 <= k < r@.len() ==> #[trigger] r@[k] == self.model().active(*cfg)[k] && r@[k]
                    < self.sections@.len(),
    {
        let mut out: Vec<usize> = Vec::new();
        let mut i: usize = 0;
        while i < self.sections.len()
            invariant
                i <= self.sections.len(),
                out@.len() == active(self.model().sections, *cfg, i as int).len(),
                forall|k: int|
                    0 <= k < out@.len() ==> #[trigger] out@[k] == active(
                        self.model().sections,
                        *cfg,
                        i as int,
                    )[k] && out@[k] < self.sections@.len(),
            decreases self.sections.len() - i,
        {
            if cfg.allows(self.sections[i].gate) {
                out.push(i);
            }
            i = i + 1;
        }
        out
    }

    /// The sections that are shown.
    pub fn active_sections(&self, cfg: &SectionConfig) -> (r: Vec<&Section>)
        ensures
            r@.len() == self.model().active(*cfg).len(),
            forall|k: int|
                0 <= k < r@.len() ==> (#[trigger] r@[k]).model()
                    == self.model().sections[self.model().active(*cfg)[k]],
    {
        let at = self.active_positions(cfg);
        let mut out: Vec<&Section> = Vec::new();
        let mut i: usize = 0;
        while i < at.len()
            invariant
                i <= at.len(),
                out@.len() == i,
                at@.len() == self.model().active(*cfg).len(),
                forall|k: int|
                    0 <= k < at@.len() ==> #[trigger] at@[k] == self.model().active(*cfg)[k]
                        && at@[k] < self.sections@.len(),
                forall|k: int|
                    0 <= k < out@.len() ==> (#[trigger] out@[k]).model()
                        == self.model().sections[self.model().active(*cfg)[k]],
            decreases at.len() - i,
        {
            out.push(&self.sections[at[i]]);
            i = i + 1;
        }
        out
    }
}

/// Which sections and fields are shown.
#[derive(Clone, Copy, PartialEq, Eq, Structural, Debug)]
pub struct SectionConfig {
    /// CPU utilization in full.
    pub cpu_all: bool,
    pub memory: bool,
    pub swap: bool,
    /// Memory in full.
    pub mem_all: bool,
    /// File systems by mount point.
    pub fs_mount: bool,
}

/// Everything in full, file systems by device.
pub open spec fn all_sections() -> SectionConfig {
    SectionConfig { cpu_all: true, memory: true, swap: true, mem_all: true, fs_mount: false }
}

impl Default for SectionConfig {
    fn default() -> (r: Self)
        ensures
            r == all_sections(),
    {
        SectionConfig { cpu_all: true, memory: true, swap: true, mem_all: true, fs_mount: false }
    }
}

impl SectionConfig {
    /// Whether a section is shown.
    pub open spec fn opens(self, gate: SectionGate) -> bool {
        match gate {
            SectionGate::Always => true,
            SectionGate::CpuDef => !self.cpu_all,
            SectionGate::CpuAll => self.cpu_all,
            SectionGate::Memory => self.memory,
            SectionGate::Swap => self.swap,
            SectionGate::FsName => !self.fs_mount,
            SectionGate::FsMount => self.fs_mount,
        }
    }

    /// Whether a section is shown.
    pub fn allows(&self, gate: SectionGate) -> (r: bool)
        ensures
            r == self.opens(gate),
    {
        match gate {
            SectionGate::Always => true,
            SectionGate::CpuDef => !self.cpu_all,
            SectionGate::CpuAll => self.cpu_all,
            SectionGate::Memory => self.memory,
            SectionGate::Swap => self.swap,
            SectionGate::FsName => !self.fs_mount,
            SectionGate::FsMount => self.fs_mount,
        }
    }

    /// Whether a field is shown.
    pub open spec fn opens_field(self, gate: FieldGate) -> bool {
        gate == FieldGate::Always || self.mem_all
    }

    /// Whether a field is shown.
    pub fn allows_field(&self, gate: FieldGate) -> (r: bool)
        ensures
            r == self.opens_field(gate),
    {
        match gate {
            FieldGate::Always => true,
            FieldGate::MemAll => self.mem_all,
        }
    }

    /// The names of a section as they are shown: the first `&` becomes `;` where memory is
    /// shown in full, and ends the names elsewhere.
    pub open spec fn expanded(self, hdr: Seq<char>) -> Seq<char> {
        let at = find(hdr, '&');
        if at >= hdr.len() {
            hdr
        } else if self.mem_all {
            hdr.take(at).push(';') + hdr.skip(at + 1)
        } else {
            hdr.take(at)
        }
    }

    /// The names of a section as they are shown.
    pub fn expand_hdr_line(&self, hdr: &str) -> (r: String)
        ensures
            r@ == self.expanded(hdr@),
    {
        let n: usize = hdr.unicode_len();
        let at: usize = find_char(hdr, '&');
        if at >= n {
            return hdr.to_owned();
        }
        let mut out = cut(hdr, 0, at);
        if self.mem_all {
            push_char(&mut out, ';');
            let rest = cut(hdr, at + 1, n);
            out.append(rest.as_str());
        }
        out
    }
}

/// A field that is always shown.
#[verifier::allow_in_spec]
pub fn field(
    col: &'static str,
    pp: &'static str,
    dp_fmt: Fmt,
    key: &'static str,
    attr: &'static str,
    jx_fmt: Fmt,
) -> Field
    returns
        (Field { col, pp, dp_fmt, key, attr, jx_fmt, gate: FieldGate::Always }),
{
    Field { col, pp, dp_fmt, key, attr, jx_fmt, gate: FieldGate::Always }
}

/// A field that is shown only where memory is shown in full.
#[verifier::allow_in_spec]
pub fn detail_field(
    col: &'static str,
    pp: &'static str,
    dp_fmt: Fmt,
    key: &'static str,
    attr: &'static str,
    jx_fmt: Fmt,
) -> Field
    returns
        (Field { col, pp, dp_fmt, key, attr, jx_fmt, gate: FieldGate::MemAll }),
{
    Field { col, pp, dp_fmt, key, attr, jx_fmt, gate: FieldGate::MemAll }
}

/// A field with two decimals in every format.
#[verifier::allow_in_spec]
pub fn rate(col: &'static str, pp: &'static str, key: &'static str) -> Field
    returns
        (Field {
            col,
            pp,
            dp_fmt: Fmt::R2,
            key,
            attr: key,
            jx_fmt: Fmt::R2,
            gate: FieldGate::Always,
        }),
{
    Field { col, pp, dp_fmt: Fmt::R2, key, attr: key, jx_fmt: Fmt::R2, gate: FieldGate::Always }
}

/// A field that shows which item it is. The flat formats have no such field.
#[verifier::allow_in_spec]
pub fn item_key(key: &'static str, attr: &'static str, jx_fmt: Fmt) -> Field
    returns
        (Field { col: "", pp: "", dp_fmt: Fmt::Skip, key, attr, jx_fmt, gate: FieldGate::Always }),
{
    Field { col: "", pp: "", dp_fmt: Fmt::Skip, key, attr, jx_fmt, gate: FieldGate::Always }
}

/// A field of the raw format.
#[verifier::allow_in_spec]
pub fn rawf(col: &'static str, name: &'static str, style: RawStyle) -> RawField
    returns
        (RawField { col, name, style, gate: FieldGate::Always }),
{
    RawField { col, name, style, gate: FieldGate::Always }
}

/// A field of the raw format that is shown only where memory is shown in full.
#[verifier::allow_in_spec]
pub fn detail_raw(col: &'static str, name: &'static str, style: RawStyle) -> RawField
    returns
        (RawField { col, name, style, gate: FieldGate::MemAll }),
{
    RawField { col, name, style, gate: FieldGate::MemAll }
}

/// The activities in the order of JSON and XML.
pub open spec fn act_order() -> Seq<ActivityId> {
    seq![
        ActivityId::CPU,
        ActivityId::PCSW,
        ActivityId::IRQ,
        ActivityId::SWAP,
        ActivityId::PAGE,
        ActivityId::IO,
        ActivityId::MEMORY,
        ActivityId::HUGE,
        ActivityId::KTABLES,
        ActivityId::QUEUE,
        ActivityId::SERIAL,
        ActivityId::DISK,
        ActivityId::NET_DEV,
        ActivityId::NET_EDEV,
        ActivityId::NET_NFS,
        ActivityId::NET_NFSD,
        ActivityId::NET_SOCK,
        ActivityId::NET_IP,
        ActivityId::NET_EIP,
        ActivityId::NET_ICMP,
        ActivityId::NET_EICMP,
        ActivityId::NET_TCP,
        ActivityId::NET_ETCP,
        ActivityId::NET_UDP,
        ActivityId::NET_SOCK6,
        ActivityId::NET_IP6,
        ActivityId::NET_EIP6,
        ActivityId::NET_ICMP6,
        ActivityId::NET_EICMP6,
        ActivityId::NET_UDP6,
        ActivityId::NET_FC,
        ActivityId::NET_SOFT,
        ActivityId::PWR_CPU,
        ActivityId::PWR_FAN,
        ActivityId::PWR_TEMP,
        ActivityId::PWR_IN,
        ActivityId::PWR_FREQ,
        ActivityId::PWR_BAT,
        ActivityId::PWR_USB,
        ActivityId::FS,
        ActivityId::PSI_CPU,
        ActivityId::PSI_IO,
        ActivityId::PSI_MEM,
    ]
}

/// The activities in the order of JSON and XML.
pub fn act_ids() -> (r: Vec<ActivityId>)
    ensures
        r@ == act_order(),
{
    vec![
        ActivityId::CPU,
        ActivityId::PCSW,
        ActivityId::IRQ,
        ActivityId::SWAP,
        ActivityId::PAGE,
        ActivityId::IO,
        ActivityId::MEMORY,
        ActivityId::HUGE,
        ActivityId::KTABLES,
        ActivityId::QUEUE,
        ActivityId::SERIAL,
        ActivityId::DISK,
        ActivityId::NET_DEV,
        ActivityId::NET_EDEV,
        ActivityId::NET_NFS,
        ActivityId::NET_NFSD,
        ActivityId::NET_SOCK,
        ActivityId::NET_IP,
        ActivityId::NET_EIP,
        ActivityId::NET_ICMP,
        ActivityId::NET_EICMP,
        ActivityId::NET_TCP,
        ActivityId::NET_ETCP,
        ActivityId::NET_UDP,
        ActivityId::NET_SOCK6,
        ActivityId::NET_IP6,
        ActivityId::NET_EIP6,
        ActivityId::NET_ICMP6,
        ActivityId::NET_EICMP6,
        ActivityId::NET_UDP6,
        ActivityId::NET_FC,
        ActivityId::NET_SOFT,
        ActivityId::PWR_CPU,
        ActivityId::PWR_FAN,
        ActivityId::PWR_TEMP,
        ActivityId::PWR_IN,
        ActivityId::PWR_FREQ,
        ActivityId::PWR_BAT,
        ActivityId::PWR_USB,
        ActivityId::FS,
        ActivityId::PSI_CPU,
        ActivityId::PSI_IO,
        ActivityId::PSI_MEM,
    ]
}

/// What is shown of an activity.
pub open spec fn table(id: ActivityId) -> Option<SpecModel> {
    match id {
        ActivityId::CPU => Some(cpu_model()),
        ActivityId::PCSW => Some(pcsw_model()),
        ActivityId::IRQ => Some(irq_model()),
        ActivityId::SWAP => Some(swap_model()),
        ActivityId::PAGE => Some(page_model()),
        ActivityId::IO => Some(io_model()),
        ActivityId::MEMORY => Some(memory_model()),
        ActivityId::HUGE => Some(huge_model()),
        ActivityId::KTABLES => Some(ktables_model()),
        ActivityId::QUEUE => Some(queue_model()),
        ActivityId::SERIAL => Some(serial_model()),
        ActivityId::DISK => Some(disk_model()),
        ActivityId::NET_DEV => Some(net_dev_model()),
        ActivityId::NET_EDEV => Some(net_edev_model()),
        ActivityId::NET_NFS => Some(net_nfs_model()),
        ActivityId::NET_NFSD => Some(net_nfsd_model()),
        ActivityId::NET_SOCK => Some(net_sock_model()),
        ActivityId::NET_IP => Some(net_ip_model()),
        ActivityId::NET_EIP => Some(net_eip_model()),
        ActivityId::NET_ICMP => Some(net_icmp_model()),
        ActivityId::NET_EICMP => Some(net_eicmp_model()),
        ActivityId::NET_TCP => Some(net_tcp_model()),
        ActivityId::NET_ETCP => Some(net_etcp_model()),
        ActivityId::NET_UDP => Some(net_udp_model()),
        ActivityId::NET_SOCK6 => Some(net_sock6_model()),
        ActivityId::NET_IP6 => Some(net_ip6_model()),
        ActivityId::NET_EIP6 => Some(net_eip6_model()),
        ActivityId::NET_ICMP6 => Some(net_icmp6_model()),
        ActivityId::NET_EICMP6 => Some(net_eicmp6_model()),
        ActivityId::NET_UDP6 => Some(net_udp6_model()),
        ActivityId::NET_FC => Some(net_fc_model()),
        ActivityId::NET_SOFT => Some(net_soft_model()),
        ActivityId::PWR_CPU => Some(pwr_cpu_model()),
        ActivityId::PWR_FAN => Some(pwr_fan_model()),
        ActivityId::PWR_TEMP => Some(pwr_temp_model()),
        ActivityId::PWR_IN => Some(pwr_in_model()),
        ActivityId::PWR_FREQ => Some(pwr_freq_model()),
        ActivityId::PWR_BAT => Some(pwr_bat_model()),
        ActivityId::PWR_USB => Some(pwr_usb_model()),
        ActivityId::FS => Some(fs_model()),
        ActivityId::PSI_CPU => Some(psi_cpu_model()),
        ActivityId::PSI_IO => Some(psi_io_model()),
        ActivityId::PSI_MEM => Some(psi_mem_model()),
        ActivityId::Unknown(_) => None,
    }
}

/// What is shown of an activity.
pub fn lookup(id: ActivityId) -> (r: Option<ActivitySpec>)
    ensures
        match r {
            Some(s) => table(id) == Some(s.model()),
            None => table(id) is None,
        },
{
    match id {
        ActivityId::CPU => Some(cpu_spec()),
        ActivityId::PCSW => Some(pcsw_spec()),
        ActivityId::IRQ => Some(irq_spec()),
        ActivityId::SWAP => Some(swap_spec()),
        ActivityId::PAGE => Some(page_spec()),
        ActivityId::IO => Some(io_spec()),
        ActivityId::MEMORY => Some(memory_spec()),
        ActivityId::HUGE => Some(huge_spec()),
        ActivityId::KTABLES => Some(ktables_spec()),
        ActivityId::QUEUE => Some(queue_spec()),
        ActivityId::SERIAL => Some(serial_spec()),
        ActivityId::DISK => Some(disk_spec()),
        ActivityId::NET_DEV => Some(net_dev_spec()),
        ActivityId::NET_EDEV => Some(net_edev_spec()),
        ActivityId::NET_NFS => Some(net_nfs_spec()),
        ActivityId::NET_NFSD => Some(net_nfsd_spec()),
        ActivityId::NET_SOCK => Some(net_sock_spec()),
        ActivityId::NET_IP => Some(net_ip_spec()),
        ActivityId::NET_EIP => Some(net_eip_spec()),
        ActivityId::NET_ICMP => Some(net_icmp_spec()),
        ActivityId::NET_EICMP => Some(net_eicmp_spec()),
        ActivityId::NET_TCP => Some(net_tcp_spec()),
        ActivityId::NET_ETCP => Some(net_etcp_spec()),
        ActivityId::NET_UDP => Some(net_udp_spec()),
        ActivityId::NET_SOCK6 => Some(net_sock6_spec()),
        ActivityId::NET_IP6 => Some(net_ip6_spec()),
        ActivityId::NET_EIP6 => Some(net_eip6_spec()),
        ActivityId::NET_ICMP6 => Some(net_icmp6_spec()),
        ActivityId::NET_EICMP6 => Some(net_eicmp6_spec()),
        ActivityId::NET_UDP6 => Some(net_udp6_spec()),
        ActivityId::NET_FC => Some(net_fc_spec()),
        ActivityId::NET_SOFT => Some(net_soft_spec()),
        ActivityId::PWR_CPU => Some(pwr_cpu_spec()),
        ActivityId::PWR_FAN => Some(pwr_fan_spec()),
        ActivityId::PWR_TEMP => Some(pwr_temp_spec()),
        ActivityId::PWR_IN => Some(pwr_in_spec()),
        ActivityId::PWR_FREQ => Some(pwr_freq_spec()),
        ActivityId::PWR_BAT => Some(pwr_bat_spec()),
        ActivityId::PWR_USB => Some(pwr_usb_spec()),
        ActivityId::FS => Some(fs_spec()),
        ActivityId::PSI_CPU => Some(psi_cpu_spec()),
        ActivityId::PSI_IO => Some(psi_io_spec()),
        ActivityId::PSI_MEM => Some(psi_mem_spec()),
        ActivityId::Unknown(_) => None,
    }
}

/// Every activity that is known has a table, which is its own and has a section or a few.
pub proof fn law_table_is_of_its_activity(id: ActivityId)
    ensures
        table(id) is Some == id.known(),
        table(id) matches Some(m) ==> m.id == id && 1 <= m.sections.len() <= 4,
{
    reveal(cpu_model);
    reveal(pcsw_model);
    reveal(irq_model);
    reveal(swap_model);
    reveal(page_model);
    reveal(io_model);
    reveal(memory_model);
    reveal(huge_model);
    reveal(ktables_model);
    reveal(queue_model);
    reveal(serial_model);
    reveal(disk_model);
    reveal(net_dev_model);
    reveal(net_edev_model);
    reveal(net_nfs_model);
    reveal(net_nfsd_model);
    reveal(net_sock_model);
    reveal(net_ip_model);
    reveal(net_eip_model);
    reveal(net_icmp_model);
    reveal(net_eicmp_model);
    reveal(net_tcp_model);
    reveal(net_etcp_model);
    reveal(net_udp_model);
    reveal(net_sock6_model);
    reveal(net_ip6_model);
    reveal(net_eip6_model);
    reveal(net_icmp6_model);
    reveal(net_eicmp6_model);
    reveal(net_udp6_model);
    reveal(net_fc_model);
    reveal(net_soft_model);
    reveal(pwr_cpu_model);
    reveal(pwr_fan_model);
    reveal(pwr_temp_model);
    reveal(pwr_in_model);
    reveal(pwr_freq_model);
    reveal(pwr_bat_model);
    reveal(pwr_usb_model);
    reveal(fs_model);
    reveal(psi_cpu_model);
    reveal(psi_io_model);
    reveal(psi_mem_model);
}

/// The tables of a list of activities.
pub open spec fn tables_of(ids: Seq<ActivityId>, n: int) -> Seq<SpecModel>
    decreases n,
{
    if n <= 0 {
        Seq::empty()
    } else {
        match table(ids[n - 1]) {
            Some(m) => tables_of(ids, n - 1).push(m),
            None => tables_of(ids, n - 1),
        }
    }
}

/// The models of a list of tables.
pub open spec fn spec_models(list: Seq<ActivitySpec>) -> Seq<SpecModel> {
    Seq::new(list.len(), |i: int| list[i].model())
}

/// The tables of a list of activities.
pub fn lookup_all(ids: &Vec<ActivityId>) -> (r: Vec<ActivitySpec>)
    ensures
        spec_models(r@) == tables_of(ids@, ids@.len() as int),
{
    let mut out: Vec<ActivitySpec> = Vec::new();
    let mut i: usize = 0;
    assert(spec_models(out@) =~= tables_of(ids@, 0));
    while i < ids.len()
        invariant
            i <= ids.len(),
            spec_models(out@) == tables_of(ids@, i as int),
        decreases ids.len() - i,
    {
        let ghost before = out@;
        match lookup(ids[i]) {
            Some(s) => {
                out.push(s);
                assert(spec_models(out@) =~= spec_models(before).push(s.model()));
            },
            None => {},
        }
        i = i + 1;
    }
    out
}

/// All tables, in the order of JSON and XML.
pub fn all_specs() -> (r: Vec<ActivitySpec>)
    ensures
        spec_models(r@) == tables_of(act_order(), 43),
{
    lookup_all(&act_ids())
}

/// The activities by their numbers.
pub open spec fn id_order() -> Seq<ActivityId> {
    seq![
        ActivityId::CPU,
        ActivityId::PCSW,
        ActivityId::IRQ,
        ActivityId::SWAP,
        ActivityId::PAGE,
        ActivityId::IO,
        ActivityId::MEMORY,
        ActivityId::KTABLES,
        ActivityId::QUEUE,
        ActivityId::SERIAL,
        ActivityId::DISK,
        ActivityId::NET_DEV,
        ActivityId::NET_EDEV,
        ActivityId::NET_NFS,
        ActivityId::NET_NFSD,
        ActivityId::NET_SOCK,
        ActivityId::NET_IP,
        ActivityId::NET_EIP,
        ActivityId::NET_ICMP,
        ActivityId::NET_EICMP,
        ActivityId::NET_TCP,
        ActivityId::NET_ETCP,
        ActivityId::NET_UDP,
        ActivityId::NET_SOCK6,
        ActivityId::NET_IP6,
        ActivityId::NET_EIP6,
        ActivityId::NET_ICMP6,
        ActivityId::NET_EICMP6,
        ActivityId::NET_UDP6,
        ActivityId::PWR_CPU,
        ActivityId::PWR_FAN,
        ActivityId::PWR_TEMP,
        ActivityId::PWR_IN,
        ActivityId::HUGE,
        ActivityId::PWR_FREQ,
        ActivityId::PWR_USB,
        ActivityId::FS,
        ActivityId::NET_FC,
        ActivityId::NET_SOFT,
        ActivityId::PSI_CPU,
        ActivityId::PSI_IO,
        ActivityId::PSI_MEM,
        ActivityId::PWR_BAT,
    ]
}

/// All tables, by the numbers of the activities.
pub fn in_id_order() -> (r: Vec<ActivitySpec>)
    ensures
        spec_models(r@) == tables_of(id_order(), 43),
{
    let ids = vec![
        ActivityId::CPU,
        ActivityId::PCSW,
        ActivityId::IRQ,
        ActivityId::SWAP,
        ActivityId::PAGE,
        ActivityId::IO,
        ActivityId::MEMORY,
        ActivityId::KTABLES,
        ActivityId::QUEUE,
        ActivityId::SERIAL,
        ActivityId::DISK,
        ActivityId::NET_DEV,
        ActivityId::NET_EDEV,
        ActivityId::NET_NFS,
        ActivityId::NET_NFSD,
        ActivityId::NET_SOCK,
        ActivityId::NET_IP,
        ActivityId::NET_EIP,
        ActivityId::NET_ICMP,
        ActivityId::NET_EICMP,
        ActivityId::NET_TCP,
        ActivityId::NET_ETCP,
        ActivityId::NET_UDP,
        ActivityId::NET_SOCK6,
        ActivityId::NET_IP6,
        ActivityId::NET_EIP6,
        ActivityId::NET_ICMP6,
        ActivityId::NET_EICMP6,
        ActivityId::NET_UDP6,
        ActivityId::PWR_CPU,
        ActivityId::PWR_FAN,
        ActivityId::PWR_TEMP,
        ActivityId::PWR_IN,
        ActivityId::HUGE,
        ActivityId::PWR_FREQ,
        ActivityId::PWR_USB,
        ActivityId::FS,
        ActivityId::NET_FC,
        ActivityId::NET_SOFT,
        ActivityId::PSI_CPU,
        ActivityId::PSI_IO,
        ActivityId::PSI_MEM,
        ActivityId::PWR_BAT,
    ];
    assert(ids@ =~= id_order());
    lookup_all(&ids)
}

}
