//! The activities.

use vstd::prelude::*;

use crate::model::ActivityId;
use crate::sadf::fields::{
    cpu_all_fields, cpu_all_fields_list, cpu_all_raw, cpu_all_raw_list, cpu_def_fields,
    cpu_def_fields_list, cpu_def_raw, cpu_def_raw_list, disk_fields, disk_fields_list, disk_raw,
    disk_raw_list, fs_mount_fields, fs_mount_fields_list, fs_name_fields, fs_name_fields_list,
    fs_raw, fs_raw_list, huge_fields, huge_fields_list, huge_raw, huge_raw_list, io_fields,
    io_fields_list, ktables_fields, ktables_fields_list, ktables_raw, ktables_raw_list,
    memory_fields, memory_fields_list, memory_raw, memory_raw_list, net_dev_fields,
    net_dev_fields_list, net_dev_raw, net_dev_raw_list, net_edev_fields, net_edev_fields_list,
    net_eicmp6_fields, net_eicmp6_fields_list, net_eicmp_fields, net_eicmp_fields_list,
    net_eip6_fields, net_eip6_fields_list, net_eip_fields, net_eip_fields_list, net_etcp_fields,
    net_etcp_fields_list, net_fc_fields, net_fc_fields_list, net_icmp6_fields,
    net_icmp6_fields_list, net_icmp_fields, net_icmp_fields_list, net_ip6_fields,
    net_ip6_fields_list, net_ip_fields, net_ip_fields_list, net_nfs_fields, net_nfs_fields_list,
    net_nfsd_fields, net_nfsd_fields_list, net_sock6_fields, net_sock6_fields_list, net_sock6_raw,
    net_sock6_raw_list, net_sock_fields, net_sock_fields_list, net_sock_raw, net_sock_raw_list,
    net_soft_fields, net_soft_fields_list, net_soft_raw, net_soft_raw_list, net_tcp_fields,
    net_tcp_fields_list, net_udp6_fields, net_udp6_fields_list, net_udp_fields,
    net_udp_fields_list, page_fields, page_fields_list, pcsw_fields, pcsw_fields_list,
    psi_cpu_fields, psi_cpu_fields_list, psi_cpu_raw, psi_cpu_raw_list, psi_io_fields,
    psi_io_fields_list, psi_io_raw, psi_io_raw_list, psi_mem_fields, psi_mem_fields_list,
    psi_mem_raw, psi_mem_raw_list, pwr_bat_fields, pwr_bat_fields_list, pwr_bat_raw,
    pwr_bat_raw_list, pwr_cpu_fields, pwr_cpu_fields_list, pwr_cpu_raw, pwr_cpu_raw_list,
    pwr_fan_fields, pwr_fan_fields_list, pwr_fan_raw, pwr_fan_raw_list, pwr_freq_fields,
    pwr_freq_fields_list, pwr_freq_raw, pwr_freq_raw_list, pwr_in_fields, pwr_in_fields_list,
    pwr_in_raw, pwr_in_raw_list, pwr_temp_fields, pwr_temp_fields_list, pwr_temp_raw,
    pwr_temp_raw_list, pwr_usb_fields, pwr_usb_fields_list, pwr_usb_raw, pwr_usb_raw_list,
    queue_fields, queue_fields_list, queue_raw, queue_raw_list, sensor_order, sensor_order_list,
    serial_fields, serial_fields_list, serial_raw, serial_raw_list, swap_fields, swap_fields_list,
    swap_mem_fields, swap_mem_fields_list, swap_mem_raw, swap_mem_raw_list,
};
use crate::sadf::table::{
    ActivitySpec, Group, ItemKind, RawModel, RawSpec, Section, SectionGate, SectionModel, Shape,
    SpecModel,
};

verus! {

#[verifier::opaque]
pub open spec fn cpu_model() -> SpecModel {
    SpecModel {
        id: ActivityId::CPU,
        name: "A_CPU",
        desc: "CPU utilization",
        json_key: "cpu-load",
        xml_elem: "cpu-load",
        xml_child: "cpu",
        xml_wrapper_attrs: " per=\"second\"",
        group: Group::Ungrouped,
        closes_group: false,
        item: ItemKind::Cpu,
        shape: Shape::Array,
        merge_sections: false,
        sections: seq![
            SectionModel {
                gate: SectionGate::CpuDef,
                item_col: "",
                hdr_line: "CPU;%user;%nice;%system;%iowait;%steal;%idle",
                fields: cpu_def_fields(),
                jx_order: Seq::empty(),
                raw: RawModel::Fields(cpu_def_raw()),
            },
            SectionModel {
                gate: SectionGate::CpuAll,
                item_col: "",
                hdr_line: "CPU;%usr;%nice;%sys;%iowait;%steal;%irq;%soft;%guest;%gnice;%idle",
                fields: cpu_all_fields(),
                jx_order: Seq::empty(),
                raw: RawModel::Fields(cpu_all_raw()),
            },
        ],
    }
}

pub fn cpu_spec() -> (r: ActivitySpec)
    ensures
        r.model() == cpu_model(),
{
    reveal(cpu_model);
    let r = ActivitySpec {
        id: ActivityId::CPU,
        name: "A_CPU",
        desc: "CPU utilization",
        json_key: "cpu-load",
        xml_elem: "cpu-load",
        xml_child: "cpu",
        xml_wrapper_attrs: " per=\"second\"",
        group: Group::Ungrouped,
        closes_group: false,
        item: ItemKind::Cpu,
        shape: Shape::Array,
        merge_sections: false,
        sections: vec![
            Section {
                gate: SectionGate::CpuDef,
                item_col: "",
                hdr_line: "CPU;%user;%nice;%system;%iowait;%steal;%idle",
                fields: cpu_def_fields_list(),
                jx_order: Vec::new(),
                raw: RawSpec::Fields(cpu_def_raw_list()),
            },
            Section {
                gate: SectionGate::CpuAll,
                item_col: "",
                hdr_line: "CPU;%usr;%nice;%sys;%iowait;%steal;%irq;%soft;%guest;%gnice;%idle",
                fields: cpu_all_fields_list(),
                jx_order: Vec::new(),
                raw: RawSpec::Fields(cpu_all_raw_list()),
            },
        ],
    };
    assert(r.model().sections =~= cpu_model().sections);
    r
}

#[verifier::opaque]
pub open spec fn pcsw_model() -> SpecModel {
    SpecModel {
        id: ActivityId::PCSW,
        name: "A_PCSW",
        desc: "Task creation and switching activity",
        json_key: "process-and-context-switch",
        xml_elem: "process-and-context-switch",
        xml_child: "",
        xml_wrapper_attrs: " per=\"second\"",
        group: Group::Ungrouped,
        closes_group: false,
        item: ItemKind::Single,
        shape: Shape::Object,
        merge_sections: false,
        sections: seq![
            SectionModel {
                gate: SectionGate::Always,
                item_col: "",
                hdr_line: "proc/s;cswch/s",
                fields: pcsw_fields(),
                jx_order: Seq::empty(),
                raw: RawModel::AllPval,
            },
        ],
    }
}

pub fn pcsw_spec() -> (r: ActivitySpec)
    ensures
        r.model() == pcsw_model(),
{
    reveal(pcsw_model);
    let r = ActivitySpec {
        id: ActivityId::PCSW,
        name: "A_PCSW",
        desc: "Task creation and switching activity",
        json_key: "process-and-context-switch",
        xml_elem: "process-and-context-switch",
        xml_child: "",
        xml_wrapper_attrs: " per=\"second\"",
        group: Group::Ungrouped,
        closes_group: false,
        item: ItemKind::Single,
        shape: Shape::Object,
        merge_sections: false,
        sections: vec![
            Section {
                gate: SectionGate::Always,
                item_col: "",
                hdr_line: "proc/s;cswch/s",
                fields: pcsw_fields_list(),
                jx_order: Vec::new(),
                raw: RawSpec::AllPval,
            },
        ],
    };
    assert(r.model().sections =~= pcsw_model().sections);
    r
}

#[verifier::opaque]
pub open spec fn irq_model() -> SpecModel {
    SpecModel {
        id: ActivityId::IRQ,
        name: "A_IRQ",
        desc: "Interrupts statistics",
        json_key: "interrupts",
        xml_elem: "interrupts",
        xml_child: "irq",
        xml_wrapper_attrs: "",
        group: Group::Ungrouped,
        closes_group: false,
        item: ItemKind::Irq,
        shape: Shape::Custom,
        merge_sections: false,
        sections: seq![
            SectionModel {
                gate: SectionGate::Always,
                item_col: "",
                hdr_line: "INTR;CPU*",
                fields: Seq::empty(),
                jx_order: Seq::empty(),
                raw: RawModel::Fields(Seq::empty()),
            },
        ],
    }
}

pub fn irq_spec() -> (r: ActivitySpec)
    ensures
        r.model() == irq_model(),
{
    reveal(irq_model);
    let r = ActivitySpec {
        id: ActivityId::IRQ,
        name: "A_IRQ",
        desc: "Interrupts statistics",
        json_key: "interrupts",
        xml_elem: "interrupts",
        xml_child: "irq",
        xml_wrapper_attrs: "",
        group: Group::Ungrouped,
        closes_group: false,
        item: ItemKind::Irq,
        shape: Shape::Custom,
        merge_sections: false,
        sections: vec![
            Section {
                gate: SectionGate::Always,
                item_col: "",
                hdr_line: "INTR;CPU*",
                fields: Vec::new(),
                jx_order: Vec::new(),
                raw: RawSpec::Fields(Vec::new()),
            },
        ],
    };
    assert(r.model().sections =~= irq_model().sections);
    r
}

#[verifier::opaque]
pub open spec fn swap_model() -> SpecModel {
    SpecModel {
        id: ActivityId::SWAP,
        name: "A_SWAP",
        desc: "Swap activity",
        json_key: "swap-pages",
        xml_elem: "swap-pages",
        xml_child: "",
        xml_wrapper_attrs: " per=\"second\"",
        group: Group::Ungrouped,
        closes_group: false,
        item: ItemKind::Single,
        shape: Shape::Object,
        merge_sections: false,
        sections: seq![
            SectionModel {
                gate: SectionGate::Always,
                item_col: "",
                hdr_line: "pswpin/s;pswpout/s",
                fields: swap_fields(),
                jx_order: Seq::empty(),
                raw: RawModel::AllPval,
            },
        ],
    }
}

pub fn swap_spec() -> (r: ActivitySpec)
    ensures
        r.model() == swap_model(),
{
    reveal(swap_model);
    let r = ActivitySpec {
        id: ActivityId::SWAP,
        name: "A_SWAP",
        desc: "Swap activity",
        json_key: "swap-pages",
        xml_elem: "swap-pages",
        xml_child: "",
        xml_wrapper_attrs: " per=\"second\"",
        group: Group::Ungrouped,
        closes_group: false,
        item: ItemKind::Single,
        shape: Shape::Object,
        merge_sections: false,
        sections: vec![
            Section {
                gate: SectionGate::Always,
                item_col: "",
                hdr_line: "pswpin/s;pswpout/s",
                fields: swap_fields_list(),
                jx_order: Vec::new(),
                raw: RawSpec::AllPval,
            },
        ],
    };
    assert(r.model().sections =~= swap_model().sections);
    r
}

#[verifier::opaque]
pub open spec fn page_model() -> SpecModel {
    SpecModel {
        id: ActivityId::PAGE,
        name: "A_PAGE",
        desc: "Paging activity",
        json_key: "paging",
        xml_elem: "paging",
        xml_child: "",
        xml_wrapper_attrs: " per=\"second\"",
        group: Group::Ungrouped,
        closes_group: false,
        item: ItemKind::Single,
        shape: Shape::Object,
        merge_sections: false,
        sections: seq![
            SectionModel {
                gate: SectionGate::Always,
                item_col: "",
                hdr_line: "pgpgin/s;pgpgout/s;fault/s;majflt/s;pgfree/s;pgscank/s;pgscand/s;pgsteal/s;pgprom/s;pgdem/s",
                fields: page_fields(),
                jx_order: Seq::empty(),
                raw: RawModel::AllPval,
            },
        ],
    }
}

pub fn page_spec() -> (r: ActivitySpec)
    ensures
        r.model() == page_model(),
{
    reveal(page_model);
    let r = ActivitySpec {
        id: ActivityId::PAGE,
        name: "A_PAGE",
        desc: "Paging activity",
        json_key: "paging",
        xml_elem: "paging",
        xml_child: "",
        xml_wrapper_attrs: " per=\"second\"",
        group: Group::Ungrouped,
        closes_group: false,
        item: ItemKind::Single,
        shape: Shape::Object,
        merge_sections: false,
        sections: vec![
            Section {
                gate: SectionGate::Always,
                item_col: "",
                hdr_line: "pgpgin/s;pgpgout/s;fault/s;majflt/s;pgfree/s;pgscank/s;pgscand/s;pgsteal/s;pgprom/s;pgdem/s",
                fields: page_fields_list(),
                jx_order: Vec::new(),
                raw: RawSpec::AllPval,
            },
        ],
    };
    assert(r.model().sections =~= page_model().sections);
    r
}

#[verifier::opaque]
pub open spec fn io_model() -> SpecModel {
    SpecModel {
        id: ActivityId::IO,
        name: "A_IO",
        desc: "I/O and transfer rate statistics",
        json_key: "io",
        xml_elem: "io",
        xml_child: "",
        xml_wrapper_attrs: " per=\"second\"",
        group: Group::Ungrouped,
        closes_group: false,
        item: ItemKind::Single,
        shape: Shape::Custom,
        merge_sections: false,
        sections: seq![
            SectionModel {
                gate: SectionGate::Always,
                item_col: "",
                hdr_line: "tps;rtps;wtps;dtps;bread/s;bwrtn/s;bdscd/s",
                fields: io_fields(),
                jx_order: Seq::empty(),
                raw: RawModel::AllPval,
            },
        ],
    }
}

pub fn io_spec() -> (r: ActivitySpec)
    ensures
        r.model() == io_model(),
{
    reveal(io_model);
    let r = ActivitySpec {
        id: ActivityId::IO,
        name: "A_IO",
        desc: "I/O and transfer rate statistics",
        json_key: "io",
        xml_elem: "io",
        xml_child: "",
        xml_wrapper_attrs: " per=\"second\"",
        group: Group::Ungrouped,
        closes_group: false,
        item: ItemKind::Single,
        shape: Shape::Custom,
        merge_sections: false,
        sections: vec![
            Section {
                gate: SectionGate::Always,
                item_col: "",
                hdr_line: "tps;rtps;wtps;dtps;bread/s;bwrtn/s;bdscd/s",
                fields: io_fields_list(),
                jx_order: Vec::new(),
                raw: RawSpec::AllPval,
            },
        ],
    };
    assert(r.model().sections =~= io_model().sections);
    r
}

#[verifier::opaque]
pub open spec fn memory_model() -> SpecModel {
    SpecModel {
        id: ActivityId::MEMORY,
        name: "A_MEMORY",
        desc: "Memory and/or swap utilization",
        json_key: "memory",
        xml_elem: "memory",
        xml_child: "",
        xml_wrapper_attrs: " unit=\"kB\"",
        group: Group::Ungrouped,
        closes_group: false,
        item: ItemKind::Single,
        shape: Shape::TextChildren,
        merge_sections: true,
        sections: seq![
            SectionModel {
                gate: SectionGate::Memory,
                item_col: "",
                hdr_line: "kbmemfree;kbavail;kbmemused;%memused;kbbuffers;kbcached;kbcommit;%commit;kbactive;kbinact;kbdirty;kbshmem&kbanonpg;kbslab;kbkstack;kbpgtbl;kbvmused",
                fields: memory_fields(),
                jx_order: Seq::empty(),
                raw: RawModel::Fields(memory_raw()),
            },
            SectionModel {
                gate: SectionGate::Swap,
                item_col: "",
                hdr_line: "kbswpfree;kbswpused;%swpused;kbswpcad;%swpcad",
                fields: swap_mem_fields(),
                jx_order: Seq::empty(),
                raw: RawModel::Fields(swap_mem_raw()),
            },
        ],
    }
}

pub fn memory_spec() -> (r: ActivitySpec)
    ensures
        r.model() == memory_model(),
{
    reveal(memory_model);
    let r = ActivitySpec {
        id: ActivityId::MEMORY,
        name: "A_MEMORY",
        desc: "Memory and/or swap utilization",
        json_key: "memory",
        xml_elem: "memory",
        xml_child: "",
        xml_wrapper_attrs: " unit=\"kB\"",
        group: Group::Ungrouped,
        closes_group: false,
        item: ItemKind::Single,
        shape: Shape::TextChildren,
        merge_sections: true,
        sections: vec![
            Section {
                gate: SectionGate::Memory,
                item_col: "",
                hdr_line: "kbmemfree;kbavail;kbmemused;%memused;kbbuffers;kbcached;kbcommit;%commit;kbactive;kbinact;kbdirty;kbshmem&kbanonpg;kbslab;kbkstack;kbpgtbl;kbvmused",
                fields: memory_fields_list(),
                jx_order: Vec::new(),
                raw: RawSpec::Fields(memory_raw_list()),
            },
            Section {
                gate: SectionGate::Swap,
                item_col: "",
                hdr_line: "kbswpfree;kbswpused;%swpused;kbswpcad;%swpcad",
                fields: swap_mem_fields_list(),
                jx_order: Vec::new(),
                raw: RawSpec::Fields(swap_mem_raw_list()),
            },
        ],
    };
    assert(r.model().sections =~= memory_model().sections);
    r
}

#[verifier::opaque]
pub open spec fn huge_model() -> SpecModel {
    SpecModel {
        id: ActivityId::HUGE,
        name: "A_HUGE",
        desc: "Huge pages utilization",
        json_key: "hugepages",
        xml_elem: "hugepages",
        xml_child: "",
        xml_wrapper_attrs: " unit=\"kB\"",
        group: Group::Ungrouped,
        closes_group: false,
        item: ItemKind::Single,
        shape: Shape::TextChildren,
        merge_sections: false,
        sections: seq![
            SectionModel {
                gate: SectionGate::Always,
                item_col: "",
                hdr_line: "kbhugfree;kbhugused;%hugused;kbhugrsvd;kbhugsurp",
                fields: huge_fields(),
                jx_order: Seq::empty(),
                raw: RawModel::Fields(huge_raw()),
            },
        ],
    }
}

pub fn huge_spec() -> (r: ActivitySpec)
    ensures
        r.model() == huge_model(),
{
    reveal(huge_model);
    let r = ActivitySpec {
        id: ActivityId::HUGE,
        name: "A_HUGE",
        desc: "Huge pages utilization",
        json_key: "hugepages",
        xml_elem: "hugepages",
        xml_child: "",
        xml_wrapper_attrs: " unit=\"kB\"",
        group: Group::Ungrouped,
        closes_group: false,
        item: ItemKind::Single,
        shape: Shape::TextChildren,
        merge_sections: false,
        sections: vec![
            Section {
                gate: SectionGate::Always,
                item_col: "",
                hdr_line: "kbhugfree;kbhugused;%hugused;kbhugrsvd;kbhugsurp",
                fields: huge_fields_list(),
                jx_order: Vec::new(),
                raw: RawSpec::Fields(huge_raw_list()),
            },
        ],
    };
    assert(r.model().sections =~= huge_model().sections);
    r
}

#[verifier::opaque]
pub open spec fn ktables_model() -> SpecModel {
    SpecModel {
        id: ActivityId::KTABLES,
        name: "A_KTABLES",
        desc: "Kernel tables statistics",
        json_key: "kernel",
        xml_elem: "kernel",
        xml_child: "",
        xml_wrapper_attrs: "",
        group: Group::Ungrouped,
        closes_group: false,
        item: ItemKind::Single,
        shape: Shape::Object,
        merge_sections: false,
        sections: seq![
            SectionModel {
                gate: SectionGate::Always,
                item_col: "",
                hdr_line: "dentunusd;file-nr;inode-nr;pty-nr",
                fields: ktables_fields(),
                jx_order: Seq::empty(),
                raw: RawModel::Fields(ktables_raw()),
            },
        ],
    }
}

pub fn ktables_spec() -> (r: ActivitySpec)
    ensures
        r.model() == ktables_model(),
{
    reveal(ktables_model);
    let r = ActivitySpec {
        id: ActivityId::KTABLES,
        name: "A_KTABLES",
        desc: "Kernel tables statistics",
        json_key: "kernel",
        xml_elem: "kernel",
        xml_child: "",
        xml_wrapper_attrs: "",
        group: Group::Ungrouped,
        closes_group: false,
        item: ItemKind::Single,
        shape: Shape::Object,
        merge_sections: false,
        sections: vec![
            Section {
                gate: SectionGate::Always,
                item_col: "",
                hdr_line: "dentunusd;file-nr;inode-nr;pty-nr",
                fields: ktables_fields_list(),
                jx_order: Vec::new(),
                raw: RawSpec::Fields(ktables_raw_list()),
            },
        ],
    };
    assert(r.model().sections =~= ktables_model().sections);
    r
}

#[verifier::opaque]
pub open spec fn queue_model() -> SpecModel {
    SpecModel {
        id: ActivityId::QUEUE,
        name: "A_QUEUE",
        desc: "Queue length and load average statistics",
        json_key: "queue",
        xml_elem: "queue",
        xml_child: "",
        xml_wrapper_attrs: "",
        group: Group::Ungrouped,
        closes_group: false,
        item: ItemKind::Single,
        shape: Shape::Object,
        merge_sections: false,
        sections: seq![
            SectionModel {
                gate: SectionGate::Always,
                item_col: "",
                hdr_line: "runq-sz;plist-sz;ldavg-1;ldavg-5;ldavg-15;blocked",
                fields: queue_fields(),
                jx_order: Seq::empty(),
                raw: RawModel::Fields(queue_raw()),
            },
        ],
    }
}

pub fn queue_spec() -> (r: ActivitySpec)
    ensures
        r.model() == queue_model(),
{
    reveal(queue_model);
    let r = ActivitySpec {
        id: ActivityId::QUEUE,
        name: "A_QUEUE",
        desc: "Queue length and load average statistics",
        json_key: "queue",
        xml_elem: "queue",
        xml_child: "",
        xml_wrapper_attrs: "",
        group: Group::Ungrouped,
        closes_group: false,
        item: ItemKind::Single,
        shape: Shape::Object,
        merge_sections: false,
        sections: vec![
            Section {
                gate: SectionGate::Always,
                item_col: "",
                hdr_line: "runq-sz;plist-sz;ldavg-1;ldavg-5;ldavg-15;blocked",
                fields: queue_fields_list(),
                jx_order: Vec::new(),
                raw: RawSpec::Fields(queue_raw_list()),
            },
        ],
    };
    assert(r.model().sections =~= queue_model().sections);
    r
}

#[verifier::opaque]
pub open spec fn serial_model() -> SpecModel {
    SpecModel {
        id: ActivityId::SERIAL,
        name: "A_SERIAL",
        desc: "TTY devices statistics",
        json_key: "serial",
        xml_elem: "serial",
        xml_child: "tty",
        xml_wrapper_attrs: " per=\"second\"",
        group: Group::Ungrouped,
        closes_group: false,
        item: ItemKind::Column { col: "line", prefix: "ttyS" },
        shape: Shape::Array,
        merge_sections: false,
        sections: seq![
            SectionModel {
                gate: SectionGate::Always,
                item_col: "",
                hdr_line: "TTY;rcvin/s;xmtin/s;framerr/s;prtyerr/s;brk/s;ovrun/s",
                fields: serial_fields(),
                jx_order: Seq::empty(),
                raw: RawModel::Fields(serial_raw()),
            },
        ],
    }
}

pub fn serial_spec() -> (r: ActivitySpec)
    ensures
        r.model() == serial_model(),
{
    reveal(serial_model);
    let r = ActivitySpec {
        id: ActivityId::SERIAL,
        name: "A_SERIAL",
        desc: "TTY devices statistics",
        json_key: "serial",
        xml_elem: "serial",
        xml_child: "tty",
        xml_wrapper_attrs: " per=\"second\"",
        group: Group::Ungrouped,
        closes_group: false,
        item: ItemKind::Column { col: "line", prefix: "ttyS" },
        shape: Shape::Array,
        merge_sections: false,
        sections: vec![
            Section {
                gate: SectionGate::Always,
                item_col: "",
                hdr_line: "TTY;rcvin/s;xmtin/s;framerr/s;prtyerr/s;brk/s;ovrun/s",
                fields: serial_fields_list(),
                jx_order: Vec::new(),
                raw: RawSpec::Fields(serial_raw_list()),
            },
        ],
    };
    assert(r.model().sections =~= serial_model().sections);
    r
}

#[verifier::opaque]
pub open spec fn disk_model() -> SpecModel {
    SpecModel {
        id: ActivityId::DISK,
        name: "A_DISK",
        desc: "Block devices statistics",
        json_key: "disk",
        xml_elem: "disk",
        xml_child: "disk-device",
        xml_wrapper_attrs: " per=\"second\"",
        group: Group::Ungrouped,
        closes_group: false,
        item: ItemKind::Disk,
        shape: Shape::Array,
        merge_sections: false,
        sections: seq![
            SectionModel {
                gate: SectionGate::Always,
                item_col: "",
                hdr_line: "DEV;tps;rkB/s;wkB/s;dkB/s;areq-sz;aqu-sz;await;%util",
                fields: disk_fields(),
                jx_order: Seq::empty(),
                raw: RawModel::Fields(disk_raw()),
            },
        ],
    }
}

pub fn disk_spec() -> (r: ActivitySpec)
    ensures
        r.model() == disk_model(),
{
    reveal(disk_model);
    let r = ActivitySpec {
        id: ActivityId::DISK,
        name: "A_DISK",
        desc: "Block devices statistics",
        json_key: "disk",
        xml_elem: "disk",
        xml_child: "disk-device",
        xml_wrapper_attrs: " per=\"second\"",
        group: Group::Ungrouped,
        closes_group: false,
        item: ItemKind::Disk,
        shape: Shape::Array,
        merge_sections: false,
        sections: vec![
            Section {
                gate: SectionGate::Always,
                item_col: "",
                hdr_line: "DEV;tps;rkB/s;wkB/s;dkB/s;areq-sz;aqu-sz;await;%util",
                fields: disk_fields_list(),
                jx_order: Vec::new(),
                raw: RawSpec::Fields(disk_raw_list()),
            },
        ],
    };
    assert(r.model().sections =~= disk_model().sections);
    r
}

#[verifier::opaque]
pub open spec fn net_dev_model() -> SpecModel {
    SpecModel {
        id: ActivityId::NET_DEV,
        name: "A_NET_DEV",
        desc: "Network interfaces statistics",
        json_key: "net-dev",
        xml_elem: "net-dev",
        xml_child: "net-dev",
        xml_wrapper_attrs: "",
        group: Group::Network,
        closes_group: false,
        item: ItemKind::Name,
        shape: Shape::Array,
        merge_sections: false,
        sections: seq![
            SectionModel {
                gate: SectionGate::Always,
                item_col: "",
                hdr_line: "IFACE;rxpck/s;txpck/s;rxkB/s;txkB/s;rxcmp/s;txcmp/s;rxmcst/s;%ifutil",
                fields: net_dev_fields(),
                jx_order: Seq::empty(),
                raw: RawModel::Fields(net_dev_raw()),
            },
        ],
    }
}

pub fn net_dev_spec() -> (r: ActivitySpec)
    ensures
        r.model() == net_dev_model(),
{
    reveal(net_dev_model);
    let r = ActivitySpec {
        id: ActivityId::NET_DEV,
        name: "A_NET_DEV",
        desc: "Network interfaces statistics",
        json_key: "net-dev",
        xml_elem: "net-dev",
        xml_child: "net-dev",
        xml_wrapper_attrs: "",
        group: Group::Network,
        closes_group: false,
        item: ItemKind::Name,
        shape: Shape::Array,
        merge_sections: false,
        sections: vec![
            Section {
                gate: SectionGate::Always,
                item_col: "",
                hdr_line: "IFACE;rxpck/s;txpck/s;rxkB/s;txkB/s;rxcmp/s;txcmp/s;rxmcst/s;%ifutil",
                fields: net_dev_fields_list(),
                jx_order: Vec::new(),
                raw: RawSpec::Fields(net_dev_raw_list()),
            },
        ],
    };
    assert(r.model().sections =~= net_dev_model().sections);
    r
}

#[verifier::opaque]
pub open spec fn net_edev_model() -> SpecModel {
    SpecModel {
        id: ActivityId::NET_EDEV,
        name: "A_NET_EDEV",
        desc: "Network interfaces errors statistics",
        json_key: "net-edev",
        xml_elem: "net-edev",
        xml_child: "net-edev",
        xml_wrapper_attrs: "",
        group: Group::Network,
        closes_group: false,
        item: ItemKind::Name,
        shape: Shape::Array,
        merge_sections: false,
        sections: seq![
            SectionModel {
                gate: SectionGate::Always,
                item_col: "",
                hdr_line: "IFACE;rxerr/s;txerr/s;coll/s;rxdrop/s;txdrop/s;txcarr/s;rxfram/s;rxfifo/s;txfifo/s",
                fields: net_edev_fields(),
                jx_order: Seq::empty(),
                raw: RawModel::AllPval,
            },
        ],
    }
}

pub fn net_edev_spec() -> (r: ActivitySpec)
    ensures
        r.model() == net_edev_model(),
{
    reveal(net_edev_model);
    let r = ActivitySpec {
        id: ActivityId::NET_EDEV,
        name: "A_NET_EDEV",
        desc: "Network interfaces errors statistics",
        json_key: "net-edev",
        xml_elem: "net-edev",
        xml_child: "net-edev",
        xml_wrapper_attrs: "",
        group: Group::Network,
        closes_group: false,
        item: ItemKind::Name,
        shape: Shape::Array,
        merge_sections: false,
        sections: vec![
            Section {
                gate: SectionGate::Always,
                item_col: "",
                hdr_line: "IFACE;rxerr/s;txerr/s;coll/s;rxdrop/s;txdrop/s;txcarr/s;rxfram/s;rxfifo/s;txfifo/s",
                fields: net_edev_fields_list(),
                jx_order: Vec::new(),
                raw: RawSpec::AllPval,
            },
        ],
    };
    assert(r.model().sections =~= net_edev_model().sections);
    r
}

#[verifier::opaque]
pub open spec fn net_nfs_model() -> SpecModel {
    SpecModel {
        id: ActivityId::NET_NFS,
        name: "A_NET_NFS",
        desc: "NFS client statistics",
        json_key: "net-nfs",
        xml_elem: "net-nfs",
        xml_child: "",
        xml_wrapper_attrs: "",
        group: Group::Network,
        closes_group: false,
        item: ItemKind::Single,
        shape: Shape::Object,
        merge_sections: false,
        sections: seq![
            SectionModel {
                gate: SectionGate::Always,
                item_col: "",
                hdr_line: "call/s;retrans/s;read/s;write/s;access/s;getatt/s",
                fields: net_nfs_fields(),
                jx_order: Seq::empty(),
                raw: RawModel::AllPval,
            },
        ],
    }
}

pub fn net_nfs_spec() -> (r: ActivitySpec)
    ensures
        r.model() == net_nfs_model(),
{
    reveal(net_nfs_model);
    let r = ActivitySpec {
        id: ActivityId::NET_NFS,
        name: "A_NET_NFS",
        desc: "NFS client statistics",
        json_key: "net-nfs",
        xml_elem: "net-nfs",
        xml_child: "",
        xml_wrapper_attrs: "",
        group: Group::Network,
        closes_group: false,
        item: ItemKind::Single,
        shape: Shape::Object,
        merge_sections: false,
        sections: vec![
            Section {
                gate: SectionGate::Always,
                item_col: "",
                hdr_line: "call/s;retrans/s;read/s;write/s;access/s;getatt/s",
                fields: net_nfs_fields_list(),
                jx_order: Vec::new(),
                raw: RawSpec::AllPval,
            },
        ],
    };
    assert(r.model().sections =~= net_nfs_model().sections);
    r
}

#[verifier::opaque]
pub open spec fn net_nfsd_model() -> SpecModel {
    SpecModel {
        id: ActivityId::NET_NFSD,
        name: "A_NET_NFSD",
        desc: "NFS server statistics",
        json_key: "net-nfsd",
        xml_elem: "net-nfsd",
        xml_child: "",
        xml_wrapper_attrs: "",
        group: Group::Network,
        closes_group: false,
        item: ItemKind::Single,
        shape: Shape::Object,
        merge_sections: false,
        sections: seq![
            SectionModel {
                gate: SectionGate::Always,
                item_col: "",
                hdr_line: "scall/s;badcall/s;packet/s;udp/s;tcp/s;hit/s;miss/s;sread/s;swrite/s;saccess/s;sgetatt/s",
                fields: net_nfsd_fields(),
                jx_order: Seq::empty(),
                raw: RawModel::AllPval,
            },
        ],
    }
}

pub fn net_nfsd_spec() -> (r: ActivitySpec)
    ensures
        r.model() == net_nfsd_model(),
{
    reveal(net_nfsd_model);
    let r = ActivitySpec {
        id: ActivityId::NET_NFSD,
        name: "A_NET_NFSD",
        desc: "NFS server statistics",
        json_key: "net-nfsd",
        xml_elem: "net-nfsd",
        xml_child: "",
        xml_wrapper_attrs: "",
        group: Group::Network,
        closes_group: false,
        item: ItemKind::Single,
        shape: Shape::Object,
        merge_sections: false,
        sections: vec![
            Section {
                gate: SectionGate::Always,
                item_col: "",
                hdr_line: "scall/s;badcall/s;packet/s;udp/s;tcp/s;hit/s;miss/s;sread/s;swrite/s;saccess/s;sgetatt/s",
                fields: net_nfsd_fields_list(),
                jx_order: Vec::new(),
                raw: RawSpec::AllPval,
            },
        ],
    };
    assert(r.model().sections =~= net_nfsd_model().sections);
    r
}

#[verifier::opaque]
pub open spec fn net_sock_model() -> SpecModel {
    SpecModel {
        id: ActivityId::NET_SOCK,
        name: "A_NET_SOCK",
        desc: "IPv4 sockets statistics",
        json_key: "net-sock",
        xml_elem: "net-sock",
        xml_child: "",
        xml_wrapper_attrs: "",
        group: Group::Network,
        closes_group: false,
        item: ItemKind::Single,
        shape: Shape::Object,
        merge_sections: false,
        sections: seq![
            SectionModel {
                gate: SectionGate::Always,
                item_col: "",
                hdr_line: "totsck;tcpsck;udpsck;rawsck;ip-frag;tcp-tw",
                fields: net_sock_fields(),
                jx_order: Seq::empty(),
                raw: RawModel::Fields(net_sock_raw()),
            },
        ],
    }
}

pub fn net_sock_spec() -> (r: ActivitySpec)
    ensures
        r.model() == net_sock_model(),
{
    reveal(net_sock_model);
    let r = ActivitySpec {
        id: ActivityId::NET_SOCK,
        name: "A_NET_SOCK",
        desc: "IPv4 sockets statistics",
        json_key: "net-sock",
        xml_elem: "net-sock",
        xml_child: "",
        xml_wrapper_attrs: "",
        group: Group::Network,
        closes_group: false,
        item: ItemKind::Single,
        shape: Shape::Object,
        merge_sections: false,
        sections: vec![
            Section {
                gate: SectionGate::Always,
                item_col: "",
                hdr_line: "totsck;tcpsck;udpsck;rawsck;ip-frag;tcp-tw",
                fields: net_sock_fields_list(),
                jx_order: Vec::new(),
                raw: RawSpec::Fields(net_sock_raw_list()),
            },
        ],
    };
    assert(r.model().sections =~= net_sock_model().sections);
    r
}

#[verifier::opaque]
pub open spec fn net_ip_model() -> SpecModel {
    SpecModel {
        id: ActivityId::NET_IP,
        name: "A_NET_IP",
        desc: "IPv4 traffic statistics",
        json_key: "net-ip",
        xml_elem: "net-ip",
        xml_child: "",
        xml_wrapper_attrs: "",
        group: Group::Network,
        closes_group: false,
        item: ItemKind::Single,
        shape: Shape::Object,
        merge_sections: false,
        sections: seq![
            SectionModel {
                gate: SectionGate::Always,
                item_col: "",
                hdr_line: "irec/s;fwddgm/s;idel/s;orq/s;asmrq/s;asmok/s;fragok/s;fragcrt/s",
                fields: net_ip_fields(),
                jx_order: Seq::empty(),
                raw: RawModel::AllPval,
            },
        ],
    }
}

pub fn net_ip_spec() -> (r: ActivitySpec)
    ensures
        r.model() == net_ip_model(),
{
    reveal(net_ip_model);
    let r = ActivitySpec {
        id: ActivityId::NET_IP,
        name: "A_NET_IP",
        desc: "IPv4 traffic statistics",
        json_key: "net-ip",
        xml_elem: "net-ip",
        xml_child: "",
        xml_wrapper_attrs: "",
        group: Group::Network,
        closes_group: false,
        item: ItemKind::Single,
        shape: Shape::Object,
        merge_sections: false,
        sections: vec![
            Section {
                gate: SectionGate::Always,
                item_col: "",
                hdr_line: "irec/s;fwddgm/s;idel/s;orq/s;asmrq/s;asmok/s;fragok/s;fragcrt/s",
                fields: net_ip_fields_list(),
                jx_order: Vec::new(),
                raw: RawSpec::AllPval,
            },
        ],
    };
    assert(r.model().sections =~= net_ip_model().sections);
    r
}

#[verifier::opaque]
pub open spec fn net_eip_model() -> SpecModel {
    SpecModel {
        id: ActivityId::NET_EIP,
        name: "A_NET_EIP",
        desc: "IPv4 traffic errors statistics",
        json_key: "net-eip",
        xml_elem: "net-eip",
        xml_child: "",
        xml_wrapper_attrs: "",
        group: Group::Network,
        closes_group: false,
        item: ItemKind::Single,
        shape: Shape::Object,
        merge_sections: false,
        sections: seq![
            SectionModel {
                gate: SectionGate::Always,
                item_col: "",
                hdr_line: "ihdrerr/s;iadrerr/s;iukwnpr/s;idisc/s;odisc/s;onort/s;asmf/s;fragf/s",
                fields: net_eip_fields(),
                jx_order: Seq::empty(),
                raw: RawModel::AllPval,
            },
        ],
    }
}

pub fn net_eip_spec() -> (r: ActivitySpec)
    ensures
        r.model() == net_eip_model(),
{
    reveal(net_eip_model);
    let r = ActivitySpec {
        id: ActivityId::NET_EIP,
        name: "A_NET_EIP",
        desc: "IPv4 traffic errors statistics",
        json_key: "net-eip",
        xml_elem: "net-eip",
        xml_child: "",
        xml_wrapper_attrs: "",
        group: Group::Network,
        closes_group: false,
        item: ItemKind::Single,
        shape: Shape::Object,
        merge_sections: false,
        sections: vec![
            Section {
                gate: SectionGate::Always,
                item_col: "",
                hdr_line: "ihdrerr/s;iadrerr/s;iukwnpr/s;idisc/s;odisc/s;onort/s;asmf/s;fragf/s",
                fields: net_eip_fields_list(),
                jx_order: Vec::new(),
                raw: RawSpec::AllPval,
            },
        ],
    };
    assert(r.model().sections =~= net_eip_model().sections);
    r
}

#[verifier::opaque]
pub open spec fn net_icmp_model() -> SpecModel {
    SpecModel {
        id: ActivityId::NET_ICMP,
        name: "A_NET_ICMP",
        desc: "ICMPv4 traffic statistics",
        json_key: "net-icmp",
        xml_elem: "net-icmp",
        xml_child: "",
        xml_wrapper_attrs: "",
        group: Group::Network,
        closes_group: false,
        item: ItemKind::Single,
        shape: Shape::Object,
        merge_sections: false,
        sections: seq![
            SectionModel {
                gate: SectionGate::Always,
                item_col: "",
                hdr_line: "imsg/s;omsg/s;iech/s;iechr/s;oech/s;oechr/s;itm/s;itmr/s;otm/s;otmr/s;iadrmk/s;iadrmkr/s;oadrmk/s;oadrmkr/s",
                fields: net_icmp_fields(),
                jx_order: Seq::empty(),
                raw: RawModel::AllPval,
            },
        ],
    }
}

pub fn net_icmp_spec() -> (r: ActivitySpec)
    ensures
        r.model() == net_icmp_model(),
{
    reveal(net_icmp_model);
    let r = ActivitySpec {
        id: ActivityId::NET_ICMP,
        name: "A_NET_ICMP",
        desc: "ICMPv4 traffic statistics",
        json_key: "net-icmp",
        xml_elem: "net-icmp",
        xml_child: "",
        xml_wrapper_attrs: "",
        group: Group::Network,
        closes_group: false,
        item: ItemKind::Single,
        shape: Shape::Object,
        merge_sections: false,
        sections: vec![
            Section {
                gate: SectionGate::Always,
                item_col: "",
                hdr_line: "imsg/s;omsg/s;iech/s;iechr/s;oech/s;oechr/s;itm/s;itmr/s;otm/s;otmr/s;iadrmk/s;iadrmkr/s;oadrmk/s;oadrmkr/s",
                fields: net_icmp_fields_list(),
                jx_order: Vec::new(),
                raw: RawSpec::AllPval,
            },
        ],
    };
    assert(r.model().sections =~= net_icmp_model().sections);
    r
}

#[verifier::opaque]
pub open spec fn net_eicmp_model() -> SpecModel {
    SpecModel {
        id: ActivityId::NET_EICMP,
        name: "A_NET_EICMP",
        desc: "ICMPv4 traffic errors statistics",
        json_key: "net-eicmp",
        xml_elem: "net-eicmp",
        xml_child: "",
        xml_wrapper_attrs: "",
        group: Group::Network,
        closes_group: false,
        item: ItemKind::Single,
        shape: Shape::Object,
        merge_sections: false,
        sections: seq![
            SectionModel {
                gate: SectionGate::Always,
                item_col: "",
                hdr_line: "ierr/s;oerr/s;idstunr/s;odstunr/s;itmex/s;otmex/s;iparmpb/s;oparmpb/s;isrcq/s;osrcq/s;iredir/s;oredir/s",
                fields: net_eicmp_fields(),
                jx_order: Seq::empty(),
                raw: RawModel::AllPval,
            },
        ],
    }
}

pub fn net_eicmp_spec() -> (r: ActivitySpec)
    ensures
        r.model() == net_eicmp_model(),
{
    reveal(net_eicmp_model);
    let r = ActivitySpec {
        id: ActivityId::NET_EICMP,
        name: "A_NET_EICMP",
        desc: "ICMPv4 traffic errors statistics",
        json_key: "net-eicmp",
        xml_elem: "net-eicmp",
        xml_child: "",
        xml_wrapper_attrs: "",
        group: Group::Network,
        closes_group: false,
        item: ItemKind::Single,
        shape: Shape::Object,
        merge_sections: false,
        sections: vec![
            Section {
                gate: SectionGate::Always,
                item_col: "",
                hdr_line: "ierr/s;oerr/s;idstunr/s;odstunr/s;itmex/s;otmex/s;iparmpb/s;oparmpb/s;isrcq/s;osrcq/s;iredir/s;oredir/s",
                fields: net_eicmp_fields_list(),
                jx_order: Vec::new(),
                raw: RawSpec::AllPval,
            },
        ],
    };
    assert(r.model().sections =~= net_eicmp_model().sections);
    r
}

#[verifier::opaque]
pub open spec fn net_tcp_model() -> SpecModel {
    SpecModel {
        id: ActivityId::NET_TCP,
        name: "A_NET_TCP",
        desc: "TCPv4 traffic statistics",
        json_key: "net-tcp",
        xml_elem: "net-tcp",
        xml_child: "",
        xml_wrapper_attrs: "",
        group: Group::Network,
        closes_group: false,
        item: ItemKind::Single,
        shape: Shape::Object,
        merge_sections: false,
        sections: seq![
            SectionModel {
                gate: SectionGate::Always,
                item_col: "",
                hdr_line: "active/s;passive/s;iseg/s;oseg/s",
                fields: net_tcp_fields(),
                jx_order: Seq::empty(),
                raw: RawModel::AllPval,
            },
        ],
    }
}

pub fn net_tcp_spec() -> (r: ActivitySpec)
    ensures
        r.model() == net_tcp_model(),
{
    reveal(net_tcp_model);
    let r = ActivitySpec {
        id: ActivityId::NET_TCP,
        name: "A_NET_TCP",
        desc: "TCPv4 traffic statistics",
        json_key: "net-tcp",
        xml_elem: "net-tcp",
        xml_child: "",
        xml_wrapper_attrs: "",
        group: Group::Network,
        closes_group: false,
        item: ItemKind::Single,
        shape: Shape::Object,
        merge_sections: false,
        sections: vec![
            Section {
                gate: SectionGate::Always,
                item_col: "",
                hdr_line: "active/s;passive/s;iseg/s;oseg/s",
                fields: net_tcp_fields_list(),
                jx_order: Vec::new(),
                raw: RawSpec::AllPval,
            },
        ],
    };
    assert(r.model().sections =~= net_tcp_model().sections);
    r
}

#[verifier::opaque]
pub open spec fn net_etcp_model() -> SpecModel {
    SpecModel {
        id: ActivityId::NET_ETCP,
        name: "A_NET_ETCP",
        desc: "TCPv4 traffic errors statistics",
        json_key: "net-etcp",
        xml_elem: "net-etcp",
        xml_child: "",
        xml_wrapper_attrs: "",
        group: Group::Network,
        closes_group: false,
        item: ItemKind::Single,
        shape: Shape::Object,
        merge_sections: false,
        sections: seq![
            SectionModel {
                gate: SectionGate::Always,
                item_col: "",
                hdr_line: "atmptf/s;estres/s;retrseg/s;isegerr/s;orsts/s",
                fields: net_etcp_fields(),
                jx_order: Seq::empty(),
                raw: RawModel::AllPval,
            },
        ],
    }
}

pub fn net_etcp_spec() -> (r: ActivitySpec)
    ensures
        r.model() == net_etcp_model(),
{
    reveal(net_etcp_model);
    let r = ActivitySpec {
        id: ActivityId::NET_ETCP,
        name: "A_NET_ETCP",
        desc: "TCPv4 traffic errors statistics",
        json_key: "net-etcp",
        xml_elem: "net-etcp",
        xml_child: "",
        xml_wrapper_attrs: "",
        group: Group::Network,
        closes_group: false,
        item: ItemKind::Single,
        shape: Shape::Object,
        merge_sections: false,
        sections: vec![
            Section {
                gate: SectionGate::Always,
                item_col: "",
                hdr_line: "atmptf/s;estres/s;retrseg/s;isegerr/s;orsts/s",
                fields: net_etcp_fields_list(),
                jx_order: Vec::new(),
                raw: RawSpec::AllPval,
            },
        ],
    };
    assert(r.model().sections =~= net_etcp_model().sections);
    r
}

#[verifier::opaque]
pub open spec fn net_udp_model() -> SpecModel {
    SpecModel {
        id: ActivityId::NET_UDP,
        name: "A_NET_UDP",
        desc: "UDPv4 traffic statistics",
        json_key: "net-udp",
        xml_elem: "net-udp",
        xml_child: "",
        xml_wrapper_attrs: "",
        group: Group::Network,
        closes_group: false,
        item: ItemKind::Single,
        shape: Shape::Object,
        merge_sections: false,
        sections: seq![
            SectionModel {
                gate: SectionGate::Always,
                item_col: "",
                hdr_line: "idgm/s;odgm/s;noport/s;idgmerr/s",
                fields: net_udp_fields(),
                jx_order: Seq::empty(),
                raw: RawModel::AllPval,
            },
        ],
    }
}

pub fn net_udp_spec() -> (r: ActivitySpec)
    ensures
        r.model() == net_udp_model(),
{
    reveal(net_udp_model);
    let r = ActivitySpec {
        id: ActivityId::NET_UDP,
        name: "A_NET_UDP",
        desc: "UDPv4 traffic statistics",
        json_key: "net-udp",
        xml_elem: "net-udp",
        xml_child: "",
        xml_wrapper_attrs: "",
        group: Group::Network,
        closes_group: false,
        item: ItemKind::Single,
        shape: Shape::Object,
        merge_sections: false,
        sections: vec![
            Section {
                gate: SectionGate::Always,
                item_col: "",
                hdr_line: "idgm/s;odgm/s;noport/s;idgmerr/s",
                fields: net_udp_fields_list(),
                jx_order: Vec::new(),
                raw: RawSpec::AllPval,
            },
        ],
    };
    assert(r.model().sections =~= net_udp_model().sections);
    r
}

#[verifier::opaque]
pub open spec fn net_sock6_model() -> SpecModel {
    SpecModel {
        id: ActivityId::NET_SOCK6,
        name: "A_NET_SOCK6",
        desc: "IPv6 sockets statistics",
        json_key: "net-sock6",
        xml_elem: "net-sock6",
        xml_child: "",
        xml_wrapper_attrs: "",
        group: Group::Network,
        closes_group: false,
        item: ItemKind::Single,
        shape: Shape::Object,
        merge_sections: false,
        sections: seq![
            SectionModel {
                gate: SectionGate::Always,
                item_col: "",
                hdr_line: "tcp6sck;udp6sck;raw6sck;ip6-frag",
                fields: net_sock6_fields(),
                jx_order: Seq::empty(),
                raw: RawModel::Fields(net_sock6_raw()),
            },
        ],
    }
}

pub fn net_sock6_spec() -> (r: ActivitySpec)
    ensures
        r.model() == net_sock6_model(),
{
    reveal(net_sock6_model);
    let r = ActivitySpec {
        id: ActivityId::NET_SOCK6,
        name: "A_NET_SOCK6",
        desc: "IPv6 sockets statistics",
        json_key: "net-sock6",
        xml_elem: "net-sock6",
        xml_child: "",
        xml_wrapper_attrs: "",
        group: Group::Network,
        closes_group: false,
        item: ItemKind::Single,
        shape: Shape::Object,
        merge_sections: false,
        sections: vec![
            Section {
                gate: SectionGate::Always,
                item_col: "",
                hdr_line: "tcp6sck;udp6sck;raw6sck;ip6-frag",
                fields: net_sock6_fields_list(),
                jx_order: Vec::new(),
                raw: RawSpec::Fields(net_sock6_raw_list()),
            },
        ],
    };
    assert(r.model().sections =~= net_sock6_model().sections);
    r
}

#[verifier::opaque]
pub open spec fn net_ip6_model() -> SpecModel {
    SpecModel {
        id: ActivityId::NET_IP6,
        name: "A_NET_IP6",
        desc: "IPv6 traffic statistics",
        json_key: "net-ip6",
        xml_elem: "net-ip6",
        xml_child: "",
        xml_wrapper_attrs: "",
        group: Group::Network,
        closes_group: false,
        item: ItemKind::Single,
        shape: Shape::Object,
        merge_sections: false,
        sections: seq![
            SectionModel {
                gate: SectionGate::Always,
                item_col: "",
                hdr_line: "irec6/s;fwddgm6/s;idel6/s;orq6/s;asmrq6/s;asmok6/s;imcpck6/s;omcpck6/s;fragok6/s;fragcr6/s",
                fields: net_ip6_fields(),
                jx_order: Seq::empty(),
                raw: RawModel::AllPval,
            },
        ],
    }
}

pub fn net_ip6_spec() -> (r: ActivitySpec)
    ensures
        r.model() == net_ip6_model(),
{
    reveal(net_ip6_model);
    let r = ActivitySpec {
        id: ActivityId::NET_IP6,
        name: "A_NET_IP6",
        desc: "IPv6 traffic statistics",
        json_key: "net-ip6",
        xml_elem: "net-ip6",
        xml_child: "",
        xml_wrapper_attrs: "",
        group: Group::Network,
        closes_group: false,
        item: ItemKind::Single,
        shape: Shape::Object,
        merge_sections: false,
        sections: vec![
            Section {
                gate: SectionGate::Always,
                item_col: "",
                hdr_line: "irec6/s;fwddgm6/s;idel6/s;orq6/s;asmrq6/s;asmok6/s;imcpck6/s;omcpck6/s;fragok6/s;fragcr6/s",
                fields: net_ip6_fields_list(),
                jx_order: Vec::new(),
                raw: RawSpec::AllPval,
            },
        ],
    };
    assert(r.model().sections =~= net_ip6_model().sections);
    r
}

#[verifier::opaque]
pub open spec fn net_eip6_model() -> SpecModel {
    SpecModel {
        id: ActivityId::NET_EIP6,
        name: "A_NET_EIP6",
        desc: "IPv6 traffic errors statistics",
        json_key: "net-eip6",
        xml_elem: "net-eip6",
        xml_child: "",
        xml_wrapper_attrs: "",
        group: Group::Network,
        closes_group: false,
        item: ItemKind::Single,
        shape: Shape::Object,
        merge_sections: false,
        sections: seq![
            SectionModel {
                gate: SectionGate::Always,
                item_col: "",
                hdr_line: "ihdrer6/s;iadrer6/s;iukwnp6/s;i2big6/s;idisc6/s;odisc6/s;inort6/s;onort6/s;asmf6/s;fragf6/s;itrpck6/s",
                fields: net_eip6_fields(),
                jx_order: Seq::empty(),
                raw: RawModel::AllPval,
            },
        ],
    }
}

pub fn net_eip6_spec() -> (r: ActivitySpec)
    ensures
        r.model() == net_eip6_model(),
{
    reveal(net_eip6_model);
    let r = ActivitySpec {
        id: ActivityId::NET_EIP6,
        name: "A_NET_EIP6",
        desc: "IPv6 traffic errors statistics",
        json_key: "net-eip6",
        xml_elem: "net-eip6",
        xml_child: "",
        xml_wrapper_attrs: "",
        group: Group::Network,
        closes_group: false,
        item: ItemKind::Single,
        shape: Shape::Object,
        merge_sections: false,
        sections: vec![
            Section {
                gate: SectionGate::Always,
                item_col: "",
                hdr_line: "ihdrer6/s;iadrer6/s;iukwnp6/s;i2big6/s;idisc6/s;odisc6/s;inort6/s;onort6/s;asmf6/s;fragf6/s;itrpck6/s",
                fields: net_eip6_fields_list(),
                jx_order: Vec::new(),
                raw: RawSpec::AllPval,
            },
        ],
    };
    assert(r.model().sections =~= net_eip6_model().sections);
    r
}

#[verifier::opaque]
pub open spec fn net_icmp6_model() -> SpecModel {
    SpecModel {
        id: ActivityId::NET_ICMP6,
        name: "A_NET_ICMP6",
        desc: "ICMPv6 traffic statistics",
        json_key: "net-icmp6",
        xml_elem: "net-icmp6",
        xml_child: "",
        xml_wrapper_attrs: "",
        group: Group::Network,
        closes_group: false,
        item: ItemKind::Single,
        shape: Shape::Object,
        merge_sections: false,
        sections: seq![
            SectionModel {
                gate: SectionGate::Always,
                item_col: "",
                hdr_line: "imsg6/s;omsg6/s;iech6/s;iechr6/s;oechr6/s;igmbq6/s;igmbr6/s;ogmbr6/s;igmbrd6/s;ogmbrd6/s;irtsol6/s;ortsol6/s;irtad6/s;inbsol6/s;onbsol6/s;inbad6/s;onbad6/s",
                fields: net_icmp6_fields(),
                jx_order: Seq::empty(),
                raw: RawModel::AllPval,
            },
        ],
    }
}

pub fn net_icmp6_spec() -> (r: ActivitySpec)
    ensures
        r.model() == net_icmp6_model(),
{
    reveal(net_icmp6_model);
    let r = ActivitySpec {
        id: ActivityId::NET_ICMP6,
        name: "A_NET_ICMP6",
        desc: "ICMPv6 traffic statistics",
        json_key: "net-icmp6",
        xml_elem: "net-icmp6",
        xml_child: "",
        xml_wrapper_attrs: "",
        group: Group::Network,
        closes_group: false,
        item: ItemKind::Single,
        shape: Shape::Object,
        merge_sections: false,
        sections: vec![
            Section {
                gate: SectionGate::Always,
                item_col: "",
                hdr_line: "imsg6/s;omsg6/s;iech6/s;iechr6/s;oechr6/s;igmbq6/s;igmbr6/s;ogmbr6/s;igmbrd6/s;ogmbrd6/s;irtsol6/s;ortsol6/s;irtad6/s;inbsol6/s;onbsol6/s;inbad6/s;onbad6/s",
                fields: net_icmp6_fields_list(),
                jx_order: Vec::new(),
                raw: RawSpec::AllPval,
            },
        ],
    };
    assert(r.model().sections =~= net_icmp6_model().sections);
    r
}

#[verifier::opaque]
pub open spec fn net_eicmp6_model() -> SpecModel {
    SpecModel {
        id: ActivityId::NET_EICMP6,
        name: "A_NET_EICMP6",
        desc: "ICMPv6 traffic errors statistics",
        json_key: "net-eicmp6",
        xml_elem: "net-eicmp6",
        xml_child: "",
        xml_wrapper_attrs: "",
        group: Group::Network,
        closes_group: false,
        item: ItemKind::Single,
        shape: Shape::Object,
        merge_sections: false,
        sections: seq![
            SectionModel {
                gate: SectionGate::Always,
                item_col: "",
                hdr_line: "ierr6/s;idtunr6/s;odtunr6/s;itmex6/s;otmex6/s;iprmpb6/s;oprmpb6/s;iredir6/s;oredir6/s;ipck2b6/s;opck2b6/s",
                fields: net_eicmp6_fields(),
                jx_order: Seq::empty(),
                raw: RawModel::AllPval,
            },
        ],
    }
}

pub fn net_eicmp6_spec() -> (r: ActivitySpec)
    ensures
        r.model() == net_eicmp6_model(),
{
    reveal(net_eicmp6_model);
    let r = ActivitySpec {
        id: ActivityId::NET_EICMP6,
        name: "A_NET_EICMP6",
        desc: "ICMPv6 traffic errors statistics",
        json_key: "net-eicmp6",
        xml_elem: "net-eicmp6",
        xml_child: "",
        xml_wrapper_attrs: "",
        group: Group::Network,
        closes_group: false,
        item: ItemKind::Single,
        shape: Shape::Object,
        merge_sections: false,
        sections: vec![
            Section {
                gate: SectionGate::Always,
                item_col: "",
                hdr_line: "ierr6/s;idtunr6/s;odtunr6/s;itmex6/s;otmex6/s;iprmpb6/s;oprmpb6/s;iredir6/s;oredir6/s;ipck2b6/s;opck2b6/s",
                fields: net_eicmp6_fields_list(),
                jx_order: Vec::new(),
                raw: RawSpec::AllPval,
            },
        ],
    };
    assert(r.model().sections =~= net_eicmp6_model().sections);
    r
}

#[verifier::opaque]
pub open spec fn net_udp6_model() -> SpecModel {
    SpecModel {
        id: ActivityId::NET_UDP6,
        name: "A_NET_UDP6",
        desc: "UDPv6 traffic statistics",
        json_key: "net-udp6",
        xml_elem: "net-udp6",
        xml_child: "",
        xml_wrapper_attrs: "",
        group: Group::Network,
        closes_group: false,
        item: ItemKind::Single,
        shape: Shape::Object,
        merge_sections: false,
        sections: seq![
            SectionModel {
                gate: SectionGate::Always,
                item_col: "",
                hdr_line: "idgm6/s;odgm6/s;noport6/s;idgmer6/s",
                fields: net_udp6_fields(),
                jx_order: Seq::empty(),
                raw: RawModel::AllPval,
            },
        ],
    }
}

pub fn net_udp6_spec() -> (r: ActivitySpec)
    ensures
        r.model() == net_udp6_model(),
{
    reveal(net_udp6_model);
    let r = ActivitySpec {
        id: ActivityId::NET_UDP6,
        name: "A_NET_UDP6",
        desc: "UDPv6 traffic statistics",
        json_key: "net-udp6",
        xml_elem: "net-udp6",
        xml_child: "",
        xml_wrapper_attrs: "",
        group: Group::Network,
        closes_group: false,
        item: ItemKind::Single,
        shape: Shape::Object,
        merge_sections: false,
        sections: vec![
            Section {
                gate: SectionGate::Always,
                item_col: "",
                hdr_line: "idgm6/s;odgm6/s;noport6/s;idgmer6/s",
                fields: net_udp6_fields_list(),
                jx_order: Vec::new(),
                raw: RawSpec::AllPval,
            },
        ],
    };
    assert(r.model().sections =~= net_udp6_model().sections);
    r
}

#[verifier::opaque]
pub open spec fn net_fc_model() -> SpecModel {
    SpecModel {
        id: ActivityId::NET_FC,
        name: "A_NET_FC",
        desc: "Fibre Channel HBA statistics",
        json_key: "fchosts",
        xml_elem: "fchosts",
        xml_child: "fchost",
        xml_wrapper_attrs: "",
        group: Group::Network,
        closes_group: false,
        item: ItemKind::Name,
        shape: Shape::Array,
        merge_sections: false,
        sections: seq![
            SectionModel {
                gate: SectionGate::Always,
                item_col: "",
                hdr_line: "FCHOST;fch_rxf/s;fch_txf/s;fch_rxw/s;fch_txw/s",
                fields: net_fc_fields(),
                jx_order: Seq::empty(),
                raw: RawModel::AllPval,
            },
        ],
    }
}

pub fn net_fc_spec() -> (r: ActivitySpec)
    ensures
        r.model() == net_fc_model(),
{
    reveal(net_fc_model);
    let r = ActivitySpec {
        id: ActivityId::NET_FC,
        name: "A_NET_FC",
        desc: "Fibre Channel HBA statistics",
        json_key: "fchosts",
        xml_elem: "fchosts",
        xml_child: "fchost",
        xml_wrapper_attrs: "",
        group: Group::Network,
        closes_group: false,
        item: ItemKind::Name,
        shape: Shape::Array,
        merge_sections: false,
        sections: vec![
            Section {
                gate: SectionGate::Always,
                item_col: "",
                hdr_line: "FCHOST;fch_rxf/s;fch_txf/s;fch_rxw/s;fch_txw/s",
                fields: net_fc_fields_list(),
                jx_order: Vec::new(),
                raw: RawSpec::AllPval,
            },
        ],
    };
    assert(r.model().sections =~= net_fc_model().sections);
    r
}

#[verifier::opaque]
pub open spec fn net_soft_model() -> SpecModel {
    SpecModel {
        id: ActivityId::NET_SOFT,
        name: "A_NET_SOFT",
        desc: "Software-based network processing statistics",
        json_key: "softnet",
        xml_elem: "softnet",
        xml_child: "softnet",
        xml_wrapper_attrs: "",
        group: Group::Network,
        closes_group: true,
        item: ItemKind::Cpu,
        shape: Shape::Array,
        merge_sections: false,
        sections: seq![
            SectionModel {
                gate: SectionGate::Always,
                item_col: "",
                hdr_line: "CPU;total/s;dropd/s;squeezd/s;rx_rps/s;flw_lim/s;blg_len",
                fields: net_soft_fields(),
                jx_order: Seq::empty(),
                raw: RawModel::Fields(net_soft_raw()),
            },
        ],
    }
}

pub fn net_soft_spec() -> (r: ActivitySpec)
    ensures
        r.model() == net_soft_model(),
{
    reveal(net_soft_model);
    let r = ActivitySpec {
        id: ActivityId::NET_SOFT,
        name: "A_NET_SOFT",
        desc: "Software-based network processing statistics",
        json_key: "softnet",
        xml_elem: "softnet",
        xml_child: "softnet",
        xml_wrapper_attrs: "",
        group: Group::Network,
        closes_group: true,
        item: ItemKind::Cpu,
        shape: Shape::Array,
        merge_sections: false,
        sections: vec![
            Section {
                gate: SectionGate::Always,
                item_col: "",
                hdr_line: "CPU;total/s;dropd/s;squeezd/s;rx_rps/s;flw_lim/s;blg_len",
                fields: net_soft_fields_list(),
                jx_order: Vec::new(),
                raw: RawSpec::Fields(net_soft_raw_list()),
            },
        ],
    };
    assert(r.model().sections =~= net_soft_model().sections);
    r
}

#[verifier::opaque]
pub open spec fn pwr_cpu_model() -> SpecModel {
    SpecModel {
        id: ActivityId::PWR_CPU,
        name: "A_PWR_CPU",
        desc: "CPU clock frequency",
        json_key: "cpu-frequency",
        xml_elem: "cpu-frequency",
        xml_child: "cpufreq",
        xml_wrapper_attrs: " unit=\"MHz\"",
        group: Group::PowerManagement,
        closes_group: false,
        item: ItemKind::Cpu,
        shape: Shape::Array,
        merge_sections: false,
        sections: seq![
            SectionModel {
                gate: SectionGate::Always,
                item_col: "",
                hdr_line: "CPU;MHz",
                fields: pwr_cpu_fields(),
                jx_order: Seq::empty(),
                raw: RawModel::Fields(pwr_cpu_raw()),
            },
        ],
    }
}

pub fn pwr_cpu_spec() -> (r: ActivitySpec)
    ensures
        r.model() == pwr_cpu_model(),
{
    reveal(pwr_cpu_model);
    let r = ActivitySpec {
        id: ActivityId::PWR_CPU,
        name: "A_PWR_CPU",
        desc: "CPU clock frequency",
        json_key: "cpu-frequency",
        xml_elem: "cpu-frequency",
        xml_child: "cpufreq",
        xml_wrapper_attrs: " unit=\"MHz\"",
        group: Group::PowerManagement,
        closes_group: false,
        item: ItemKind::Cpu,
        shape: Shape::Array,
        merge_sections: false,
        sections: vec![
            Section {
                gate: SectionGate::Always,
                item_col: "",
                hdr_line: "CPU;MHz",
                fields: pwr_cpu_fields_list(),
                jx_order: Vec::new(),
                raw: RawSpec::Fields(pwr_cpu_raw_list()),
            },
        ],
    };
    assert(r.model().sections =~= pwr_cpu_model().sections);
    r
}

#[verifier::opaque]
pub open spec fn pwr_fan_model() -> SpecModel {
    SpecModel {
        id: ActivityId::PWR_FAN,
        name: "A_PWR_FAN",
        desc: "Fans speed",
        json_key: "fan-speed",
        xml_elem: "fan-speed",
        xml_child: "fan",
        xml_wrapper_attrs: " unit=\"rpm\"",
        group: Group::PowerManagement,
        closes_group: false,
        item: ItemKind::Index { prefix: "fan", base: 1 },
        shape: Shape::Array,
        merge_sections: false,
        sections: seq![
            SectionModel {
                gate: SectionGate::Always,
                item_col: "",
                hdr_line: "FAN;DEVICE;rpm;drpm",
                fields: pwr_fan_fields(),
                jx_order: sensor_order(),
                raw: RawModel::Fields(pwr_fan_raw()),
            },
        ],
    }
}

pub fn pwr_fan_spec() -> (r: ActivitySpec)
    ensures
        r.model() == pwr_fan_model(),
{
    reveal(pwr_fan_model);
    let r = ActivitySpec {
        id: ActivityId::PWR_FAN,
        name: "A_PWR_FAN",
        desc: "Fans speed",
        json_key: "fan-speed",
        xml_elem: "fan-speed",
        xml_child: "fan",
        xml_wrapper_attrs: " unit=\"rpm\"",
        group: Group::PowerManagement,
        closes_group: false,
        item: ItemKind::Index { prefix: "fan", base: 1 },
        shape: Shape::Array,
        merge_sections: false,
        sections: vec![
            Section {
                gate: SectionGate::Always,
                item_col: "",
                hdr_line: "FAN;DEVICE;rpm;drpm",
                fields: pwr_fan_fields_list(),
                jx_order: sensor_order_list(),
                raw: RawSpec::Fields(pwr_fan_raw_list()),
            },
        ],
    };
    assert(r.model().sections =~= pwr_fan_model().sections);
    r
}

#[verifier::opaque]
pub open spec fn pwr_temp_model() -> SpecModel {
    SpecModel {
        id: ActivityId::PWR_TEMP,
        name: "A_PWR_TEMP",
        desc: "Devices temperature",
        json_key: "temperature",
        xml_elem: "temperature",
        xml_child: "temp",
        xml_wrapper_attrs: " unit=\"degree Celsius\"",
        group: Group::PowerManagement,
        closes_group: false,
        item: ItemKind::Index { prefix: "temp", base: 1 },
        shape: Shape::Array,
        merge_sections: false,
        sections: seq![
            SectionModel {
                gate: SectionGate::Always,
                item_col: "",
                hdr_line: "TEMP;DEVICE;degC;%temp",
                fields: pwr_temp_fields(),
                jx_order: sensor_order(),
                raw: RawModel::Fields(pwr_temp_raw()),
            },
        ],
    }
}

pub fn pwr_temp_spec() -> (r: ActivitySpec)
    ensures
        r.model() == pwr_temp_model(),
{
    reveal(pwr_temp_model);
    let r = ActivitySpec {
        id: ActivityId::PWR_TEMP,
        name: "A_PWR_TEMP",
        desc: "Devices temperature",
        json_key: "temperature",
        xml_elem: "temperature",
        xml_child: "temp",
        xml_wrapper_attrs: " unit=\"degree Celsius\"",
        group: Group::PowerManagement,
        closes_group: false,
        item: ItemKind::Index { prefix: "temp", base: 1 },
        shape: Shape::Array,
        merge_sections: false,
        sections: vec![
            Section {
                gate: SectionGate::Always,
                item_col: "",
                hdr_line: "TEMP;DEVICE;degC;%temp",
                fields: pwr_temp_fields_list(),
                jx_order: sensor_order_list(),
                raw: RawSpec::Fields(pwr_temp_raw_list()),
            },
        ],
    };
    assert(r.model().sections =~= pwr_temp_model().sections);
    r
}

#[verifier::opaque]
pub open spec fn pwr_in_model() -> SpecModel {
    SpecModel {
        id: ActivityId::PWR_IN,
        name: "A_PWR_IN",
        desc: "Voltage inputs statistics",
        json_key: "voltage-input",
        xml_elem: "voltage-input",
        xml_child: "in",
        xml_wrapper_attrs: " unit=\"V\"",
        group: Group::PowerManagement,
        closes_group: false,
        item: ItemKind::Index { prefix: "in", base: 0 },
        shape: Shape::Array,
        merge_sections: false,
        sections: seq![
            SectionModel {
                gate: SectionGate::Always,
                item_col: "",
                hdr_line: "IN;DEVICE;inV;%in",
                fields: pwr_in_fields(),
                jx_order: sensor_order(),
                raw: RawModel::Fields(pwr_in_raw()),
            },
        ],
    }
}

pub fn pwr_in_spec() -> (r: ActivitySpec)
    ensures
        r.model() == pwr_in_model(),
{
    reveal(pwr_in_model);
    let r = ActivitySpec {
        id: ActivityId::PWR_IN,
        name: "A_PWR_IN",
        desc: "Voltage inputs statistics",
        json_key: "voltage-input",
        xml_elem: "voltage-input",
        xml_child: "in",
        xml_wrapper_attrs: " unit=\"V\"",
        group: Group::PowerManagement,
        closes_group: false,
        item: ItemKind::Index { prefix: "in", base: 0 },
        shape: Shape::Array,
        merge_sections: false,
        sections: vec![
            Section {
                gate: SectionGate::Always,
                item_col: "",
                hdr_line: "IN;DEVICE;inV;%in",
                fields: pwr_in_fields_list(),
                jx_order: sensor_order_list(),
                raw: RawSpec::Fields(pwr_in_raw_list()),
            },
        ],
    };
    assert(r.model().sections =~= pwr_in_model().sections);
    r
}

#[verifier::opaque]
pub open spec fn pwr_freq_model() -> SpecModel {
    SpecModel {
        id: ActivityId::PWR_FREQ,
        name: "A_PWR_FREQ",
        desc: "CPU weighted frequency",
        json_key: "cpu-weighted-frequency",
        xml_elem: "cpu-weighted-frequency",
        xml_child: "cpuwfreq",
        xml_wrapper_attrs: " unit=\"MHz\"",
        group: Group::PowerManagement,
        closes_group: false,
        item: ItemKind::Cpu,
        shape: Shape::Array,
        merge_sections: false,
        sections: seq![
            SectionModel {
                gate: SectionGate::Always,
                item_col: "",
                hdr_line: "CPU;wghMHz",
                fields: pwr_freq_fields(),
                jx_order: Seq::empty(),
                raw: RawModel::Fields(pwr_freq_raw()),
            },
        ],
    }
}

pub fn pwr_freq_spec() -> (r: ActivitySpec)
    ensures
        r.model() == pwr_freq_model(),
{
    reveal(pwr_freq_model);
    let r = ActivitySpec {
        id: ActivityId::PWR_FREQ,
        name: "A_PWR_FREQ",
        desc: "CPU weighted frequency",
        json_key: "cpu-weighted-frequency",
        xml_elem: "cpu-weighted-frequency",
        xml_child: "cpuwfreq",
        xml_wrapper_attrs: " unit=\"MHz\"",
        group: Group::PowerManagement,
        closes_group: false,
        item: ItemKind::Cpu,
        shape: Shape::Array,
        merge_sections: false,
        sections: vec![
            Section {
                gate: SectionGate::Always,
                item_col: "",
                hdr_line: "CPU;wghMHz",
                fields: pwr_freq_fields_list(),
                jx_order: Vec::new(),
                raw: RawSpec::Fields(pwr_freq_raw_list()),
            },
        ],
    };
    assert(r.model().sections =~= pwr_freq_model().sections);
    r
}

#[verifier::opaque]
pub open spec fn pwr_bat_model() -> SpecModel {
    SpecModel {
        id: ActivityId::PWR_BAT,
        name: "A_PWR_BAT",
        desc: "Batteries capacity",
        json_key: "battery",
        xml_elem: "battery",
        xml_child: "bat",
        xml_wrapper_attrs: " unit=\"minute\"",
        group: Group::PowerManagement,
        closes_group: false,
        item: ItemKind::Column { col: "bat_id", prefix: "BAT" },
        shape: Shape::Array,
        merge_sections: false,
        sections: seq![
            SectionModel {
                gate: SectionGate::Always,
                item_col: "",
                hdr_line: "BAT;%cap;cap/min;status",
                fields: pwr_bat_fields(),
                jx_order: Seq::empty(),
                raw: RawModel::Fields(pwr_bat_raw()),
            },
        ],
    }
}

pub fn pwr_bat_spec() -> (r: ActivitySpec)
    ensures
        r.model() == pwr_bat_model(),
{
    reveal(pwr_bat_model);
    let r = ActivitySpec {
        id: ActivityId::PWR_BAT,
        name: "A_PWR_BAT",
        desc: "Batteries capacity",
        json_key: "battery",
        xml_elem: "battery",
        xml_child: "bat",
        xml_wrapper_attrs: " unit=\"minute\"",
        group: Group::PowerManagement,
        closes_group: false,
        item: ItemKind::Column { col: "bat_id", prefix: "BAT" },
        shape: Shape::Array,
        merge_sections: false,
        sections: vec![
            Section {
                gate: SectionGate::Always,
                item_col: "",
                hdr_line: "BAT;%cap;cap/min;status",
                fields: pwr_bat_fields_list(),
                jx_order: Vec::new(),
                raw: RawSpec::Fields(pwr_bat_raw_list()),
            },
        ],
    };
    assert(r.model().sections =~= pwr_bat_model().sections);
    r
}

#[verifier::opaque]
pub open spec fn pwr_usb_model() -> SpecModel {
    SpecModel {
        id: ActivityId::PWR_USB,
        name: "A_PWR_USB",
        desc: "USB devices",
        json_key: "usb-devices",
        xml_elem: "usb-devices",
        xml_child: "usb",
        xml_wrapper_attrs: "",
        group: Group::PowerManagement,
        closes_group: true,
        item: ItemKind::Column { col: "bus", prefix: "bus" },
        shape: Shape::Array,
        merge_sections: false,
        sections: seq![
            SectionModel {
                gate: SectionGate::Always,
                item_col: "",
                hdr_line: "manufact;product;BUS;idvendor;idprod;maxpower",
                fields: pwr_usb_fields(),
                jx_order: Seq::empty(),
                raw: RawModel::Fields(pwr_usb_raw()),
            },
        ],
    }
}

pub fn pwr_usb_spec() -> (r: ActivitySpec)
    ensures
        r.model() == pwr_usb_model(),
{
    reveal(pwr_usb_model);
    let r = ActivitySpec {
        id: ActivityId::PWR_USB,
        name: "A_PWR_USB",
        desc: "USB devices",
        json_key: "usb-devices",
        xml_elem: "usb-devices",
        xml_child: "usb",
        xml_wrapper_attrs: "",
        group: Group::PowerManagement,
        closes_group: true,
        item: ItemKind::Column { col: "bus", prefix: "bus" },
        shape: Shape::Array,
        merge_sections: false,
        sections: vec![
            Section {
                gate: SectionGate::Always,
                item_col: "",
                hdr_line: "manufact;product;BUS;idvendor;idprod;maxpower",
                fields: pwr_usb_fields_list(),
                jx_order: Vec::new(),
                raw: RawSpec::Fields(pwr_usb_raw_list()),
            },
        ],
    };
    assert(r.model().sections =~= pwr_usb_model().sections);
    r
}

#[verifier::opaque]
pub open spec fn fs_model() -> SpecModel {
    SpecModel {
        id: ActivityId::FS,
        name: "A_FS",
        desc: "Filesystems statistics",
        json_key: "filesystems",
        xml_elem: "filesystems",
        xml_child: "filesystem",
        xml_wrapper_attrs: "",
        group: Group::Ungrouped,
        closes_group: false,
        item: ItemKind::Name,
        shape: Shape::Array,
        merge_sections: false,
        sections: seq![
            SectionModel {
                gate: SectionGate::FsName,
                item_col: "filesystem",
                hdr_line: "FILESYSTEM;MBfsfree;MBfsused;%fsused;%ufsused;Ifree;Iused;%Iused",
                fields: fs_name_fields(),
                jx_order: Seq::empty(),
                raw: RawModel::Fields(fs_raw()),
            },
            SectionModel {
                gate: SectionGate::FsMount,
                item_col: "mountpoint",
                hdr_line: "MOUNTPOINT;MBfsfree;MBfsused;%fsused;%ufsused;Ifree;Iused;%Iused",
                fields: fs_mount_fields(),
                jx_order: Seq::empty(),
                raw: RawModel::Fields(fs_raw()),
            },
        ],
    }
}

pub fn fs_spec() -> (r: ActivitySpec)
    ensures
        r.model() == fs_model(),
{
    reveal(fs_model);
    let r = ActivitySpec {
        id: ActivityId::FS,
        name: "A_FS",
        desc: "Filesystems statistics",
        json_key: "filesystems",
        xml_elem: "filesystems",
        xml_child: "filesystem",
        xml_wrapper_attrs: "",
        group: Group::Ungrouped,
        closes_group: false,
        item: ItemKind::Name,
        shape: Shape::Array,
        merge_sections: false,
        sections: vec![
            Section {
                gate: SectionGate::FsName,
                item_col: "filesystem",
                hdr_line: "FILESYSTEM;MBfsfree;MBfsused;%fsused;%ufsused;Ifree;Iused;%Iused",
                fields: fs_name_fields_list(),
                jx_order: Vec::new(),
                raw: RawSpec::Fields(fs_raw_list()),
            },
            Section {
                gate: SectionGate::FsMount,
                item_col: "mountpoint",
                hdr_line: "MOUNTPOINT;MBfsfree;MBfsused;%fsused;%ufsused;Ifree;Iused;%Iused",
                fields: fs_mount_fields_list(),
                jx_order: Vec::new(),
                raw: RawSpec::Fields(fs_raw_list()),
            },
        ],
    };
    assert(r.model().sections =~= fs_model().sections);
    r
}

#[verifier::opaque]
pub open spec fn psi_cpu_model() -> SpecModel {
    SpecModel {
        id: ActivityId::PSI_CPU,
        name: "A_PSI_CPU",
        desc: "Pressure-stall CPU statistics",
        json_key: "psi-cpu",
        xml_elem: "psi-cpu",
        xml_child: "",
        xml_wrapper_attrs: "",
        group: Group::Psi,
        closes_group: false,
        item: ItemKind::Single,
        shape: Shape::Object,
        merge_sections: false,
        sections: seq![
            SectionModel {
                gate: SectionGate::Always,
                item_col: "",
                hdr_line: "%scpu-10;%scpu-60;%scpu-300;%scpu",
                fields: psi_cpu_fields(),
                jx_order: Seq::empty(),
                raw: RawModel::Fields(psi_cpu_raw()),
            },
        ],
    }
}

pub fn psi_cpu_spec() -> (r: ActivitySpec)
    ensures
        r.model() == psi_cpu_model(),
{
    reveal(psi_cpu_model);
    let r = ActivitySpec {
        id: ActivityId::PSI_CPU,
        name: "A_PSI_CPU",
        desc: "Pressure-stall CPU statistics",
        json_key: "psi-cpu",
        xml_elem: "psi-cpu",
        xml_child: "",
        xml_wrapper_attrs: "",
        group: Group::Psi,
        closes_group: false,
        item: ItemKind::Single,
        shape: Shape::Object,
        merge_sections: false,
        sections: vec![
            Section {
                gate: SectionGate::Always,
                item_col: "",
                hdr_line: "%scpu-10;%scpu-60;%scpu-300;%scpu",
                fields: psi_cpu_fields_list(),
                jx_order: Vec::new(),
                raw: RawSpec::Fields(psi_cpu_raw_list()),
            },
        ],
    };
    assert(r.model().sections =~= psi_cpu_model().sections);
    r
}

#[verifier::opaque]
pub open spec fn psi_io_model() -> SpecModel {
    SpecModel {
        id: ActivityId::PSI_IO,
        name: "A_PSI_IO",
        desc: "Pressure-stall I/O statistics",
        json_key: "psi-io",
        xml_elem: "psi-io",
        xml_child: "",
        xml_wrapper_attrs: "",
        group: Group::Psi,
        closes_group: false,
        item: ItemKind::Single,
        shape: Shape::Object,
        merge_sections: false,
        sections: seq![
            SectionModel {
                gate: SectionGate::Always,
                item_col: "",
                hdr_line: "%sio-10;%sio-60;%sio-300;%sio;%fio-10;%fio-60;%fio-300;%fio",
                fields: psi_io_fields(),
                jx_order: Seq::empty(),
                raw: RawModel::Fields(psi_io_raw()),
            },
        ],
    }
}

pub fn psi_io_spec() -> (r: ActivitySpec)
    ensures
        r.model() == psi_io_model(),
{
    reveal(psi_io_model);
    let r = ActivitySpec {
        id: ActivityId::PSI_IO,
        name: "A_PSI_IO",
        desc: "Pressure-stall I/O statistics",
        json_key: "psi-io",
        xml_elem: "psi-io",
        xml_child: "",
        xml_wrapper_attrs: "",
        group: Group::Psi,
        closes_group: false,
        item: ItemKind::Single,
        shape: Shape::Object,
        merge_sections: false,
        sections: vec![
            Section {
                gate: SectionGate::Always,
                item_col: "",
                hdr_line: "%sio-10;%sio-60;%sio-300;%sio;%fio-10;%fio-60;%fio-300;%fio",
                fields: psi_io_fields_list(),
                jx_order: Vec::new(),
                raw: RawSpec::Fields(psi_io_raw_list()),
            },
        ],
    };
    assert(r.model().sections =~= psi_io_model().sections);
    r
}

#[verifier::opaque]
pub open spec fn psi_mem_model() -> SpecModel {
    SpecModel {
        id: ActivityId::PSI_MEM,
        name: "A_PSI_MEM",
        desc: "Pressure-stall memory statistics",
        json_key: "psi-mem",
        xml_elem: "psi-mem",
        xml_child: "",
        xml_wrapper_attrs: "",
        group: Group::Psi,
        closes_group: true,
        item: ItemKind::Single,
        shape: Shape::Object,
        merge_sections: false,
        sections: seq![
            SectionModel {
                gate: SectionGate::Always,
                item_col: "",
                hdr_line: "%smem-10;%smem-60;%smem-300;%smem;%fmem-10;%fmem-60;%fmem-300;%fmem",
                fields: psi_mem_fields(),
                jx_order: Seq::empty(),
                raw: RawModel::Fields(psi_mem_raw()),
            },
        ],
    }
}

pub fn psi_mem_spec() -> (r: ActivitySpec)
    ensures
        r.model() == psi_mem_model(),
{
    reveal(psi_mem_model);
    let r = ActivitySpec {
        id: ActivityId::PSI_MEM,
        name: "A_PSI_MEM",
        desc: "Pressure-stall memory statistics",
        json_key: "psi-mem",
        xml_elem: "psi-mem",
        xml_child: "",
        xml_wrapper_attrs: "",
        group: Group::Psi,
        closes_group: true,
        item: ItemKind::Single,
        shape: Shape::Object,
        merge_sections: false,
        sections: vec![
            Section {
                gate: SectionGate::Always,
                item_col: "",
                hdr_line: "%smem-10;%smem-60;%smem-300;%smem;%fmem-10;%fmem-60;%fmem-300;%fmem",
                fields: psi_mem_fields_list(),
                jx_order: Vec::new(),
                raw: RawSpec::Fields(psi_mem_raw_list()),
            },
        ],
    };
    assert(r.model().sections =~= psi_mem_model().sections);
    r
}

}
