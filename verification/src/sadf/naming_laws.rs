//! What the activities are called, how they are grouped, and how their items are told apart.

use vstd::prelude::*;

use crate::model::ActivityId;
use crate::sadf::activities::{
    cpu_model, disk_model, fs_model, huge_model, io_model, irq_model, ktables_model, memory_model,
    net_dev_model, net_edev_model, net_eicmp6_model, net_eicmp_model, net_eip6_model,
    net_eip_model, net_etcp_model, net_fc_model, net_icmp6_model, net_icmp_model, net_ip6_model,
    net_ip_model, net_nfs_model, net_nfsd_model, net_sock6_model, net_sock_model, net_soft_model,
    net_tcp_model, net_udp6_model, net_udp_model, page_model, pcsw_model, psi_cpu_model,
    psi_io_model, psi_mem_model, pwr_bat_model, pwr_cpu_model, pwr_fan_model, pwr_freq_model,
    pwr_in_model, pwr_temp_model, pwr_usb_model, queue_model, serial_model, swap_model,
};
use crate::sadf::table::{table, Group, ItemKind, SectionGate};

verus! {

/// The names of an activity: its own, its key in JSON, its element in XML with its attributes,
/// and the element of an item.
pub struct Names {
    pub name: &'static str,
    pub key: &'static str,
    pub element: &'static str,
    pub attributes: &'static str,
    pub child: &'static str,
}

/// The names where the key in JSON is the element in XML too.
pub open spec fn called(
    name: &'static str,
    key: &'static str,
    attributes: &'static str,
    child: &'static str,
) -> Names {
    Names { name, key, element: key, attributes, child }
}

/// What each activity is called.
pub open spec fn names_of(id: ActivityId) -> Option<Names> {
    match id {
        ActivityId::CPU => Some(called("A_CPU", "cpu-load", " per=\"second\"", "cpu")),
        ActivityId::PCSW => Some(called("A_PCSW", "process-and-context-switch", " per=\"second\"", "")),
        ActivityId::IRQ => Some(called("A_IRQ", "interrupts", "", "irq")),
        ActivityId::SWAP => Some(called("A_SWAP", "swap-pages", " per=\"second\"", "")),
        ActivityId::PAGE => Some(called("A_PAGE", "paging", " per=\"second\"", "")),
        ActivityId::IO => Some(called("A_IO", "io", " per=\"second\"", "")),
        ActivityId::MEMORY => Some(called("A_MEMORY", "memory", " unit=\"kB\"", "")),
        ActivityId::HUGE => Some(called("A_HUGE", "hugepages", " unit=\"kB\"", "")),
        ActivityId::KTABLES => Some(called("A_KTABLES", "kernel", "", "")),
        ActivityId::QUEUE => Some(called("A_QUEUE", "queue", "", "")),
        ActivityId::SERIAL => Some(called("A_SERIAL", "serial", " per=\"second\"", "tty")),
        ActivityId::DISK => Some(called("A_DISK", "disk", " per=\"second\"", "disk-device")),
        ActivityId::NET_DEV => Some(called("A_NET_DEV", "net-dev", "", "net-dev")),
        ActivityId::NET_EDEV => Some(called("A_NET_EDEV", "net-edev", "", "net-edev")),
        ActivityId::NET_NFS => Some(called("A_NET_NFS", "net-nfs", "", "")),
        ActivityId::NET_NFSD => Some(called("A_NET_NFSD", "net-nfsd", "", "")),
        ActivityId::NET_SOCK => Some(called("A_NET_SOCK", "net-sock", "", "")),
        ActivityId::NET_IP => Some(called("A_NET_IP", "net-ip", "", "")),
        ActivityId::NET_EIP => Some(called("A_NET_EIP", "net-eip", "", "")),
        ActivityId::NET_ICMP => Some(called("A_NET_ICMP", "net-icmp", "", "")),
        ActivityId::NET_EICMP => Some(called("A_NET_EICMP", "net-eicmp", "", "")),
        ActivityId::NET_TCP => Some(called("A_NET_TCP", "net-tcp", "", "")),
        ActivityId::NET_ETCP => Some(called("A_NET_ETCP", "net-etcp", "", "")),
        ActivityId::NET_UDP => Some(called("A_NET_UDP", "net-udp", "", "")),
        ActivityId::NET_SOCK6 => Some(called("A_NET_SOCK6", "net-sock6", "", "")),
        ActivityId::NET_IP6 => Some(called("A_NET_IP6", "net-ip6", "", "")),
        ActivityId::NET_EIP6 => Some(called("A_NET_EIP6", "net-eip6", "", "")),
        ActivityId::NET_ICMP6 => Some(called("A_NET_ICMP6", "net-icmp6", "", "")),
        ActivityId::NET_EICMP6 => Some(called("A_NET_EICMP6", "net-eicmp6", "", "")),
        ActivityId::NET_UDP6 => Some(called("A_NET_UDP6", "net-udp6", "", "")),
        ActivityId::NET_FC => Some(called("A_NET_FC", "fchosts", "", "fchost")),
        ActivityId::NET_SOFT => Some(called("A_NET_SOFT", "softnet", "", "softnet")),
        ActivityId::PWR_CPU => Some(called("A_PWR_CPU", "cpu-frequency", " unit=\"MHz\"", "cpufreq")),
        ActivityId::PWR_FAN => Some(called("A_PWR_FAN", "fan-speed", " unit=\"rpm\"", "fan")),
        ActivityId::PWR_TEMP => Some(called("A_PWR_TEMP", "temperature", " unit=\"degree Celsius\"", "temp")),
        ActivityId::PWR_IN => Some(called("A_PWR_IN", "voltage-input", " unit=\"V\"", "in")),
        ActivityId::PWR_FREQ => Some(called("A_PWR_FREQ", "cpu-weighted-frequency", " unit=\"MHz\"", "cpuwfreq")),
        ActivityId::PWR_BAT => Some(called("A_PWR_BAT", "battery", " unit=\"minute\"", "bat")),
        ActivityId::PWR_USB => Some(called("A_PWR_USB", "usb-devices", "", "usb")),
        ActivityId::FS => Some(called("A_FS", "filesystems", "", "filesystem")),
        ActivityId::PSI_CPU => Some(called("A_PSI_CPU", "psi-cpu", "", "")),
        ActivityId::PSI_IO => Some(called("A_PSI_IO", "psi-io", "", "")),
        ActivityId::PSI_MEM => Some(called("A_PSI_MEM", "psi-mem", "", "")),
        _ => None,
    }
}

/// The group of each activity.
pub open spec fn group_of(id: ActivityId) -> Group {
    match id {
        ActivityId::NET_DEV
        | ActivityId::NET_EDEV
        | ActivityId::NET_NFS
        | ActivityId::NET_NFSD
        | ActivityId::NET_SOCK
        | ActivityId::NET_IP
        | ActivityId::NET_EIP
        | ActivityId::NET_ICMP
        | ActivityId::NET_EICMP
        | ActivityId::NET_TCP
        | ActivityId::NET_ETCP
        | ActivityId::NET_UDP
        | ActivityId::NET_SOCK6
        | ActivityId::NET_IP6
        | ActivityId::NET_EIP6
        | ActivityId::NET_ICMP6
        | ActivityId::NET_EICMP6
        | ActivityId::NET_UDP6
        | ActivityId::NET_FC
        | ActivityId::NET_SOFT => Group::Network,
        ActivityId::PWR_CPU
        | ActivityId::PWR_FAN
        | ActivityId::PWR_TEMP
        | ActivityId::PWR_IN
        | ActivityId::PWR_FREQ
        | ActivityId::PWR_BAT
        | ActivityId::PWR_USB => Group::PowerManagement,
        ActivityId::PSI_CPU
        | ActivityId::PSI_IO
        | ActivityId::PSI_MEM => Group::Psi,
        _ => Group::Ungrouped,
    }
}

/// How the items of each activity are told apart.
pub open spec fn told_by(id: ActivityId) -> ItemKind {
    match id {
        ActivityId::CPU
        | ActivityId::NET_SOFT
        | ActivityId::PWR_CPU
        | ActivityId::PWR_FREQ => ItemKind::Cpu,
        ActivityId::IRQ => ItemKind::Irq,
        ActivityId::SERIAL => ItemKind::Column { col: "line", prefix: "ttyS" },
        ActivityId::DISK => ItemKind::Disk,
        ActivityId::NET_DEV
        | ActivityId::NET_EDEV
        | ActivityId::NET_FC
        | ActivityId::FS => ItemKind::Name,
        ActivityId::PWR_FAN => ItemKind::Index { prefix: "fan", base: 1 },
        ActivityId::PWR_TEMP => ItemKind::Index { prefix: "temp", base: 1 },
        ActivityId::PWR_IN => ItemKind::Index { prefix: "in", base: 0 },
        ActivityId::PWR_BAT => ItemKind::Column { col: "bat_id", prefix: "BAT" },
        ActivityId::PWR_USB => ItemKind::Column { col: "bus", prefix: "bus" },
        _ => ItemKind::Single,
    }
}

/// Whether the tables of an activity give it the names, the group and the items that it has.
#[verifier::opaque]
pub open spec fn is_as_called(id: ActivityId) -> bool {
    match (table(id), names_of(id)) {
        (Some(m), Some(n)) => {
            &&& m.id == id
            &&& m.name == n.name
            &&& m.json_key == n.key
            &&& m.xml_elem == n.element
            &&& m.xml_wrapper_attrs == n.attributes
            &&& m.xml_child == n.child
            &&& m.group == group_of(id)
            &&& m.item == told_by(id)
        },
        (None, None) => true,
        _ => false,
    }
}

proof fn lemma_called_cpu()
    ensures
        is_as_called(ActivityId::CPU),
{
    reveal(is_as_called);
    reveal(cpu_model);
}

proof fn lemma_called_pcsw()
    ensures
        is_as_called(ActivityId::PCSW),
{
    reveal(is_as_called);
    reveal(pcsw_model);
}

proof fn lemma_called_irq()
    ensures
        is_as_called(ActivityId::IRQ),
{
    reveal(is_as_called);
    reveal(irq_model);
}

proof fn lemma_called_swap()
    ensures
        is_as_called(ActivityId::SWAP),
{
    reveal(is_as_called);
    reveal(swap_model);
}

proof fn lemma_called_page()
    ensures
        is_as_called(ActivityId::PAGE),
{
    reveal(is_as_called);
    reveal(page_model);
}

proof fn lemma_called_io()
    ensures
        is_as_called(ActivityId::IO),
{
    reveal(is_as_called);
    reveal(io_model);
}

proof fn lemma_called_memory()
    ensures
        is_as_called(ActivityId::MEMORY),
{
    reveal(is_as_called);
    reveal(memory_model);
}

proof fn lemma_called_huge()
    ensures
        is_as_called(ActivityId::HUGE),
{
    reveal(is_as_called);
    reveal(huge_model);
}

proof fn lemma_called_ktables()
    ensures
        is_as_called(ActivityId::KTABLES),
{
    reveal(is_as_called);
    reveal(ktables_model);
}

proof fn lemma_called_queue()
    ensures
        is_as_called(ActivityId::QUEUE),
{
    reveal(is_as_called);
    reveal(queue_model);
}

proof fn lemma_called_serial()
    ensures
        is_as_called(ActivityId::SERIAL),
{
    reveal(is_as_called);
    reveal(serial_model);
}

proof fn lemma_called_disk()
    ensures
        is_as_called(ActivityId::DISK),
{
    reveal(is_as_called);
    reveal(disk_model);
}

proof fn lemma_called_net_dev()
    ensures
        is_as_called(ActivityId::NET_DEV),
{
    reveal(is_as_called);
    reveal(net_dev_model);
}

proof fn lemma_called_net_edev()
    ensures
        is_as_called(ActivityId::NET_EDEV),
{
    reveal(is_as_called);
    reveal(net_edev_model);
}

proof fn lemma_called_net_nfs()
    ensures
        is_as_called(ActivityId::NET_NFS),
{
    reveal(is_as_called);
    reveal(net_nfs_model);
}

proof fn lemma_called_net_nfsd()
    ensures
        is_as_called(ActivityId::NET_NFSD),
{
    reveal(is_as_called);
    reveal(net_nfsd_model);
}

proof fn lemma_called_net_sock()
    ensures
        is_as_called(ActivityId::NET_SOCK),
{
    reveal(is_as_called);
    reveal(net_sock_model);
}

proof fn lemma_called_net_ip()
    ensures
        is_as_called(ActivityId::NET_IP),
{
    reveal(is_as_called);
    reveal(net_ip_model);
}

proof fn lemma_called_net_eip()
    ensures
        is_as_called(ActivityId::NET_EIP),
{
    reveal(is_as_called);
    reveal(net_eip_model);
}

proof fn lemma_called_net_icmp()
    ensures
        is_as_called(ActivityId::NET_ICMP),
{
    reveal(is_as_called);
    reveal(net_icmp_model);
}

proof fn lemma_called_net_eicmp()
    ensures
        is_as_called(ActivityId::NET_EICMP),
{
    reveal(is_as_called);
    reveal(net_eicmp_model);
}

proof fn lemma_called_net_tcp()
    ensures
        is_as_called(ActivityId::NET_TCP),
{
    reveal(is_as_called);
    reveal(net_tcp_model);
}

proof fn lemma_called_net_etcp()
    ensures
        is_as_called(ActivityId::NET_ETCP),
{
    reveal(is_as_called);
    reveal(net_etcp_model);
}

proof fn lemma_called_net_udp()
    ensures
        is_as_called(ActivityId::NET_UDP),
{
    reveal(is_as_called);
    reveal(net_udp_model);
}

proof fn lemma_called_net_sock6()
    ensures
        is_as_called(ActivityId::NET_SOCK6),
{
    reveal(is_as_called);
    reveal(net_sock6_model);
}

proof fn lemma_called_net_ip6()
    ensures
        is_as_called(ActivityId::NET_IP6),
{
    reveal(is_as_called);
    reveal(net_ip6_model);
}

proof fn lemma_called_net_eip6()
    ensures
        is_as_called(ActivityId::NET_EIP6),
{
    reveal(is_as_called);
    reveal(net_eip6_model);
}

proof fn lemma_called_net_icmp6()
    ensures
        is_as_called(ActivityId::NET_ICMP6),
{
    reveal(is_as_called);
    reveal(net_icmp6_model);
}

proof fn lemma_called_net_eicmp6()
    ensures
        is_as_called(ActivityId::NET_EICMP6),
{
    reveal(is_as_called);
    reveal(net_eicmp6_model);
}

proof fn lemma_called_net_udp6()
    ensures
        is_as_called(ActivityId::NET_UDP6),
{
    reveal(is_as_called);
    reveal(net_udp6_model);
}

proof fn lemma_called_net_fc()
    ensures
        is_as_called(ActivityId::NET_FC),
{
    reveal(is_as_called);
    reveal(net_fc_model);
}

proof fn lemma_called_net_soft()
    ensures
        is_as_called(ActivityId::NET_SOFT),
{
    reveal(is_as_called);
    reveal(net_soft_model);
}

proof fn lemma_called_pwr_cpu()
    ensures
        is_as_called(ActivityId::PWR_CPU),
{
    reveal(is_as_called);
    reveal(pwr_cpu_model);
}

proof fn lemma_called_pwr_fan()
    ensures
        is_as_called(ActivityId::PWR_FAN),
{
    reveal(is_as_called);
    reveal(pwr_fan_model);
}

proof fn lemma_called_pwr_temp()
    ensures
        is_as_called(ActivityId::PWR_TEMP),
{
    reveal(is_as_called);
    reveal(pwr_temp_model);
}

proof fn lemma_called_pwr_in()
    ensures
        is_as_called(ActivityId::PWR_IN),
{
    reveal(is_as_called);
    reveal(pwr_in_model);
}

proof fn lemma_called_pwr_freq()
    ensures
        is_as_called(ActivityId::PWR_FREQ),
{
    reveal(is_as_called);
    reveal(pwr_freq_model);
}

proof fn lemma_called_pwr_bat()
    ensures
        is_as_called(ActivityId::PWR_BAT),
{
    reveal(is_as_called);
    reveal(pwr_bat_model);
}

proof fn lemma_called_pwr_usb()
    ensures
        is_as_called(ActivityId::PWR_USB),
{
    reveal(is_as_called);
    reveal(pwr_usb_model);
}

proof fn lemma_called_fs()
    ensures
        is_as_called(ActivityId::FS),
{
    reveal(is_as_called);
    reveal(fs_model);
}

proof fn lemma_called_psi_cpu()
    ensures
        is_as_called(ActivityId::PSI_CPU),
{
    reveal(is_as_called);
    reveal(psi_cpu_model);
}

proof fn lemma_called_psi_io()
    ensures
        is_as_called(ActivityId::PSI_IO),
{
    reveal(is_as_called);
    reveal(psi_io_model);
}

proof fn lemma_called_psi_mem()
    ensures
        is_as_called(ActivityId::PSI_MEM),
{
    reveal(is_as_called);
    reveal(psi_mem_model);
}

/// Each activity goes by its own names, stands in its own group, and has its own way to tell its
/// items apart.
pub proof fn law_activities_go_by_their_names(id: ActivityId)
    ensures
        is_as_called(id),
{
    match id {
        ActivityId::CPU => lemma_called_cpu(),
        ActivityId::PCSW => lemma_called_pcsw(),
        ActivityId::IRQ => lemma_called_irq(),
        ActivityId::SWAP => lemma_called_swap(),
        ActivityId::PAGE => lemma_called_page(),
        ActivityId::IO => lemma_called_io(),
        ActivityId::MEMORY => lemma_called_memory(),
        ActivityId::HUGE => lemma_called_huge(),
        ActivityId::KTABLES => lemma_called_ktables(),
        ActivityId::QUEUE => lemma_called_queue(),
        ActivityId::SERIAL => lemma_called_serial(),
        ActivityId::DISK => lemma_called_disk(),
        ActivityId::NET_DEV => lemma_called_net_dev(),
        ActivityId::NET_EDEV => lemma_called_net_edev(),
        ActivityId::NET_NFS => lemma_called_net_nfs(),
        ActivityId::NET_NFSD => lemma_called_net_nfsd(),
        ActivityId::NET_SOCK => lemma_called_net_sock(),
        ActivityId::NET_IP => lemma_called_net_ip(),
        ActivityId::NET_EIP => lemma_called_net_eip(),
        ActivityId::NET_ICMP => lemma_called_net_icmp(),
        ActivityId::NET_EICMP => lemma_called_net_eicmp(),
        ActivityId::NET_TCP => lemma_called_net_tcp(),
        ActivityId::NET_ETCP => lemma_called_net_etcp(),
        ActivityId::NET_UDP => lemma_called_net_udp(),
        ActivityId::NET_SOCK6 => lemma_called_net_sock6(),
        ActivityId::NET_IP6 => lemma_called_net_ip6(),
        ActivityId::NET_EIP6 => lemma_called_net_eip6(),
        ActivityId::NET_ICMP6 => lemma_called_net_icmp6(),
        ActivityId::NET_EICMP6 => lemma_called_net_eicmp6(),
        ActivityId::NET_UDP6 => lemma_called_net_udp6(),
        ActivityId::NET_FC => lemma_called_net_fc(),
        ActivityId::NET_SOFT => lemma_called_net_soft(),
        ActivityId::PWR_CPU => lemma_called_pwr_cpu(),
        ActivityId::PWR_FAN => lemma_called_pwr_fan(),
        ActivityId::PWR_TEMP => lemma_called_pwr_temp(),
        ActivityId::PWR_IN => lemma_called_pwr_in(),
        ActivityId::PWR_FREQ => lemma_called_pwr_freq(),
        ActivityId::PWR_BAT => lemma_called_pwr_bat(),
        ActivityId::PWR_USB => lemma_called_pwr_usb(),
        ActivityId::FS => lemma_called_fs(),
        ActivityId::PSI_CPU => lemma_called_psi_cpu(),
        ActivityId::PSI_IO => lemma_called_psi_io(),
        ActivityId::PSI_MEM => lemma_called_psi_mem(),
        _ => {
            reveal(is_as_called);
        },
    }
}

/// The options that the parts of an activity are shown with, and the column that tells the items
/// where a part has one of its own.
pub open spec fn parts_of(id: ActivityId) -> Seq<(SectionGate, &'static str)> {
    match id {
        ActivityId::CPU => seq![(SectionGate::CpuDef, ""), (SectionGate::CpuAll, "")],
        ActivityId::MEMORY => seq![(SectionGate::Memory, ""), (SectionGate::Swap, "")],
        ActivityId::FS => seq![(SectionGate::FsName, "filesystem"), (SectionGate::FsMount, "mountpoint")],
        _ => seq![(SectionGate::Always, "")],
    }
}

/// Whether the parts of an activity are shown with the options that they belong to.
#[verifier::opaque]
pub open spec fn is_in_parts(id: ActivityId) -> bool {
    match table(id) {
        Some(m) => {
            &&& m.sections.len() == parts_of(id).len()
            &&& forall|k: int|
                #![trigger m.sections[k]]
                0 <= k < m.sections.len() ==> m.sections[k].gate == parts_of(id)[k].0
                    && m.sections[k].item_col == parts_of(id)[k].1
        },
        None => true,
    }
}

proof fn lemma_parts_cpu()
    ensures
        is_in_parts(ActivityId::CPU),
{
    reveal(is_in_parts);
    reveal(cpu_model);
}

proof fn lemma_parts_pcsw()
    ensures
        is_in_parts(ActivityId::PCSW),
{
    reveal(is_in_parts);
    reveal(pcsw_model);
}

proof fn lemma_parts_irq()
    ensures
        is_in_parts(ActivityId::IRQ),
{
    reveal(is_in_parts);
    reveal(irq_model);
}

proof fn lemma_parts_swap()
    ensures
        is_in_parts(ActivityId::SWAP),
{
    reveal(is_in_parts);
    reveal(swap_model);
}

proof fn lemma_parts_page()
    ensures
        is_in_parts(ActivityId::PAGE),
{
    reveal(is_in_parts);
    reveal(page_model);
}

proof fn lemma_parts_io()
    ensures
        is_in_parts(ActivityId::IO),
{
    reveal(is_in_parts);
    reveal(io_model);
}

proof fn lemma_parts_memory()
    ensures
        is_in_parts(ActivityId::MEMORY),
{
    reveal(is_in_parts);
    reveal(memory_model);
}

proof fn lemma_parts_huge()
    ensures
        is_in_parts(ActivityId::HUGE),
{
    reveal(is_in_parts);
    reveal(huge_model);
}

proof fn lemma_parts_ktables()
    ensures
        is_in_parts(ActivityId::KTABLES),
{
    reveal(is_in_parts);
    reveal(ktables_model);
}

proof fn lemma_parts_queue()
    ensures
        is_in_parts(ActivityId::QUEUE),
{
    reveal(is_in_parts);
    reveal(queue_model);
}

proof fn lemma_parts_serial()
    ensures
        is_in_parts(ActivityId::SERIAL),
{
    reveal(is_in_parts);
    reveal(serial_model);
}

proof fn lemma_parts_disk()
    ensures
        is_in_parts(ActivityId::DISK),
{
    reveal(is_in_parts);
    reveal(disk_model);
}

proof fn lemma_parts_net_dev()
    ensures
        is_in_parts(ActivityId::NET_DEV),
{
    reveal(is_in_parts);
    reveal(net_dev_model);
}

proof fn lemma_parts_net_edev()
    ensures
        is_in_parts(ActivityId::NET_EDEV),
{
    reveal(is_in_parts);
    reveal(net_edev_model);
}

proof fn lemma_parts_net_nfs()
    ensures
        is_in_parts(ActivityId::NET_NFS),
{
    reveal(is_in_parts);
    reveal(net_nfs_model);
}

proof fn lemma_parts_net_nfsd()
    ensures
        is_in_parts(ActivityId::NET_NFSD),
{
    reveal(is_in_parts);
    reveal(net_nfsd_model);
}

proof fn lemma_parts_net_sock()
    ensures
        is_in_parts(ActivityId::NET_SOCK),
{
    reveal(is_in_parts);
    reveal(net_sock_model);
}

proof fn lemma_parts_net_ip()
    ensures
        is_in_parts(ActivityId::NET_IP),
{
    reveal(is_in_parts);
    reveal(net_ip_model);
}

proof fn lemma_parts_net_eip()
    ensures
        is_in_parts(ActivityId::NET_EIP),
{
    reveal(is_in_parts);
    reveal(net_eip_model);
}

proof fn lemma_parts_net_icmp()
    ensures
        is_in_parts(ActivityId::NET_ICMP),
{
    reveal(is_in_parts);
    reveal(net_icmp_model);
}

proof fn lemma_parts_net_eicmp()
    ensures
        is_in_parts(ActivityId::NET_EICMP),
{
    reveal(is_in_parts);
    reveal(net_eicmp_model);
}

proof fn lemma_parts_net_tcp()
    ensures
        is_in_parts(ActivityId::NET_TCP),
{
    reveal(is_in_parts);
    reveal(net_tcp_model);
}

proof fn lemma_parts_net_etcp()
    ensures
        is_in_parts(ActivityId::NET_ETCP),
{
    reveal(is_in_parts);
    reveal(net_etcp_model);
}

proof fn lemma_parts_net_udp()
    ensures
        is_in_parts(ActivityId::NET_UDP),
{
    reveal(is_in_parts);
    reveal(net_udp_model);
}

proof fn lemma_parts_net_sock6()
    ensures
        is_in_parts(ActivityId::NET_SOCK6),
{
    reveal(is_in_parts);
    reveal(net_sock6_model);
}

proof fn lemma_parts_net_ip6()
    ensures
        is_in_parts(ActivityId::NET_IP6),
{
    reveal(is_in_parts);
    reveal(net_ip6_model);
}

proof fn lemma_parts_net_eip6()
    ensures
        is_in_parts(ActivityId::NET_EIP6),
{
    reveal(is_in_parts);
    reveal(net_eip6_model);
}

proof fn lemma_parts_net_icmp6()
    ensures
        is_in_parts(ActivityId::NET_ICMP6),
{
    reveal(is_in_parts);
    reveal(net_icmp6_model);
}

proof fn lemma_parts_net_eicmp6()
    ensures
        is_in_parts(ActivityId::NET_EICMP6),
{
    reveal(is_in_parts);
    reveal(net_eicmp6_model);
}

proof fn lemma_parts_net_udp6()
    ensures
        is_in_parts(ActivityId::NET_UDP6),
{
    reveal(is_in_parts);
    reveal(net_udp6_model);
}

proof fn lemma_parts_net_fc()
    ensures
        is_in_parts(ActivityId::NET_FC),
{
    reveal(is_in_parts);
    reveal(net_fc_model);
}

proof fn lemma_parts_net_soft()
    ensures
        is_in_parts(ActivityId::NET_SOFT),
{
    reveal(is_in_parts);
    reveal(net_soft_model);
}

proof fn lemma_parts_pwr_cpu()
    ensures
        is_in_parts(ActivityId::PWR_CPU),
{
    reveal(is_in_parts);
    reveal(pwr_cpu_model);
}

proof fn lemma_parts_pwr_fan()
    ensures
        is_in_parts(ActivityId::PWR_FAN),
{
    reveal(is_in_parts);
    reveal(pwr_fan_model);
}

proof fn lemma_parts_pwr_temp()
    ensures
        is_in_parts(ActivityId::PWR_TEMP),
{
    reveal(is_in_parts);
    reveal(pwr_temp_model);
}

proof fn lemma_parts_pwr_in()
    ensures
        is_in_parts(ActivityId::PWR_IN),
{
    reveal(is_in_parts);
    reveal(pwr_in_model);
}

proof fn lemma_parts_pwr_freq()
    ensures
        is_in_parts(ActivityId::PWR_FREQ),
{
    reveal(is_in_parts);
    reveal(pwr_freq_model);
}

proof fn lemma_parts_pwr_bat()
    ensures
        is_in_parts(ActivityId::PWR_BAT),
{
    reveal(is_in_parts);
    reveal(pwr_bat_model);
}

proof fn lemma_parts_pwr_usb()
    ensures
        is_in_parts(ActivityId::PWR_USB),
{
    reveal(is_in_parts);
    reveal(pwr_usb_model);
}

proof fn lemma_parts_fs()
    ensures
        is_in_parts(ActivityId::FS),
{
    reveal(is_in_parts);
    reveal(fs_model);
}

proof fn lemma_parts_psi_cpu()
    ensures
        is_in_parts(ActivityId::PSI_CPU),
{
    reveal(is_in_parts);
    reveal(psi_cpu_model);
}

proof fn lemma_parts_psi_io()
    ensures
        is_in_parts(ActivityId::PSI_IO),
{
    reveal(is_in_parts);
    reveal(psi_io_model);
}

proof fn lemma_parts_psi_mem()
    ensures
        is_in_parts(ActivityId::PSI_MEM),
{
    reveal(is_in_parts);
    reveal(psi_mem_model);
}

/// Each part of an activity is shown with the option that it belongs to.
pub proof fn law_parts_are_shown_with_their_options(id: ActivityId)
    ensures
        is_in_parts(id),
{
    match id {
        ActivityId::CPU => lemma_parts_cpu(),
        ActivityId::PCSW => lemma_parts_pcsw(),
        ActivityId::IRQ => lemma_parts_irq(),
        ActivityId::SWAP => lemma_parts_swap(),
        ActivityId::PAGE => lemma_parts_page(),
        ActivityId::IO => lemma_parts_io(),
        ActivityId::MEMORY => lemma_parts_memory(),
        ActivityId::HUGE => lemma_parts_huge(),
        ActivityId::KTABLES => lemma_parts_ktables(),
        ActivityId::QUEUE => lemma_parts_queue(),
        ActivityId::SERIAL => lemma_parts_serial(),
        ActivityId::DISK => lemma_parts_disk(),
        ActivityId::NET_DEV => lemma_parts_net_dev(),
        ActivityId::NET_EDEV => lemma_parts_net_edev(),
        ActivityId::NET_NFS => lemma_parts_net_nfs(),
        ActivityId::NET_NFSD => lemma_parts_net_nfsd(),
        ActivityId::NET_SOCK => lemma_parts_net_sock(),
        ActivityId::NET_IP => lemma_parts_net_ip(),
        ActivityId::NET_EIP => lemma_parts_net_eip(),
        ActivityId::NET_ICMP => lemma_parts_net_icmp(),
        ActivityId::NET_EICMP => lemma_parts_net_eicmp(),
        ActivityId::NET_TCP => lemma_parts_net_tcp(),
        ActivityId::NET_ETCP => lemma_parts_net_etcp(),
        ActivityId::NET_UDP => lemma_parts_net_udp(),
        ActivityId::NET_SOCK6 => lemma_parts_net_sock6(),
        ActivityId::NET_IP6 => lemma_parts_net_ip6(),
        ActivityId::NET_EIP6 => lemma_parts_net_eip6(),
        ActivityId::NET_ICMP6 => lemma_parts_net_icmp6(),
        ActivityId::NET_EICMP6 => lemma_parts_net_eicmp6(),
        ActivityId::NET_UDP6 => lemma_parts_net_udp6(),
        ActivityId::NET_FC => lemma_parts_net_fc(),
        ActivityId::NET_SOFT => lemma_parts_net_soft(),
        ActivityId::PWR_CPU => lemma_parts_pwr_cpu(),
        ActivityId::PWR_FAN => lemma_parts_pwr_fan(),
        ActivityId::PWR_TEMP => lemma_parts_pwr_temp(),
        ActivityId::PWR_IN => lemma_parts_pwr_in(),
        ActivityId::PWR_FREQ => lemma_parts_pwr_freq(),
        ActivityId::PWR_BAT => lemma_parts_pwr_bat(),
        ActivityId::PWR_USB => lemma_parts_pwr_usb(),
        ActivityId::FS => lemma_parts_fs(),
        ActivityId::PSI_CPU => lemma_parts_psi_cpu(),
        ActivityId::PSI_IO => lemma_parts_psi_io(),
        ActivityId::PSI_MEM => lemma_parts_psi_mem(),
        _ => {
            reveal(is_in_parts);
        },
    }
}

}
