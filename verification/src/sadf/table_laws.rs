//! What holds of the tables.

use vstd::prelude::*;

use crate::model::ActivityId;
use crate::sadf::activities::{
    cpu_model, disk_model, fs_model, huge_model, io_model, irq_model, ktables_model, memory_model,
    net_dev_model, net_edev_model, net_eicmp6_model, net_eicmp_model, net_eip6_model,
    net_eip_model, net_etcp_model, net_fc_model, net_icmp6_model, net_icmp_model, net_ip6_model,
    net_ip_model, net_nfs_model, net_nfsd_model, net_sock6_model, net_sock_model, net_soft_model,
    net_tcp_model, net_udp6_model, net_udp_model, page_model, pcsw_model, psi_cpu_model,
    psi_io_model, psi_mem_model, pwr_bat_model, pwr_cpu_model, pwr_fan_model, pwr_freq_model,
    pwr_in_model, pwr_temp_model, pwr_usb_model, queue_model, serial_model, swap_model,
};
use crate::sadf::render::ordered;
use crate::sadf::table::{act_order, id_order, table, Group, SectionModel, SpecModel};

verus! {

/// Whether the order of a section has each of its fields once.
pub open spec fn is_permutation(section: SectionModel) -> bool {
    &&& section.jx_order.len() == section.fields.len()
    &&& ordered(section)
    &&& forall|i: int, j: int|
        0 <= i < j < section.jx_order.len() ==> section.jx_order[i] != section.jx_order[j]
}

/// Whether the orders of all sections name fields only.
pub open spec fn all_ordered(m: SpecModel) -> bool {
    forall|k: int| 0 <= k < m.sections.len() ==> #[trigger] ordered(m.sections[k])
}

/// A section without an order of its own shows its fields as they stand; any other has each of
/// its fields once.
pub proof fn law_field_order(id: ActivityId)
    ensures
        table(id) matches Some(m) ==> all_ordered(m) && forall|k: int|
            0 <= k < m.sections.len() ==> (#[trigger] m.sections[k]).jx_order.len() == 0
                || is_permutation(m.sections[k]),
{
    reveal(cpu_model);
    reveal(pcsw_model);
    reveal(irq_model);
    reveal(swap_model);
    reveal(page_model);
    reveal(io_model);
    reveal(memory_model);
    reveal(huge_model);
    reveal(ktables_model);
    reveal(queue_model);
    reveal(serial_model);
    reveal(disk_model);
    reveal(net_dev_model);
    reveal(net_edev_model);
    reveal(net_nfs_model);
    reveal(net_nfsd_model);
    reveal(net_sock_model);
    reveal(net_ip_model);
    reveal(net_eip_model);
    reveal(net_icmp_model);
    reveal(net_eicmp_model);
    reveal(net_tcp_model);
    reveal(net_etcp_model);
    reveal(net_udp_model);
    reveal(net_sock6_model);
    reveal(net_ip6_model);
    reveal(net_eip6_model);
    reveal(net_icmp6_model);
    reveal(net_eicmp6_model);
    reveal(net_udp6_model);
    reveal(net_fc_model);
    reveal(net_soft_model);
    reveal(pwr_cpu_model);
    reveal(pwr_fan_model);
    reveal(pwr_temp_model);
    reveal(pwr_in_model);
    reveal(pwr_freq_model);
    reveal(pwr_bat_model);
    reveal(pwr_usb_model);
    reveal(fs_model);
    reveal(psi_cpu_model);
    reveal(psi_io_model);
    reveal(psi_mem_model);
}

/// The group of the activity at a position.
pub open spec fn group_at(i: int) -> Group {
    match table(act_order()[i]) {
        Some(m) => m.group,
        None => Group::Ungrouped,
    }
}

/// Whether the group ends with the activity at a position.
pub open spec fn closes_at(i: int) -> bool {
    match table(act_order()[i]) {
        Some(m) => m.closes_group,
        None => false,
    }
}

proof fn lemma_groups(i: int)
    requires
        0 <= i < 43,
    ensures
        group_at(i) == (if 12 <= i < 32 {
            Group::Network
        } else if 32 <= i < 39 {
            Group::PowerManagement
        } else if i >= 40 {
            Group::Psi
        } else {
            Group::Ungrouped
        }),
        closes_at(i) == (i == 31 || i == 38 || i == 42),
{
    reveal(cpu_model);
    reveal(pcsw_model);
    reveal(irq_model);
    reveal(swap_model);
    reveal(page_model);
    reveal(io_model);
    reveal(memory_model);
    reveal(huge_model);
    reveal(ktables_model);
    reveal(queue_model);
    reveal(serial_model);
    reveal(disk_model);
    reveal(net_dev_model);
    reveal(net_edev_model);
    reveal(net_nfs_model);
    reveal(net_nfsd_model);
    reveal(net_sock_model);
    reveal(net_ip_model);
    reveal(net_eip_model);
    reveal(net_icmp_model);
    reveal(net_eicmp_model);
    reveal(net_tcp_model);
    reveal(net_etcp_model);
    reveal(net_udp_model);
    reveal(net_sock6_model);
    reveal(net_ip6_model);
    reveal(net_eip6_model);
    reveal(net_icmp6_model);
    reveal(net_eicmp6_model);
    reveal(net_udp6_model);
    reveal(net_fc_model);
    reveal(net_soft_model);
    reveal(pwr_cpu_model);
    reveal(pwr_fan_model);
    reveal(pwr_temp_model);
    reveal(pwr_in_model);
    reveal(pwr_freq_model);
    reveal(pwr_bat_model);
    reveal(pwr_usb_model);
    reveal(fs_model);
    reveal(psi_cpu_model);
    reveal(psi_io_model);
    reveal(psi_mem_model);
}

/// The activities of a group stand together, and the last of them, and no other, ends it.
pub proof fn law_groups_stand_together(i: int, j: int, k: int)
    requires
        0 <= i <= j <= k < act_order().len(),
        group_at(i) == group_at(k),
        group_at(i) != Group::Ungrouped,
    ensures
        group_at(j) == group_at(i),
        closes_at(i) == (i + 1 == act_order().len() || group_at(i + 1) != group_at(i)),
{
    lemma_groups(i);
    lemma_groups(j);
    lemma_groups(k);
    if i + 1 < 43 {
        lemma_groups(i + 1);
    }
}

/// Each known activity has one place in each of the two orders.
pub proof fn law_orders_hold_each_activity_once(id: ActivityId)
    requires
        id.known(),
    ensures
        exists|i: int| 0 <= i < act_order().len() && act_order()[i] == id,
        exists|i: int| 0 <= i < id_order().len() && id_order()[i] == id,
        forall|i: int, j: int|
            0 <= i < j < act_order().len() ==> act_order()[i] != act_order()[j],
        forall|i: int, j: int| 0 <= i < j < id_order().len() ==> id_order()[i] != id_order()[j],
{
    let (a, b) = place_of(id);
    assert(act_order()[a] == id);
    assert(id_order()[b] == id);
    assert forall|i: int, j: int| 0 <= i < j < act_order().len() implies act_order()[i]
        != act_order()[j] by {
        assert(place_of(act_order()[i]).0 == i);
        assert(place_of(act_order()[j]).0 == j);
    }
    assert forall|i: int, j: int| 0 <= i < j < id_order().len() implies id_order()[i]
        != id_order()[j] by {
        assert(place_of(id_order()[i]).1 == i);
        assert(place_of(id_order()[j]).1 == j);
    }
}

/// Where an activity stands in the two orders.
spec fn place_of(id: ActivityId) -> (int, int) {
    match id {
        ActivityId::CPU => (0, 0),
        ActivityId::PCSW => (1, 1),
        ActivityId::IRQ => (2, 2),
        ActivityId::SWAP => (3, 3),
        ActivityId::PAGE => (4, 4),
        ActivityId::IO => (5, 5),
        ActivityId::MEMORY => (6, 6),
        ActivityId::HUGE => (7, 33),
        ActivityId::KTABLES => (8, 7),
        ActivityId::QUEUE => (9, 8),
        ActivityId::SERIAL => (10, 9),
        ActivityId::DISK => (11, 10),
        ActivityId::NET_DEV => (12, 11),
        ActivityId::NET_EDEV => (13, 12),
        ActivityId::NET_NFS => (14, 13),
        ActivityId::NET_NFSD => (15, 14),
        ActivityId::NET_SOCK => (16, 15),
        ActivityId::NET_IP => (17, 16),
        ActivityId::NET_EIP => (18, 17),
        ActivityId::NET_ICMP => (19, 18),
        ActivityId::NET_EICMP => (20, 19),
        ActivityId::NET_TCP => (21, 20),
        ActivityId::NET_ETCP => (22, 21),
        ActivityId::NET_UDP => (23, 22),
        ActivityId::NET_SOCK6 => (24, 23),
        ActivityId::NET_IP6 => (25, 24),
        ActivityId::NET_EIP6 => (26, 25),
        ActivityId::NET_ICMP6 => (27, 26),
        ActivityId::NET_EICMP6 => (28, 27),
        ActivityId::NET_UDP6 => (29, 28),
        ActivityId::NET_FC => (30, 37),
        ActivityId::NET_SOFT => (31, 38),
        ActivityId::PWR_CPU => (32, 29),
        ActivityId::PWR_FAN => (33, 30),
        ActivityId::PWR_TEMP => (34, 31),
        ActivityId::PWR_IN => (35, 32),
        ActivityId::PWR_FREQ => (36, 34),
        ActivityId::PWR_BAT => (37, 42),
        ActivityId::PWR_USB => (38, 35),
        ActivityId::FS => (39, 36),
        ActivityId::PSI_CPU => (40, 39),
        ActivityId::PSI_IO => (41, 40),
        ActivityId::PSI_MEM => (42, 41),
        ActivityId::Unknown(_) => (-1, -1),
    }
}

}
