//! Which column of a report stands below each heading, how its values are written, and how its
//! averages come about.

use vstd::prelude::*;

use crate::doc::SarUnit;
use crate::model::ActivityId;
use crate::sar_text::header::{
    column, has_star, header_text, section_columns, star_columns, star_text, token_columns,
    usb_header_text, StarLabel, MANUFACTURER_WIDTH, STAMP_WIDTH,
};
use crate::sar_text::layout::{
    activity_models, AvgKind, Cell, ColSpec, CPU_HDR, DISK_HDR, FS_HDR, HUGE_HDR, IO_HDR,
    KTABLES_HDR, MEMORY_HDR, NET_DEV_HDR, NET_EDEV_HDR, NET_EICMP6_HDR, NET_EICMP_HDR,
    NET_EIP6_HDR, NET_EIP_HDR, NET_ETCP_HDR, NET_FC_HDR, NET_ICMP6_HDR, NET_ICMP_HDR, NET_IP6_HDR,
    NET_IP_HDR, NET_NFSD_HDR, NET_NFS_HDR, NET_SOCK6_HDR, NET_SOCK_HDR, NET_SOFT_HDR, NET_TCP_HDR,
    NET_UDP6_HDR, NET_UDP_HDR, PAGE_HDR, PCSW_HDR, PSI_CPU_HDR, PSI_IO_HDR, PSI_MEM_HDR,
    PWR_BAT_HDR, PWR_CPU_HDR, PWR_FAN_HDR, PWR_FREQ_HDR, PWR_IN_HDR, PWR_TEMP_HDR, QUEUE_HDR,
    SERIAL_HDR, SWAP_HDR,
};
use crate::sar_text::options::SarTextOptions;
use crate::text::{dec, left_padded, right_padded, split};
use crate::text_laws::{
    aligned, joined_by, lacks, law_find_is_the_first_place, law_padding_keeps_the_text,
    law_splitting_undoes_joining, lemma_decimals_are_ascii, lemma_find_none, lemma_joined_lacks,
};

verus! {

/// What stands below a heading: the number of the column, how a value and an average of it are
/// written, and how the average comes about.
pub struct Titled {
    pub name: &'static str,
    pub column: usize,
    pub shown: Cell,
    pub averaged: Cell,
    pub kind: AvgKind,
    pub in_average: bool,
}

/// A rate over time, with two decimals.
pub open spec fn per_second(name: &'static str, column: usize) -> Titled {
    let cell = Cell::Float { wd: 2, sign: false };
    Titled { name, column, shown: cell, averaged: cell, kind: AvgKind::Rate, in_average: true }
}

/// A share of time, as a percentage with two decimals.
pub open spec fn share_of_time(name: &'static str, column: usize) -> Titled {
    let cell = Cell::Percent { wd: 2 };
    Titled { name, column, shown: cell, averaged: cell, kind: AvgKind::Rate, in_average: true }
}

/// A rate of kilobytes, with two decimals.
pub open spec fn kb_per_second(name: &'static str, column: usize) -> Titled {
    let cell = Cell::FloatUnit { wd: 2, unit: SarUnit::Kilobyte, plain_div: 1 };
    Titled { name, column, shown: cell, averaged: cell, kind: AvgKind::Rate, in_average: true }
}

/// A rate of bytes that is shown in kilobytes, with two decimals.
pub open spec fn bytes_per_second(name: &'static str, column: usize) -> Titled {
    let cell = Cell::FloatUnit { wd: 2, unit: SarUnit::Byte, plain_div: 1024 };
    Titled { name, column, shown: cell, averaged: cell, kind: AvgKind::Rate, in_average: true }
}

/// An amount in kilobytes with its mean.
pub open spec fn kb_amount(name: &'static str, column: usize) -> Titled {
    Titled {
        name,
        column,
        shown: Cell::IntUnit { unit: SarUnit::Kilobyte, plain_div: 1 },
        averaged: Cell::FloatUnit { wd: 0, unit: SarUnit::Kilobyte, plain_div: 1 },
        kind: AvgKind::Mean,
        in_average: true,
    }
}

/// An amount in kilobytes that comes from other amounts.
pub open spec fn kb_derived(name: &'static str, column: usize) -> Titled {
    Titled { kind: AvgKind::MeanRatio, ..kb_amount(name, column) }
}

/// A whole number with its mean.
pub open spec fn number(name: &'static str, column: usize) -> Titled {
    Titled {
        name,
        column,
        shown: Cell::Int,
        averaged: Cell::Float { wd: 0, sign: false },
        kind: AvgKind::Mean,
        in_average: true,
    }
}

/// A value with two decimals and its mean.
pub open spec fn measured(name: &'static str, column: usize) -> Titled {
    let cell = Cell::Float { wd: 2, sign: false };
    Titled { name, column, shown: cell, averaged: cell, kind: AvgKind::Mean, in_average: true }
}

/// A percentage with its mean.
pub open spec fn percentage(name: &'static str, column: usize) -> Titled {
    let cell = Cell::Percent { wd: 2 };
    Titled { name, column, shown: cell, averaged: cell, kind: AvgKind::Mean, in_average: true }
}

/// A share of an amount, whose average is the share of the means.
pub open spec fn share(name: &'static str, column: usize) -> Titled {
    let cell = Cell::Percent { wd: 2 };
    Titled { name, column, shown: cell, averaged: cell, kind: AvgKind::MeanRatio, in_average: true }
}

/// A column whose last value stands for all.
pub open spec fn latest(name: &'static str, column: usize, cell: Cell) -> Titled {
    Titled { name, column, shown: cell, averaged: cell, kind: AvgKind::Last, in_average: true }
}

/// Megabytes that are counted in bytes.
pub open spec fn megabytes() -> Cell {
    Cell::FloatUnit { wd: 0, unit: SarUnit::Byte, plain_div: 1_048_576 }
}

/// Whether columns are those of a list, in its order.
pub open spec fn are_titled(cells: Seq<ColSpec>, list: Seq<Titled>) -> bool {
    &&& cells.len() == list.len()
    &&& forall|i: int|
        #![trigger cells[i]]
        0 <= i < cells.len() ==> {
            &&& cells[i].col == list[i].column
            &&& cells[i].cell == list[i].shown
            &&& cells[i].avg_cell == list[i].averaged
            &&& cells[i].avg == list[i].kind
            &&& cells[i].in_average == list[i].in_average
        }
}

/// The names of a list.
pub open spec fn names_of(list: Seq<Titled>) -> Seq<Seq<char>> {
    Seq::new(list.len(), |i: int| list[i].name@)
}

pub open spec fn cpu_brief_titles() -> Seq<Titled> {
    seq![
        share_of_time("%user", 0),
        share_of_time("%nice", 1),
        share_of_time("%system", 2),
        share_of_time("%iowait", 3),
        share_of_time("%steal", 4),
        share_of_time("%idle", 5),
    ]
}

pub open spec fn cpu_full_titles() -> Seq<Titled> {
    seq![
        share_of_time("%usr", 6),
        share_of_time("%nice", 7),
        share_of_time("%sys", 8),
        share_of_time("%iowait", 3),
        share_of_time("%steal", 4),
        share_of_time("%irq", 9),
        share_of_time("%soft", 10),
        share_of_time("%guest", 11),
        share_of_time("%gnice", 12),
        share_of_time("%idle", 5),
    ]
}

pub open spec fn memory_titles() -> Seq<Titled> {
    seq![
        kb_amount("kbmemfree", 0),
        kb_amount("kbavail", 1),
        kb_derived("kbmemused", 2),
        share("%memused", 3),
        kb_amount("kbbuffers", 4),
        kb_amount("kbcached", 5),
        kb_amount("kbcommit", 6),
        share("%commit", 7),
        kb_amount("kbactive", 8),
        kb_amount("kbinact", 9),
        kb_amount("kbdirty", 10),
        kb_amount("kbshmem", 11),
    ]
}

pub open spec fn memory_full_titles() -> Seq<Titled> {
    seq![
        kb_amount("kbmemfree", 0),
        kb_amount("kbavail", 1),
        kb_derived("kbmemused", 2),
        share("%memused", 3),
        kb_amount("kbbuffers", 4),
        kb_amount("kbcached", 5),
        kb_amount("kbcommit", 6),
        share("%commit", 7),
        kb_amount("kbactive", 8),
        kb_amount("kbinact", 9),
        kb_amount("kbdirty", 10),
        kb_amount("kbshmem", 11),
        kb_amount("kbanonpg", 12),
        kb_amount("kbslab", 13),
        kb_amount("kbkstack", 14),
        kb_amount("kbpgtbl", 15),
        kb_amount("kbvmused", 16),
    ]
}

pub open spec fn swap_space_titles() -> Seq<Titled> {
    seq![
        kb_amount("kbswpfree", 18),
        kb_derived("kbswpused", 19),
        share("%swpused", 20),
        kb_amount("kbswpcad", 21),
        share("%swpcad", 22),
    ]
}

pub open spec fn queue_titles() -> Seq<Titled> {
    seq![
        number("runq-sz", 0),
        number("plist-sz", 1),
        measured("ldavg-1", 2),
        measured("ldavg-5", 3),
        measured("ldavg-15", 4),
        number("blocked", 5),
    ]
}

pub open spec fn serial_titles() -> Seq<Titled> {
    seq![
        per_second("rcvin/s", 1),
        per_second("xmtin/s", 2),
        per_second("framerr/s", 3),
        per_second("prtyerr/s", 4),
        per_second("brk/s", 5),
        per_second("ovrun/s", 6),
    ]
}

pub open spec fn disk_titles() -> Seq<Titled> {
    seq![
        per_second("tps", 2),
        kb_per_second("rkB/s", 3),
        kb_per_second("wkB/s", 4),
        kb_per_second("dkB/s", 5),
        kb_per_second("areq-sz", 6),
        per_second("aqu-sz", 7),
        per_second("await", 8),
        share_of_time("%util", 9),
    ]
}

pub open spec fn net_dev_titles() -> Seq<Titled> {
    seq![
        per_second("rxpck/s", 1),
        per_second("txpck/s", 2),
        bytes_per_second("rxkB/s", 3),
        bytes_per_second("txkB/s", 4),
        per_second("rxcmp/s", 5),
        per_second("txcmp/s", 6),
        per_second("rxmcst/s", 7),
        share_of_time("%ifutil", 8),
    ]
}

pub open spec fn net_edev_titles() -> Seq<Titled> {
    seq![
        per_second("rxerr/s", 1),
        per_second("txerr/s", 2),
        per_second("coll/s", 3),
        per_second("rxdrop/s", 4),
        per_second("txdrop/s", 5),
        per_second("txcarr/s", 6),
        per_second("rxfram/s", 7),
        per_second("rxfifo/s", 8),
        per_second("txfifo/s", 9),
    ]
}

pub open spec fn pwr_cpu_titles() -> Seq<Titled> {
    seq![
        measured("MHz", 0),
    ]
}

pub open spec fn fan_titles() -> Seq<Titled> {
    seq![
        measured("rpm", 0),
        measured("drpm", 1),
    ]
}

pub open spec fn temp_titles() -> Seq<Titled> {
    seq![
        measured("degC", 0),
        share("%temp", 1),
    ]
}

pub open spec fn voltage_titles() -> Seq<Titled> {
    seq![
        measured("inV", 0),
        share("%in", 1),
    ]
}

pub open spec fn huge_titles() -> Seq<Titled> {
    seq![
        kb_amount("kbhugfree", 0),
        kb_derived("kbhugused", 1),
        share("%hugused", 2),
        kb_amount("kbhugrsvd", 3),
        kb_amount("kbhugsurp", 4),
    ]
}

pub open spec fn freq_titles() -> Seq<Titled> {
    seq![
        per_second("wghMHz", 0),
    ]
}

pub open spec fn fs_device_titles() -> Seq<Titled> {
    seq![
        latest("MBfsfree", 0, megabytes()),
        latest("MBfsused", 1, megabytes()),
        latest("%fsused", 2, Cell::Percent { wd: 2 }),
        latest("%ufsused", 3, Cell::Percent { wd: 2 }),
        latest("Ifree", 4, Cell::Int),
        latest("Iused", 5, Cell::Int),
        latest("%Iused", 6, Cell::Percent { wd: 2 }),
    ]
}

pub open spec fn fs_mount_titles() -> Seq<Titled> {
    seq![
        latest("MBfsfree", 0, megabytes()),
        latest("MBfsused", 1, megabytes()),
        latest("%fsused", 2, Cell::Percent { wd: 2 }),
        latest("%ufsused", 3, Cell::Percent { wd: 2 }),
        latest("Ifree", 4, Cell::Int),
        latest("Iused", 5, Cell::Int),
        latest("%Iused", 6, Cell::Percent { wd: 2 }),
    ]
}

pub open spec fn net_fc_titles() -> Seq<Titled> {
    seq![
        per_second("fch_rxf/s", 1),
        per_second("fch_txf/s", 2),
        per_second("fch_rxw/s", 3),
        per_second("fch_txw/s", 4),
    ]
}

pub open spec fn net_soft_titles() -> Seq<Titled> {
    seq![
        per_second("total/s", 0),
        per_second("dropd/s", 1),
        per_second("squeezd/s", 2),
        per_second("rx_rps/s", 3),
        per_second("flw_lim/s", 4),
        number("blg_len", 5),
    ]
}

pub open spec fn psi_cpu_titles() -> Seq<Titled> {
    seq![
        percentage("%scpu-10", 0),
        percentage("%scpu-60", 1),
        percentage("%scpu-300", 2),
        share_of_time("%scpu", 3),
    ]
}

pub open spec fn psi_io_titles() -> Seq<Titled> {
    seq![
        percentage("%sio-10", 0),
        percentage("%sio-60", 1),
        percentage("%sio-300", 2),
        share_of_time("%sio", 3),
        percentage("%fio-10", 4),
        percentage("%fio-60", 5),
        percentage("%fio-300", 6),
        share_of_time("%fio", 7),
    ]
}

pub open spec fn psi_mem_titles() -> Seq<Titled> {
    seq![
        percentage("%smem-10", 0),
        percentage("%smem-60", 1),
        percentage("%smem-300", 2),
        share_of_time("%smem", 3),
        percentage("%fmem-10", 4),
        percentage("%fmem-60", 5),
        percentage("%fmem-300", 6),
        share_of_time("%fmem", 7),
    ]
}

pub open spec fn bat_titles() -> Seq<Titled> {
    seq![
        Titled { shown: Cell::Percent { wd: 0 }, ..percentage("%cap", 1) },
        Titled {
            shown: Cell::Float { wd: 2, sign: true },
            averaged: Cell::Float { wd: 2, sign: true },
            ..per_second("cap/min", 2)
        },
        Titled { in_average: false, ..latest("status", 3, Cell::BatStatus) },
    ]
}

pub open spec fn pcsw_titles() -> Seq<Titled> {
    seq![
        per_second("proc/s", 0),
        per_second("cswch/s", 1),
    ]
}

pub open spec fn swap_titles() -> Seq<Titled> {
    seq![
        per_second("pswpin/s", 0),
        per_second("pswpout/s", 1),
    ]
}

pub open spec fn page_titles() -> Seq<Titled> {
    seq![
        per_second("pgpgin/s", 0),
        per_second("pgpgout/s", 1),
        per_second("fault/s", 2),
        per_second("majflt/s", 3),
        per_second("pgfree/s", 4),
        per_second("pgscank/s", 5),
        per_second("pgscand/s", 6),
        per_second("pgsteal/s", 7),
        per_second("pgprom/s", 8),
        per_second("pgdem/s", 9),
    ]
}

pub open spec fn io_titles() -> Seq<Titled> {
    seq![
        per_second("tps", 0),
        per_second("rtps", 1),
        per_second("wtps", 2),
        per_second("dtps", 3),
        per_second("bread/s", 4),
        per_second("bwrtn/s", 5),
        per_second("bdscd/s", 6),
    ]
}

pub open spec fn net_nfs_titles() -> Seq<Titled> {
    seq![
        per_second("call/s", 0),
        per_second("retrans/s", 1),
        per_second("read/s", 2),
        per_second("write/s", 3),
        per_second("access/s", 4),
        per_second("getatt/s", 5),
    ]
}

pub open spec fn net_nfsd_titles() -> Seq<Titled> {
    seq![
        per_second("scall/s", 0),
        per_second("badcall/s", 1),
        per_second("packet/s", 2),
        per_second("udp/s", 3),
        per_second("tcp/s", 4),
        per_second("hit/s", 5),
        per_second("miss/s", 6),
        per_second("sread/s", 7),
        per_second("swrite/s", 8),
        per_second("saccess/s", 9),
        per_second("sgetatt/s", 10),
    ]
}

pub open spec fn net_ip_titles() -> Seq<Titled> {
    seq![
        per_second("irec/s", 0),
        per_second("fwddgm/s", 1),
        per_second("idel/s", 2),
        per_second("orq/s", 3),
        per_second("asmrq/s", 4),
        per_second("asmok/s", 5),
        per_second("fragok/s", 6),
        per_second("fragcrt/s", 7),
    ]
}

pub open spec fn net_eip_titles() -> Seq<Titled> {
    seq![
        per_second("ihdrerr/s", 0),
        per_second("iadrerr/s", 1),
        per_second("iukwnpr/s", 2),
        per_second("idisc/s", 3),
        per_second("odisc/s", 4),
        per_second("onort/s", 5),
        per_second("asmf/s", 6),
        per_second("fragf/s", 7),
    ]
}

pub open spec fn net_icmp_titles() -> Seq<Titled> {
    seq![
        per_second("imsg/s", 0),
        per_second("omsg/s", 1),
        per_second("iech/s", 2),
        per_second("iechr/s", 3),
        per_second("oech/s", 4),
        per_second("oechr/s", 5),
        per_second("itm/s", 6),
        per_second("itmr/s", 7),
        per_second("otm/s", 8),
        per_second("otmr/s", 9),
        per_second("iadrmk/s", 10),
        per_second("iadrmkr/s", 11),
        per_second("oadrmk/s", 12),
        per_second("oadrmkr/s", 13),
    ]
}

pub open spec fn net_eicmp_titles() -> Seq<Titled> {
    seq![
        per_second("ierr/s", 0),
        per_second("oerr/s", 1),
        per_second("idstunr/s", 2),
        per_second("odstunr/s", 3),
        per_second("itmex/s", 4),
        per_second("otmex/s", 5),
        per_second("iparmpb/s", 6),
        per_second("oparmpb/s", 7),
        per_second("isrcq/s", 8),
        per_second("osrcq/s", 9),
        per_second("iredir/s", 10),
        per_second("oredir/s", 11),
    ]
}

pub open spec fn net_tcp_titles() -> Seq<Titled> {
    seq![
        per_second("active/s", 0),
        per_second("passive/s", 1),
        per_second("iseg/s", 2),
        per_second("oseg/s", 3),
    ]
}

pub open spec fn net_etcp_titles() -> Seq<Titled> {
    seq![
        per_second("atmptf/s", 0),
        per_second("estres/s", 1),
        per_second("retrseg/s", 2),
        per_second("isegerr/s", 3),
        per_second("orsts/s", 4),
    ]
}

pub open spec fn net_udp_titles() -> Seq<Titled> {
    seq![
        per_second("idgm/s", 0),
        per_second("odgm/s", 1),
        per_second("noport/s", 2),
        per_second("idgmerr/s", 3),
    ]
}

pub open spec fn net_ip6_titles() -> Seq<Titled> {
    seq![
        per_second("irec6/s", 0),
        per_second("fwddgm6/s", 1),
        per_second("idel6/s", 2),
        per_second("orq6/s", 3),
        per_second("asmrq6/s", 4),
        per_second("asmok6/s", 5),
        per_second("imcpck6/s", 6),
        per_second("omcpck6/s", 7),
        per_second("fragok6/s", 8),
        per_second("fragcr6/s", 9),
    ]
}

pub open spec fn net_eip6_titles() -> Seq<Titled> {
    seq![
        per_second("ihdrer6/s", 0),
        per_second("iadrer6/s", 1),
        per_second("iukwnp6/s", 2),
        per_second("i2big6/s", 3),
        per_second("idisc6/s", 4),
        per_second("odisc6/s", 5),
        per_second("inort6/s", 6),
        per_second("onort6/s", 7),
        per_second("asmf6/s", 8),
        per_second("fragf6/s", 9),
        per_second("itrpck6/s", 10),
    ]
}

pub open spec fn net_icmp6_titles() -> Seq<Titled> {
    seq![
        per_second("imsg6/s", 0),
        per_second("omsg6/s", 1),
        per_second("iech6/s", 2),
        per_second("iechr6/s", 3),
        per_second("oechr6/s", 4),
        per_second("igmbq6/s", 5),
        per_second("igmbr6/s", 6),
        per_second("ogmbr6/s", 7),
        per_second("igmbrd6/s", 8),
        per_second("ogmbrd6/s", 9),
        per_second("irtsol6/s", 10),
        per_second("ortsol6/s", 11),
        per_second("irtad6/s", 12),
        per_second("inbsol6/s", 13),
        per_second("onbsol6/s", 14),
        per_second("inbad6/s", 15),
        per_second("onbad6/s", 16),
    ]
}

pub open spec fn net_eicmp6_titles() -> Seq<Titled> {
    seq![
        per_second("ierr6/s", 0),
        per_second("idtunr6/s", 1),
        per_second("odtunr6/s", 2),
        per_second("itmex6/s", 3),
        per_second("otmex6/s", 4),
        per_second("iprmpb6/s", 5),
        per_second("oprmpb6/s", 6),
        per_second("iredir6/s", 7),
        per_second("oredir6/s", 8),
        per_second("ipck2b6/s", 9),
        per_second("opck2b6/s", 10),
    ]
}

pub open spec fn net_udp6_titles() -> Seq<Titled> {
    seq![
        per_second("idgm6/s", 0),
        per_second("odgm6/s", 1),
        per_second("noport6/s", 2),
        per_second("idgmer6/s", 3),
    ]
}

pub open spec fn ktables_titles() -> Seq<Titled> {
    seq![
        number("dentunusd", 0),
        number("file-nr", 1),
        number("inode-nr", 2),
        number("pty-nr", 3),
    ]
}

pub open spec fn net_sock_titles() -> Seq<Titled> {
    seq![
        number("totsck", 0),
        number("tcpsck", 1),
        number("udpsck", 2),
        number("rawsck", 3),
        number("ip-frag", 4),
        number("tcp-tw", 5),
    ]
}

pub open spec fn net_sock6_titles() -> Seq<Titled> {
    seq![
        number("tcp6sck", 0),
        number("udp6sck", 1),
        number("raw6sck", 2),
        number("ip6-frag", 3),
    ]
}

/// The columns of the interrupts: one for each CPU.
pub open spec fn irq_titles() -> Seq<Titled> {
    seq![per_second("CPU*", 0)]
}

/// The columns of the USB devices.
pub open spec fn usb_titles() -> Seq<Titled> {
    seq![
        latest("idvendor", 1, Cell::Hex),
        latest("idprod", 2, Cell::Hex),
        latest("maxpower", 3, Cell::Int),
    ]
}

/// The headings of a block: those of the items, and those of its columns.
pub struct Headings {
    pub items: Seq<Seq<char>>,
    pub columns: Seq<Titled>,
}

/// The headings of columns alone.
pub open spec fn alone(columns: Seq<Titled>) -> Headings {
    Headings { items: Seq::empty(), columns }
}

/// The headings of columns behind one or two headings of the items.
pub open spec fn behind(items: Seq<Seq<char>>, columns: Seq<Titled>) -> Headings {
    Headings { items, columns }
}

/// The headings of the block `i` of an activity.
pub open spec fn headings_of(id: ActivityId, opts: SarTextOptions, i: int) -> Headings {
    match id {
        ActivityId::CPU => behind(
            seq!["CPU"@],
            if opts.cpu_all {
                cpu_full_titles()
            } else {
                cpu_brief_titles()
            },
        ),
        ActivityId::MEMORY => if i == 0 && opts.shows_memory() {
            if opts.mem_all {
                alone(memory_full_titles())
            } else {
                alone(memory_titles())
            }
        } else {
            alone(swap_space_titles())
        },
        ActivityId::FS => if opts.mount {
            behind(seq!["MOUNTPOINT"@], fs_mount_titles())
        } else {
            behind(seq!["FILESYSTEM"@], fs_device_titles())
        },
        ActivityId::IRQ => behind(seq!["INTR"@], irq_titles()),
        ActivityId::PWR_USB => behind(seq!["BUS"@], usb_titles()),
        ActivityId::QUEUE => alone(queue_titles()),
        ActivityId::SERIAL => behind(seq!["TTY"@], serial_titles()),
        ActivityId::DISK => behind(seq!["DEV"@], disk_titles()),
        ActivityId::NET_DEV => behind(seq!["IFACE"@], net_dev_titles()),
        ActivityId::NET_EDEV => behind(seq!["IFACE"@], net_edev_titles()),
        ActivityId::PWR_CPU => behind(seq!["CPU"@], pwr_cpu_titles()),
        ActivityId::PWR_FAN => behind(seq!["FAN"@, "DEVICE"@], fan_titles()),
        ActivityId::PWR_TEMP => behind(seq!["TEMP"@, "DEVICE"@], temp_titles()),
        ActivityId::PWR_IN => behind(seq!["IN"@, "DEVICE"@], voltage_titles()),
        ActivityId::HUGE => alone(huge_titles()),
        ActivityId::PWR_FREQ => behind(seq!["CPU"@], freq_titles()),
        ActivityId::NET_FC => behind(seq!["FCHOST"@], net_fc_titles()),
        ActivityId::NET_SOFT => behind(seq!["CPU"@], net_soft_titles()),
        ActivityId::PSI_CPU => alone(psi_cpu_titles()),
        ActivityId::PSI_IO => alone(psi_io_titles()),
        ActivityId::PSI_MEM => alone(psi_mem_titles()),
        ActivityId::PWR_BAT => behind(seq!["BAT"@], bat_titles()),
        ActivityId::PCSW => alone(pcsw_titles()),
        ActivityId::SWAP => alone(swap_titles()),
        ActivityId::PAGE => alone(page_titles()),
        ActivityId::IO => alone(io_titles()),
        ActivityId::NET_NFS => alone(net_nfs_titles()),
        ActivityId::NET_NFSD => alone(net_nfsd_titles()),
        ActivityId::NET_IP => alone(net_ip_titles()),
        ActivityId::NET_EIP => alone(net_eip_titles()),
        ActivityId::NET_ICMP => alone(net_icmp_titles()),
        ActivityId::NET_EICMP => alone(net_eicmp_titles()),
        ActivityId::NET_TCP => alone(net_tcp_titles()),
        ActivityId::NET_ETCP => alone(net_etcp_titles()),
        ActivityId::NET_UDP => alone(net_udp_titles()),
        ActivityId::NET_IP6 => alone(net_ip6_titles()),
        ActivityId::NET_EIP6 => alone(net_eip6_titles()),
        ActivityId::NET_ICMP6 => alone(net_icmp6_titles()),
        ActivityId::NET_EICMP6 => alone(net_eicmp6_titles()),
        ActivityId::NET_UDP6 => alone(net_udp6_titles()),
        ActivityId::KTABLES => alone(ktables_titles()),
        ActivityId::NET_SOCK => alone(net_sock_titles()),
        ActivityId::NET_SOCK6 => alone(net_sock6_titles()),
        _ => alone(Seq::empty()),
    }
}

/// All headings of a block in their order.
pub open spec fn tokens_of(h: Headings) -> Seq<Seq<char>> {
    h.items + names_of(h.columns)
}

/// Whether the columns of a block are those of its headings.
#[verifier::opaque]
pub open spec fn columns_are_titled(id: ActivityId, opts: SarTextOptions, i: int) -> bool {
    0 <= i < activity_models(id, opts).len() ==> are_titled(
        activity_models(id, opts)[i].cells,
        headings_of(id, opts, i).columns,
    )
}


proof fn lemma_columns_irq(opts: SarTextOptions, i: int)
    ensures
        columns_are_titled(ActivityId::IRQ, opts, i),
{
    reveal(columns_are_titled);
}

proof fn lemma_columns_pwr_usb(opts: SarTextOptions, i: int)
    ensures
        columns_are_titled(ActivityId::PWR_USB, opts, i),
{
    reveal(columns_are_titled);
}

proof fn lemma_columns_cpu(opts: SarTextOptions, i: int)
    ensures
        columns_are_titled(ActivityId::CPU, opts, i),
{
    reveal(columns_are_titled);
}

proof fn lemma_columns_memory(opts: SarTextOptions, i: int)
    ensures
        columns_are_titled(ActivityId::MEMORY, opts, i),
{
    reveal(columns_are_titled);
}

proof fn lemma_columns_queue(opts: SarTextOptions, i: int)
    ensures
        columns_are_titled(ActivityId::QUEUE, opts, i),
{
    reveal(columns_are_titled);
}

proof fn lemma_columns_serial(opts: SarTextOptions, i: int)
    ensures
        columns_are_titled(ActivityId::SERIAL, opts, i),
{
    reveal(columns_are_titled);
}

proof fn lemma_columns_disk(opts: SarTextOptions, i: int)
    ensures
        columns_are_titled(ActivityId::DISK, opts, i),
{
    reveal(columns_are_titled);
}

proof fn lemma_columns_net_dev(opts: SarTextOptions, i: int)
    ensures
        columns_are_titled(ActivityId::NET_DEV, opts, i),
{
    reveal(columns_are_titled);
}

proof fn lemma_columns_net_edev(opts: SarTextOptions, i: int)
    ensures
        columns_are_titled(ActivityId::NET_EDEV, opts, i),
{
    reveal(columns_are_titled);
}

proof fn lemma_columns_pwr_cpu(opts: SarTextOptions, i: int)
    ensures
        columns_are_titled(ActivityId::PWR_CPU, opts, i),
{
    reveal(columns_are_titled);
}

proof fn lemma_columns_pwr_fan(opts: SarTextOptions, i: int)
    ensures
        columns_are_titled(ActivityId::PWR_FAN, opts, i),
{
    reveal(columns_are_titled);
}

proof fn lemma_columns_pwr_temp(opts: SarTextOptions, i: int)
    ensures
        columns_are_titled(ActivityId::PWR_TEMP, opts, i),
{
    reveal(columns_are_titled);
}

proof fn lemma_columns_pwr_in(opts: SarTextOptions, i: int)
    ensures
        columns_are_titled(ActivityId::PWR_IN, opts, i),
{
    reveal(columns_are_titled);
}

proof fn lemma_columns_huge(opts: SarTextOptions, i: int)
    ensures
        columns_are_titled(ActivityId::HUGE, opts, i),
{
    reveal(columns_are_titled);
}

proof fn lemma_columns_pwr_freq(opts: SarTextOptions, i: int)
    ensures
        columns_are_titled(ActivityId::PWR_FREQ, opts, i),
{
    reveal(columns_are_titled);
}

proof fn lemma_columns_fs(opts: SarTextOptions, i: int)
    ensures
        columns_are_titled(ActivityId::FS, opts, i),
{
    reveal(columns_are_titled);
}

proof fn lemma_columns_net_fc(opts: SarTextOptions, i: int)
    ensures
        columns_are_titled(ActivityId::NET_FC, opts, i),
{
    reveal(columns_are_titled);
}

proof fn lemma_columns_net_soft(opts: SarTextOptions, i: int)
    ensures
        columns_are_titled(ActivityId::NET_SOFT, opts, i),
{
    reveal(columns_are_titled);
}

proof fn lemma_columns_psi_cpu(opts: SarTextOptions, i: int)
    ensures
        columns_are_titled(ActivityId::PSI_CPU, opts, i),
{
    reveal(columns_are_titled);
}

proof fn lemma_columns_psi_io(opts: SarTextOptions, i: int)
    ensures
        columns_are_titled(ActivityId::PSI_IO, opts, i),
{
    reveal(columns_are_titled);
}

proof fn lemma_columns_psi_mem(opts: SarTextOptions, i: int)
    ensures
        columns_are_titled(ActivityId::PSI_MEM, opts, i),
{
    reveal(columns_are_titled);
}

proof fn lemma_columns_pwr_bat(opts: SarTextOptions, i: int)
    ensures
        columns_are_titled(ActivityId::PWR_BAT, opts, i),
{
    reveal(columns_are_titled);
}

proof fn lemma_columns_pcsw(opts: SarTextOptions, i: int)
    ensures
        columns_are_titled(ActivityId::PCSW, opts, i),
{
    reveal(columns_are_titled);
}

proof fn lemma_columns_swap(opts: SarTextOptions, i: int)
    ensures
        columns_are_titled(ActivityId::SWAP, opts, i),
{
    reveal(columns_are_titled);
}

proof fn lemma_columns_page(opts: SarTextOptions, i: int)
    ensures
        columns_are_titled(ActivityId::PAGE, opts, i),
{
    reveal(columns_are_titled);
}

proof fn lemma_columns_io(opts: SarTextOptions, i: int)
    ensures
        columns_are_titled(ActivityId::IO, opts, i),
{
    reveal(columns_are_titled);
}

proof fn lemma_columns_net_nfs(opts: SarTextOptions, i: int)
    ensures
        columns_are_titled(ActivityId::NET_NFS, opts, i),
{
    reveal(columns_are_titled);
}

proof fn lemma_columns_net_nfsd(opts: SarTextOptions, i: int)
    ensures
        columns_are_titled(ActivityId::NET_NFSD, opts, i),
{
    reveal(columns_are_titled);
}

proof fn lemma_columns_net_ip(opts: SarTextOptions, i: int)
    ensures
        columns_are_titled(ActivityId::NET_IP, opts, i),
{
    reveal(columns_are_titled);
}

proof fn lemma_columns_net_eip(opts: SarTextOptions, i: int)
    ensures
        columns_are_titled(ActivityId::NET_EIP, opts, i),
{
    reveal(columns_are_titled);
}

proof fn lemma_columns_net_icmp(opts: SarTextOptions, i: int)
    ensures
        columns_are_titled(ActivityId::NET_ICMP, opts, i),
{
    reveal(columns_are_titled);
}

proof fn lemma_columns_net_eicmp(opts: SarTextOptions, i: int)
    ensures
        columns_are_titled(ActivityId::NET_EICMP, opts, i),
{
    reveal(columns_are_titled);
}

proof fn lemma_columns_net_tcp(opts: SarTextOptions, i: int)
    ensures
        columns_are_titled(ActivityId::NET_TCP, opts, i),
{
    reveal(columns_are_titled);
}

proof fn lemma_columns_net_etcp(opts: SarTextOptions, i: int)
    ensures
        columns_are_titled(ActivityId::NET_ETCP, opts, i),
{
    reveal(columns_are_titled);
}

proof fn lemma_columns_net_udp(opts: SarTextOptions, i: int)
    ensures
        columns_are_titled(ActivityId::NET_UDP, opts, i),
{
    reveal(columns_are_titled);
}

proof fn lemma_columns_net_ip6(opts: SarTextOptions, i: int)
    ensures
        columns_are_titled(ActivityId::NET_IP6, opts, i),
{
    reveal(columns_are_titled);
}

proof fn lemma_columns_net_eip6(opts: SarTextOptions, i: int)
    ensures
        columns_are_titled(ActivityId::NET_EIP6, opts, i),
{
    reveal(columns_are_titled);
}

proof fn lemma_columns_net_icmp6(opts: SarTextOptions, i: int)
    ensures
        columns_are_titled(ActivityId::NET_ICMP6, opts, i),
{
    reveal(columns_are_titled);
}

proof fn lemma_columns_net_eicmp6(opts: SarTextOptions, i: int)
    ensures
        columns_are_titled(ActivityId::NET_EICMP6, opts, i),
{
    reveal(columns_are_titled);
}

proof fn lemma_columns_net_udp6(opts: SarTextOptions, i: int)
    ensures
        columns_are_titled(ActivityId::NET_UDP6, opts, i),
{
    reveal(columns_are_titled);
}

proof fn lemma_columns_ktables(opts: SarTextOptions, i: int)
    ensures
        columns_are_titled(ActivityId::KTABLES, opts, i),
{
    reveal(columns_are_titled);
}

proof fn lemma_columns_net_sock(opts: SarTextOptions, i: int)
    ensures
        columns_are_titled(ActivityId::NET_SOCK, opts, i),
{
    reveal(columns_are_titled);
}

proof fn lemma_columns_net_sock6(opts: SarTextOptions, i: int)
    ensures
        columns_are_titled(ActivityId::NET_SOCK6, opts, i),
{
    reveal(columns_are_titled);
}

/// Each column of a block is the one that its heading names: it has the number of that column,
/// its values are written in the form of that column, and its average comes about as that of the
/// column does.
pub proof fn law_columns_are_those_of_their_headings(
    id: ActivityId,
    opts: SarTextOptions,
    i: int,
)
    ensures
        columns_are_titled(id, opts, i),
{
    match id {
        ActivityId::IRQ => lemma_columns_irq(opts, i),
        ActivityId::PWR_USB => lemma_columns_pwr_usb(opts, i),
        ActivityId::CPU => lemma_columns_cpu(opts, i),
        ActivityId::MEMORY => lemma_columns_memory(opts, i),
        ActivityId::QUEUE => lemma_columns_queue(opts, i),
        ActivityId::SERIAL => lemma_columns_serial(opts, i),
        ActivityId::DISK => lemma_columns_disk(opts, i),
        ActivityId::NET_DEV => lemma_columns_net_dev(opts, i),
        ActivityId::NET_EDEV => lemma_columns_net_edev(opts, i),
        ActivityId::PWR_CPU => lemma_columns_pwr_cpu(opts, i),
        ActivityId::PWR_FAN => lemma_columns_pwr_fan(opts, i),
        ActivityId::PWR_TEMP => lemma_columns_pwr_temp(opts, i),
        ActivityId::PWR_IN => lemma_columns_pwr_in(opts, i),
        ActivityId::HUGE => lemma_columns_huge(opts, i),
        ActivityId::PWR_FREQ => lemma_columns_pwr_freq(opts, i),
        ActivityId::FS => lemma_columns_fs(opts, i),
        ActivityId::NET_FC => lemma_columns_net_fc(opts, i),
        ActivityId::NET_SOFT => lemma_columns_net_soft(opts, i),
        ActivityId::PSI_CPU => lemma_columns_psi_cpu(opts, i),
        ActivityId::PSI_IO => lemma_columns_psi_io(opts, i),
        ActivityId::PSI_MEM => lemma_columns_psi_mem(opts, i),
        ActivityId::PWR_BAT => lemma_columns_pwr_bat(opts, i),
        ActivityId::PCSW => lemma_columns_pcsw(opts, i),
        ActivityId::SWAP => lemma_columns_swap(opts, i),
        ActivityId::PAGE => lemma_columns_page(opts, i),
        ActivityId::IO => lemma_columns_io(opts, i),
        ActivityId::NET_NFS => lemma_columns_net_nfs(opts, i),
        ActivityId::NET_NFSD => lemma_columns_net_nfsd(opts, i),
        ActivityId::NET_IP => lemma_columns_net_ip(opts, i),
        ActivityId::NET_EIP => lemma_columns_net_eip(opts, i),
        ActivityId::NET_ICMP => lemma_columns_net_icmp(opts, i),
        ActivityId::NET_EICMP => lemma_columns_net_eicmp(opts, i),
        ActivityId::NET_TCP => lemma_columns_net_tcp(opts, i),
        ActivityId::NET_ETCP => lemma_columns_net_etcp(opts, i),
        ActivityId::NET_UDP => lemma_columns_net_udp(opts, i),
        ActivityId::NET_IP6 => lemma_columns_net_ip6(opts, i),
        ActivityId::NET_EIP6 => lemma_columns_net_eip6(opts, i),
        ActivityId::NET_ICMP6 => lemma_columns_net_icmp6(opts, i),
        ActivityId::NET_EICMP6 => lemma_columns_net_eicmp6(opts, i),
        ActivityId::NET_UDP6 => lemma_columns_net_udp6(opts, i),
        ActivityId::KTABLES => lemma_columns_ktables(opts, i),
        ActivityId::NET_SOCK => lemma_columns_net_sock(opts, i),
        ActivityId::NET_SOCK6 => lemma_columns_net_sock6(opts, i),
        _ => {
            reveal(columns_are_titled);
        },
    }
}

/// Whether a name can be a heading: it is no more than nine characters long, and none of them is
/// a mark.
pub open spec fn is_heading(s: Seq<char>) -> bool {
    &&& s.len() <= 9
    &&& vstd::utf8::is_ascii_chars(s)
    &&& lacks(s, ';')
    &&& lacks(s, '|')
    &&& lacks(s, '&')
    &&& lacks(s, '*')
}

/// Whether names can be headings. The heading of a file system is longer than the others.
pub open spec fn are_headings(tokens: Seq<Seq<char>>) -> bool {
    forall|k: int| 0 <= k < tokens.len() ==> is_heading(#[trigger] tokens[k])
}

/// The headings of a line, each at the right end of ten columns. With a positive `iwidth` the
/// first has a width of its own; with a negative one the heading with that number, counted from
/// 1, is left out here.
pub open spec fn heading_columns(tokens: Seq<Seq<char>>, iwidth: int, n: int) -> Seq<char>
    decreases n,
{
    if n <= 0 {
        Seq::empty()
    } else {
        heading_columns(tokens, iwidth, n - 1) + if iwidth > 0 && n == 1 {
            aligned(tokens[0], (iwidth + 1) as nat)
        } else if n == -iwidth {
            Seq::empty()
        } else {
            aligned(tokens[n - 1], 10)
        }
    }
}

proof fn lemma_one_column(s: Seq<char>, width: nat)
    requires
        vstd::utf8::is_ascii_chars(s),
        s.len() <= width,
    ensures
        seq![' '] + left_padded(s, width) == aligned(s, width + 1),
{
    law_padding_keeps_the_text(s, width);
    assert(seq![' '] + aligned(s, width) =~= aligned(s, width + 1));
}

proof fn lemma_heading_columns(tokens: Seq<Seq<char>>, iwidth: int, labels: Seq<StarLabel>, n: int)
    requires
        0 <= n <= tokens.len(),
        iwidth == 7 || iwidth <= 0,
        iwidth == 7 ==> tokens[0].len() <= 7,
        forall|k: int|
            0 <= k < tokens.len() && k != -iwidth - 1 ==> is_heading(#[trigger] tokens[k]),
        forall|k: int| 0 <= k < tokens.len() ==> lacks(#[trigger] tokens[k], '*'),
    ensures
        token_columns(tokens, n, iwidth, labels) == heading_columns(tokens, iwidth, n),
    decreases n,
{
    if n > 0 {
        lemma_heading_columns(tokens, iwidth, labels, n - 1);
        let t = tokens[n - 1];
        assert(lacks(t, '*'));
        lemma_find_none(t, '*');
        assert(!has_star(t));
        if n > 1 {
            assert(lacks(tokens[0], '*'));
            lemma_find_none(tokens[0], '*');
            assert(!has_star(tokens[0]));
        }
        if n != -iwidth {
            assert(is_heading(t));
            if iwidth > 0 && n == 1 {
                lemma_one_column(t, 7);
            } else {
                lemma_one_column(t, 9);
            }
        }
    }
}

#[verifier::rlimit(80)]
proof fn lemma_cpu_hdr()
    ensures
        split(CPU_HDR@, '|').len() == 2,
        forall|ext: bool| split(#[trigger] section_columns(split(CPU_HDR@, '|')[0], ext), ';') == seq!["CPU"@, "%user"@, "%nice"@, "%system"@, "%iowait"@, "%steal"@, "%idle"@],
        forall|ext: bool| split(#[trigger] section_columns(split(CPU_HDR@, '|')[1], ext), ';') == seq!["CPU"@, "%usr"@, "%nice"@, "%sys"@, "%iowait"@, "%steal"@, "%irq"@, "%soft"@, "%guest"@, "%gnice"@, "%idle"@],
        is_heading("CPU"@),
        is_heading("%user"@),
        is_heading("%nice"@),
        is_heading("%system"@),
        is_heading("%iowait"@),
        is_heading("%steal"@),
        is_heading("%idle"@),
        is_heading("%usr"@),
        is_heading("%sys"@),
        is_heading("%irq"@),
        is_heading("%soft"@),
        is_heading("%guest"@),
        is_heading("%gnice"@),
{
    reveal_strlit("CPU;%user;%nice;%system;%iowait;%steal;%idle|CPU;%usr;%nice;%sys;%iowait;%steal;%irq;%soft;%guest;%gnice;%idle");
    reveal_strlit("CPU");
    reveal_strlit("%user");
    reveal_strlit("%nice");
    reveal_strlit("%system");
    reveal_strlit("%iowait");
    reveal_strlit("%steal");
    reveal_strlit("%idle");
    reveal_strlit("%usr");
    reveal_strlit("%sys");
    reveal_strlit("%irq");
    reveal_strlit("%soft");
    reveal_strlit("%guest");
    reveal_strlit("%gnice");
    let t0 = seq!["CPU"@, "%user"@, "%nice"@, "%system"@, "%iowait"@, "%steal"@, "%idle"@];
    let s0 = joined_by(t0, ';');
    let t1 = seq!["CPU"@, "%usr"@, "%nice"@, "%sys"@, "%iowait"@, "%steal"@, "%irq"@, "%soft"@, "%guest"@, "%gnice"@, "%idle"@];
    let s1 = joined_by(t1, ';');
    let all = seq![s0, s1];
    assert(t0.take(7).drop_last() =~= t0.take(6));
    assert(t0.take(6).drop_last() =~= t0.take(5));
    assert(t0.take(5).drop_last() =~= t0.take(4));
    assert(t0.take(4).drop_last() =~= t0.take(3));
    assert(t0.take(3).drop_last() =~= t0.take(2));
    assert(t0.take(2).drop_last() =~= t0.take(1));
    assert(t0.take(7) =~= t0);
    assert(t1.take(11).drop_last() =~= t1.take(10));
    assert(t1.take(10).drop_last() =~= t1.take(9));
    assert(t1.take(9).drop_last() =~= t1.take(8));
    assert(t1.take(8).drop_last() =~= t1.take(7));
    assert(t1.take(7).drop_last() =~= t1.take(6));
    assert(t1.take(6).drop_last() =~= t1.take(5));
    assert(t1.take(5).drop_last() =~= t1.take(4));
    assert(t1.take(4).drop_last() =~= t1.take(3));
    assert(t1.take(3).drop_last() =~= t1.take(2));
    assert(t1.take(2).drop_last() =~= t1.take(1));
    assert(t1.take(11) =~= t1);
    reveal_with_fuel(joined_by, 12);
    assert(all.drop_last() =~= seq![s0]);
    assert(CPU_HDR@ =~= joined_by(all, '|'));
    lemma_joined_lacks(t0, ';', '|');
    lemma_joined_lacks(t0, ';', '&');
    lemma_joined_lacks(t1, ';', '|');
    lemma_joined_lacks(t1, ';', '&');
    law_splitting_undoes_joining(all, '|');
    lemma_find_none(s0, '&');
    law_splitting_undoes_joining(t0, ';');
    lemma_find_none(s1, '&');
    law_splitting_undoes_joining(t1, ';');
}

#[verifier::rlimit(80)]
proof fn lemma_disk_hdr()
    ensures
        split(DISK_HDR@, '|').len() == 1,
        forall|ext: bool| split(#[trigger] section_columns(split(DISK_HDR@, '|')[0], ext), ';') == seq!["DEV"@, "tps"@, "rkB/s"@, "wkB/s"@, "dkB/s"@, "areq-sz"@, "aqu-sz"@, "await"@, "%util"@],
        is_heading("DEV"@),
        is_heading("tps"@),
        is_heading("rkB/s"@),
        is_heading("wkB/s"@),
        is_heading("dkB/s"@),
        is_heading("areq-sz"@),
        is_heading("aqu-sz"@),
        is_heading("await"@),
        is_heading("%util"@),
{
    reveal_strlit("DEV;tps;rkB/s;wkB/s;dkB/s;areq-sz;aqu-sz;await;%util");
    reveal_strlit("DEV");
    reveal_strlit("tps");
    reveal_strlit("rkB/s");
    reveal_strlit("wkB/s");
    reveal_strlit("dkB/s");
    reveal_strlit("areq-sz");
    reveal_strlit("aqu-sz");
    reveal_strlit("await");
    reveal_strlit("%util");
    let t0 = seq!["DEV"@, "tps"@, "rkB/s"@, "wkB/s"@, "dkB/s"@, "areq-sz"@, "aqu-sz"@, "await"@, "%util"@];
    let s0 = joined_by(t0, ';');
    let all = seq![s0];
    assert(t0.take(9).drop_last() =~= t0.take(8));
    assert(t0.take(8).drop_last() =~= t0.take(7));
    assert(t0.take(7).drop_last() =~= t0.take(6));
    assert(t0.take(6).drop_last() =~= t0.take(5));
    assert(t0.take(5).drop_last() =~= t0.take(4));
    assert(t0.take(4).drop_last() =~= t0.take(3));
    assert(t0.take(3).drop_last() =~= t0.take(2));
    assert(t0.take(2).drop_last() =~= t0.take(1));
    assert(t0.take(9) =~= t0);
    reveal_with_fuel(joined_by, 10);
    assert(DISK_HDR@ =~= joined_by(all, '|'));
    lemma_joined_lacks(t0, ';', '|');
    lemma_joined_lacks(t0, ';', '&');
    law_splitting_undoes_joining(all, '|');
    lemma_find_none(s0, '&');
    law_splitting_undoes_joining(t0, ';');
}

#[verifier::rlimit(80)]
proof fn lemma_fs_hdr()
    ensures
        split(FS_HDR@, '|').len() == 2,
        forall|ext: bool| split(#[trigger] section_columns(split(FS_HDR@, '|')[0], ext), ';') == seq!["FILESYSTEM"@, "MBfsfree"@, "MBfsused"@, "%fsused"@, "%ufsused"@, "Ifree"@, "Iused"@, "%Iused"@],
        forall|ext: bool| split(#[trigger] section_columns(split(FS_HDR@, '|')[1], ext), ';') == seq!["MOUNTPOINT"@, "MBfsfree"@, "MBfsused"@, "%fsused"@, "%ufsused"@, "Ifree"@, "Iused"@, "%Iused"@],
        lacks("FILESYSTEM"@, '*'),
        is_heading("MBfsfree"@),
        is_heading("MBfsused"@),
        is_heading("%fsused"@),
        is_heading("%ufsused"@),
        is_heading("Ifree"@),
        is_heading("Iused"@),
        is_heading("%Iused"@),
        lacks("MOUNTPOINT"@, '*'),
{
    reveal_strlit("FILESYSTEM;MBfsfree;MBfsused;%fsused;%ufsused;Ifree;Iused;%Iused|MOUNTPOINT;MBfsfree;MBfsused;%fsused;%ufsused;Ifree;Iused;%Iused");
    reveal_strlit("FILESYSTEM");
    reveal_strlit("MBfsfree");
    reveal_strlit("MBfsused");
    reveal_strlit("%fsused");
    reveal_strlit("%ufsused");
    reveal_strlit("Ifree");
    reveal_strlit("Iused");
    reveal_strlit("%Iused");
    reveal_strlit("MOUNTPOINT");
    let t0 = seq!["FILESYSTEM"@, "MBfsfree"@, "MBfsused"@, "%fsused"@, "%ufsused"@, "Ifree"@, "Iused"@, "%Iused"@];
    let s0 = joined_by(t0, ';');
    let t1 = seq!["MOUNTPOINT"@, "MBfsfree"@, "MBfsused"@, "%fsused"@, "%ufsused"@, "Ifree"@, "Iused"@, "%Iused"@];
    let s1 = joined_by(t1, ';');
    let all = seq![s0, s1];
    assert(t0.take(8).drop_last() =~= t0.take(7));
    assert(t0.take(7).drop_last() =~= t0.take(6));
    assert(t0.take(6).drop_last() =~= t0.take(5));
    assert(t0.take(5).drop_last() =~= t0.take(4));
    assert(t0.take(4).drop_last() =~= t0.take(3));
    assert(t0.take(3).drop_last() =~= t0.take(2));
    assert(t0.take(2).drop_last() =~= t0.take(1));
    assert(t0.take(8) =~= t0);
    assert(t1.take(8).drop_last() =~= t1.take(7));
    assert(t1.take(7).drop_last() =~= t1.take(6));
    assert(t1.take(6).drop_last() =~= t1.take(5));
    assert(t1.take(5).drop_last() =~= t1.take(4));
    assert(t1.take(4).drop_last() =~= t1.take(3));
    assert(t1.take(3).drop_last() =~= t1.take(2));
    assert(t1.take(2).drop_last() =~= t1.take(1));
    assert(t1.take(8) =~= t1);
    reveal_with_fuel(joined_by, 9);
    assert(all.drop_last() =~= seq![s0]);
    assert(FS_HDR@ =~= joined_by(all, '|'));
    lemma_joined_lacks(t0, ';', '|');
    lemma_joined_lacks(t0, ';', '&');
    lemma_joined_lacks(t1, ';', '|');
    lemma_joined_lacks(t1, ';', '&');
    law_splitting_undoes_joining(all, '|');
    lemma_find_none(s0, '&');
    law_splitting_undoes_joining(t0, ';');
    lemma_find_none(s1, '&');
    law_splitting_undoes_joining(t1, ';');
}

proof fn lemma_huge_hdr()
    ensures
        split(HUGE_HDR@, '|').len() == 1,
        forall|ext: bool| split(#[trigger] section_columns(split(HUGE_HDR@, '|')[0], ext), ';') == seq!["kbhugfree"@, "kbhugused"@, "%hugused"@, "kbhugrsvd"@, "kbhugsurp"@],
        is_heading("kbhugfree"@),
        is_heading("kbhugused"@),
        is_heading("%hugused"@),
        is_heading("kbhugrsvd"@),
        is_heading("kbhugsurp"@),
{
    reveal_strlit("kbhugfree;kbhugused;%hugused;kbhugrsvd;kbhugsurp");
    reveal_strlit("kbhugfree");
    reveal_strlit("kbhugused");
    reveal_strlit("%hugused");
    reveal_strlit("kbhugrsvd");
    reveal_strlit("kbhugsurp");
    let t0 = seq!["kbhugfree"@, "kbhugused"@, "%hugused"@, "kbhugrsvd"@, "kbhugsurp"@];
    let s0 = joined_by(t0, ';');
    let all = seq![s0];
    assert(t0.take(5).drop_last() =~= t0.take(4));
    assert(t0.take(4).drop_last() =~= t0.take(3));
    assert(t0.take(3).drop_last() =~= t0.take(2));
    assert(t0.take(2).drop_last() =~= t0.take(1));
    assert(t0.take(5) =~= t0);
    reveal_with_fuel(joined_by, 6);
    assert(HUGE_HDR@ =~= joined_by(all, '|'));
    lemma_joined_lacks(t0, ';', '|');
    lemma_joined_lacks(t0, ';', '&');
    law_splitting_undoes_joining(all, '|');
    lemma_find_none(s0, '&');
    law_splitting_undoes_joining(t0, ';');
}

proof fn lemma_io_hdr()
    ensures
        split(IO_HDR@, '|').len() == 1,
        forall|ext: bool| split(#[trigger] section_columns(split(IO_HDR@, '|')[0], ext), ';') == seq!["tps"@, "rtps"@, "wtps"@, "dtps"@, "bread/s"@, "bwrtn/s"@, "bdscd/s"@],
        is_heading("tps"@),
        is_heading("rtps"@),
        is_heading("wtps"@),
        is_heading("dtps"@),
        is_heading("bread/s"@),
        is_heading("bwrtn/s"@),
        is_heading("bdscd/s"@),
{
    reveal_strlit("tps;rtps;wtps;dtps;bread/s;bwrtn/s;bdscd/s");
    reveal_strlit("tps");
    reveal_strlit("rtps");
    reveal_strlit("wtps");
    reveal_strlit("dtps");
    reveal_strlit("bread/s");
    reveal_strlit("bwrtn/s");
    reveal_strlit("bdscd/s");
    let t0 = seq!["tps"@, "rtps"@, "wtps"@, "dtps"@, "bread/s"@, "bwrtn/s"@, "bdscd/s"@];
    let s0 = joined_by(t0, ';');
    let all = seq![s0];
    assert(t0.take(7).drop_last() =~= t0.take(6));
    assert(t0.take(6).drop_last() =~= t0.take(5));
    assert(t0.take(5).drop_last() =~= t0.take(4));
    assert(t0.take(4).drop_last() =~= t0.take(3));
    assert(t0.take(3).drop_last() =~= t0.take(2));
    assert(t0.take(2).drop_last() =~= t0.take(1));
    assert(t0.take(7) =~= t0);
    reveal_with_fuel(joined_by, 8);
    assert(IO_HDR@ =~= joined_by(all, '|'));
    lemma_joined_lacks(t0, ';', '|');
    lemma_joined_lacks(t0, ';', '&');
    law_splitting_undoes_joining(all, '|');
    lemma_find_none(s0, '&');
    law_splitting_undoes_joining(t0, ';');
}

proof fn lemma_ktables_hdr()
    ensures
        split(KTABLES_HDR@, '|').len() == 1,
        forall|ext: bool| split(#[trigger] section_columns(split(KTABLES_HDR@, '|')[0], ext), ';') == seq!["dentunusd"@, "file-nr"@, "inode-nr"@, "pty-nr"@],
        is_heading("dentunusd"@),
        is_heading("file-nr"@),
        is_heading("inode-nr"@),
        is_heading("pty-nr"@),
{
    reveal_strlit("dentunusd;file-nr;inode-nr;pty-nr");
    reveal_strlit("dentunusd");
    reveal_strlit("file-nr");
    reveal_strlit("inode-nr");
    reveal_strlit("pty-nr");
    let t0 = seq!["dentunusd"@, "file-nr"@, "inode-nr"@, "pty-nr"@];
    let s0 = joined_by(t0, ';');
    let all = seq![s0];
    assert(t0.take(4).drop_last() =~= t0.take(3));
    assert(t0.take(3).drop_last() =~= t0.take(2));
    assert(t0.take(2).drop_last() =~= t0.take(1));
    assert(t0.take(4) =~= t0);
    reveal_with_fuel(joined_by, 5);
    assert(KTABLES_HDR@ =~= joined_by(all, '|'));
    lemma_joined_lacks(t0, ';', '|');
    lemma_joined_lacks(t0, ';', '&');
    law_splitting_undoes_joining(all, '|');
    lemma_find_none(s0, '&');
    law_splitting_undoes_joining(t0, ';');
}

#[verifier::rlimit(80)]
proof fn lemma_memory_hdr()
    ensures
        split(MEMORY_HDR@, '|').len() == 2,
        split(section_columns(split(MEMORY_HDR@, '|')[0], false), ';') == seq!["kbmemfree"@, "kbavail"@, "kbmemused"@, "%memused"@, "kbbuffers"@, "kbcached"@, "kbcommit"@, "%commit"@, "kbactive"@, "kbinact"@, "kbdirty"@, "kbshmem"@],
        split(section_columns(split(MEMORY_HDR@, '|')[0], true), ';') == seq!["kbmemfree"@, "kbavail"@, "kbmemused"@, "%memused"@, "kbbuffers"@, "kbcached"@, "kbcommit"@, "%commit"@, "kbactive"@, "kbinact"@, "kbdirty"@, "kbshmem"@, "kbanonpg"@, "kbslab"@, "kbkstack"@, "kbpgtbl"@, "kbvmused"@],
        forall|ext: bool| split(#[trigger] section_columns(split(MEMORY_HDR@, '|')[1], ext), ';') == seq!["kbswpfree"@, "kbswpused"@, "%swpused"@, "kbswpcad"@, "%swpcad"@],
        is_heading("kbmemfree"@),
        is_heading("kbavail"@),
        is_heading("kbmemused"@),
        is_heading("%memused"@),
        is_heading("kbbuffers"@),
        is_heading("kbcached"@),
        is_heading("kbcommit"@),
        is_heading("%commit"@),
        is_heading("kbactive"@),
        is_heading("kbinact"@),
        is_heading("kbdirty"@),
        is_heading("kbshmem"@),
        is_heading("kbanonpg"@),
        is_heading("kbslab"@),
        is_heading("kbkstack"@),
        is_heading("kbpgtbl"@),
        is_heading("kbvmused"@),
        is_heading("kbswpfree"@),
        is_heading("kbswpused"@),
        is_heading("%swpused"@),
        is_heading("kbswpcad"@),
        is_heading("%swpcad"@),
{
    reveal_strlit("kbmemfree;kbavail;kbmemused;%memused;kbbuffers;kbcached;kbcommit;%commit;kbactive;kbinact;kbdirty;kbshmem&kbanonpg;kbslab;kbkstack;kbpgtbl;kbvmused|kbswpfree;kbswpused;%swpused;kbswpcad;%swpcad");
    reveal_strlit("kbmemfree");
    reveal_strlit("kbavail");
    reveal_strlit("kbmemused");
    reveal_strlit("%memused");
    reveal_strlit("kbbuffers");
    reveal_strlit("kbcached");
    reveal_strlit("kbcommit");
    reveal_strlit("%commit");
    reveal_strlit("kbactive");
    reveal_strlit("kbinact");
    reveal_strlit("kbdirty");
    reveal_strlit("kbshmem");
    reveal_strlit("kbanonpg");
    reveal_strlit("kbslab");
    reveal_strlit("kbkstack");
    reveal_strlit("kbpgtbl");
    reveal_strlit("kbvmused");
    reveal_strlit("kbswpfree");
    reveal_strlit("kbswpused");
    reveal_strlit("%swpused");
    reveal_strlit("kbswpcad");
    reveal_strlit("%swpcad");
    let a = seq!["kbmemfree"@, "kbavail"@, "kbmemused"@, "%memused"@, "kbbuffers"@, "kbcached"@, "kbcommit"@, "%commit"@, "kbactive"@, "kbinact"@, "kbdirty"@, "kbshmem"@];
    let b = seq!["kbanonpg"@, "kbslab"@, "kbkstack"@, "kbpgtbl"@, "kbvmused"@];
    reveal_with_fuel(joined_by, 13);
    let s0 = joined_by(a, ';') + seq!['&'] + joined_by(b, ';');
    let t1 = seq!["kbswpfree"@, "kbswpused"@, "%swpused"@, "kbswpcad"@, "%swpcad"@];
    let s1 = joined_by(t1, ';');
    let all = seq![s0, s1];
    assert(a.take(12).drop_last() =~= a.take(11));
    assert(a.take(11).drop_last() =~= a.take(10));
    assert(a.take(10).drop_last() =~= a.take(9));
    assert(a.take(9).drop_last() =~= a.take(8));
    assert(a.take(8).drop_last() =~= a.take(7));
    assert(a.take(7).drop_last() =~= a.take(6));
    assert(a.take(6).drop_last() =~= a.take(5));
    assert(a.take(5).drop_last() =~= a.take(4));
    assert(a.take(4).drop_last() =~= a.take(3));
    assert(a.take(3).drop_last() =~= a.take(2));
    assert(a.take(2).drop_last() =~= a.take(1));
    assert(a.take(12) =~= a);
    assert(b.take(5).drop_last() =~= b.take(4));
    assert(b.take(4).drop_last() =~= b.take(3));
    assert(b.take(3).drop_last() =~= b.take(2));
    assert(b.take(2).drop_last() =~= b.take(1));
    assert(b.take(5) =~= b);
    assert(t1.take(5).drop_last() =~= t1.take(4));
    assert(t1.take(4).drop_last() =~= t1.take(3));
    assert(t1.take(3).drop_last() =~= t1.take(2));
    assert(t1.take(2).drop_last() =~= t1.take(1));
    assert(t1.take(5) =~= t1);
    reveal_with_fuel(joined_by, 18);
    assert(all.drop_last() =~= seq![s0]);
    assert(MEMORY_HDR@ =~= joined_by(all, '|'));
    lemma_joined_lacks(a, ';', '|');
    lemma_joined_lacks(b, ';', '|');
    lemma_joined_lacks(a, ';', '&');
    lemma_joined_lacks(t1, ';', '|');
    lemma_joined_lacks(t1, ';', '&');
    law_splitting_undoes_joining(all, '|');
    law_find_is_the_first_place(joined_by(a, ';'), '&', joined_by(b, ';'));
    assert(s0.take(joined_by(a, ';').len() as int) =~= joined_by(a, ';'));
    law_splitting_undoes_joining(a, ';');
    let c = a + b;
    lemma_joined_add(a, b, ';');
    assert(s0.update(joined_by(a, ';').len() as int, ';') =~= joined_by(c, ';'));
    law_splitting_undoes_joining(c, ';');
    assert(c =~= seq!["kbmemfree"@, "kbavail"@, "kbmemused"@, "%memused"@, "kbbuffers"@, "kbcached"@, "kbcommit"@, "%commit"@, "kbactive"@, "kbinact"@, "kbdirty"@, "kbshmem"@, "kbanonpg"@, "kbslab"@, "kbkstack"@, "kbpgtbl"@, "kbvmused"@]);
    lemma_find_none(s1, '&');
    law_splitting_undoes_joining(t1, ';');
}

#[verifier::rlimit(80)]
proof fn lemma_net_dev_hdr()
    ensures
        split(NET_DEV_HDR@, '|').len() == 1,
        forall|ext: bool| split(#[trigger] section_columns(split(NET_DEV_HDR@, '|')[0], ext), ';') == seq!["IFACE"@, "rxpck/s"@, "txpck/s"@, "rxkB/s"@, "txkB/s"@, "rxcmp/s"@, "txcmp/s"@, "rxmcst/s"@, "%ifutil"@],
        is_heading("IFACE"@),
        is_heading("rxpck/s"@),
        is_heading("txpck/s"@),
        is_heading("rxkB/s"@),
        is_heading("txkB/s"@),
        is_heading("rxcmp/s"@),
        is_heading("txcmp/s"@),
        is_heading("rxmcst/s"@),
        is_heading("%ifutil"@),
{
    reveal_strlit("IFACE;rxpck/s;txpck/s;rxkB/s;txkB/s;rxcmp/s;txcmp/s;rxmcst/s;%ifutil");
    reveal_strlit("IFACE");
    reveal_strlit("rxpck/s");
    reveal_strlit("txpck/s");
    reveal_strlit("rxkB/s");
    reveal_strlit("txkB/s");
    reveal_strlit("rxcmp/s");
    reveal_strlit("txcmp/s");
    reveal_strlit("rxmcst/s");
    reveal_strlit("%ifutil");
    let t0 = seq!["IFACE"@, "rxpck/s"@, "txpck/s"@, "rxkB/s"@, "txkB/s"@, "rxcmp/s"@, "txcmp/s"@, "rxmcst/s"@, "%ifutil"@];
    let s0 = joined_by(t0, ';');
    let all = seq![s0];
    assert(t0.take(9).drop_last() =~= t0.take(8));
    assert(t0.take(8).drop_last() =~= t0.take(7));
    assert(t0.take(7).drop_last() =~= t0.take(6));
    assert(t0.take(6).drop_last() =~= t0.take(5));
    assert(t0.take(5).drop_last() =~= t0.take(4));
    assert(t0.take(4).drop_last() =~= t0.take(3));
    assert(t0.take(3).drop_last() =~= t0.take(2));
    assert(t0.take(2).drop_last() =~= t0.take(1));
    assert(t0.take(9) =~= t0);
    reveal_with_fuel(joined_by, 10);
    assert(NET_DEV_HDR@ =~= joined_by(all, '|'));
    lemma_joined_lacks(t0, ';', '|');
    lemma_joined_lacks(t0, ';', '&');
    law_splitting_undoes_joining(all, '|');
    lemma_find_none(s0, '&');
    law_splitting_undoes_joining(t0, ';');
}

#[verifier::rlimit(80)]
proof fn lemma_net_edev_hdr()
    ensures
        split(NET_EDEV_HDR@, '|').len() == 1,
        forall|ext: bool| split(#[trigger] section_columns(split(NET_EDEV_HDR@, '|')[0], ext), ';') == seq!["IFACE"@, "rxerr/s"@, "txerr/s"@, "coll/s"@, "rxdrop/s"@, "txdrop/s"@, "txcarr/s"@, "rxfram/s"@, "rxfifo/s"@, "txfifo/s"@],
        is_heading("IFACE"@),
        is_heading("rxerr/s"@),
        is_heading("txerr/s"@),
        is_heading("coll/s"@),
        is_heading("rxdrop/s"@),
        is_heading("txdrop/s"@),
        is_heading("txcarr/s"@),
        is_heading("rxfram/s"@),
        is_heading("rxfifo/s"@),
        is_heading("txfifo/s"@),
{
    reveal_strlit("IFACE;rxerr/s;txerr/s;coll/s;rxdrop/s;txdrop/s;txcarr/s;rxfram/s;rxfifo/s;txfifo/s");
    reveal_strlit("IFACE");
    reveal_strlit("rxerr/s");
    reveal_strlit("txerr/s");
    reveal_strlit("coll/s");
    reveal_strlit("rxdrop/s");
    reveal_strlit("txdrop/s");
    reveal_strlit("txcarr/s");
    reveal_strlit("rxfram/s");
    reveal_strlit("rxfifo/s");
    reveal_strlit("txfifo/s");
    let t0 = seq!["IFACE"@, "rxerr/s"@, "txerr/s"@, "coll/s"@, "rxdrop/s"@, "txdrop/s"@, "txcarr/s"@, "rxfram/s"@, "rxfifo/s"@, "txfifo/s"@];
    let s0 = joined_by(t0, ';');
    let all = seq![s0];
    assert(t0.take(10).drop_last() =~= t0.take(9));
    assert(t0.take(9).drop_last() =~= t0.take(8));
    assert(t0.take(8).drop_last() =~= t0.take(7));
    assert(t0.take(7).drop_last() =~= t0.take(6));
    assert(t0.take(6).drop_last() =~= t0.take(5));
    assert(t0.take(5).drop_last() =~= t0.take(4));
    assert(t0.take(4).drop_last() =~= t0.take(3));
    assert(t0.take(3).drop_last() =~= t0.take(2));
    assert(t0.take(2).drop_last() =~= t0.take(1));
    assert(t0.take(10) =~= t0);
    reveal_with_fuel(joined_by, 11);
    assert(NET_EDEV_HDR@ =~= joined_by(all, '|'));
    lemma_joined_lacks(t0, ';', '|');
    lemma_joined_lacks(t0, ';', '&');
    law_splitting_undoes_joining(all, '|');
    lemma_find_none(s0, '&');
    law_splitting_undoes_joining(t0, ';');
}

#[verifier::rlimit(80)]
proof fn lemma_net_eicmp6_hdr()
    ensures
        split(NET_EICMP6_HDR@, '|').len() == 1,
        forall|ext: bool| split(#[trigger] section_columns(split(NET_EICMP6_HDR@, '|')[0], ext), ';') == seq!["ierr6/s"@, "idtunr6/s"@, "odtunr6/s"@, "itmex6/s"@, "otmex6/s"@, "iprmpb6/s"@, "oprmpb6/s"@, "iredir6/s"@, "oredir6/s"@, "ipck2b6/s"@, "opck2b6/s"@],
        is_heading("ierr6/s"@),
        is_heading("idtunr6/s"@),
        is_heading("odtunr6/s"@),
        is_heading("itmex6/s"@),
        is_heading("otmex6/s"@),
        is_heading("iprmpb6/s"@),
        is_heading("oprmpb6/s"@),
        is_heading("iredir6/s"@),
        is_heading("oredir6/s"@),
        is_heading("ipck2b6/s"@),
        is_heading("opck2b6/s"@),
{
    reveal_strlit("ierr6/s;idtunr6/s;odtunr6/s;itmex6/s;otmex6/s;iprmpb6/s;oprmpb6/s;iredir6/s;oredir6/s;ipck2b6/s;opck2b6/s");
    reveal_strlit("ierr6/s");
    reveal_strlit("idtunr6/s");
    reveal_strlit("odtunr6/s");
    reveal_strlit("itmex6/s");
    reveal_strlit("otmex6/s");
    reveal_strlit("iprmpb6/s");
    reveal_strlit("oprmpb6/s");
    reveal_strlit("iredir6/s");
    reveal_strlit("oredir6/s");
    reveal_strlit("ipck2b6/s");
    reveal_strlit("opck2b6/s");
    let t0 = seq!["ierr6/s"@, "idtunr6/s"@, "odtunr6/s"@, "itmex6/s"@, "otmex6/s"@, "iprmpb6/s"@, "oprmpb6/s"@, "iredir6/s"@, "oredir6/s"@, "ipck2b6/s"@, "opck2b6/s"@];
    let s0 = joined_by(t0, ';');
    let all = seq![s0];
    assert(t0.take(11).drop_last() =~= t0.take(10));
    assert(t0.take(10).drop_last() =~= t0.take(9));
    assert(t0.take(9).drop_last() =~= t0.take(8));
    assert(t0.take(8).drop_last() =~= t0.take(7));
    assert(t0.take(7).drop_last() =~= t0.take(6));
    assert(t0.take(6).drop_last() =~= t0.take(5));
    assert(t0.take(5).drop_last() =~= t0.take(4));
    assert(t0.take(4).drop_last() =~= t0.take(3));
    assert(t0.take(3).drop_last() =~= t0.take(2));
    assert(t0.take(2).drop_last() =~= t0.take(1));
    assert(t0.take(11) =~= t0);
    reveal_with_fuel(joined_by, 12);
    assert(NET_EICMP6_HDR@ =~= joined_by(all, '|'));
    lemma_joined_lacks(t0, ';', '|');
    lemma_joined_lacks(t0, ';', '&');
    law_splitting_undoes_joining(all, '|');
    lemma_find_none(s0, '&');
    law_splitting_undoes_joining(t0, ';');
}

#[verifier::rlimit(80)]
proof fn lemma_net_eicmp_hdr()
    ensures
        split(NET_EICMP_HDR@, '|').len() == 1,
        forall|ext: bool| split(#[trigger] section_columns(split(NET_EICMP_HDR@, '|')[0], ext), ';') == seq!["ierr/s"@, "oerr/s"@, "idstunr/s"@, "odstunr/s"@, "itmex/s"@, "otmex/s"@, "iparmpb/s"@, "oparmpb/s"@, "isrcq/s"@, "osrcq/s"@, "iredir/s"@, "oredir/s"@],
        is_heading("ierr/s"@),
        is_heading("oerr/s"@),
        is_heading("idstunr/s"@),
        is_heading("odstunr/s"@),
        is_heading("itmex/s"@),
        is_heading("otmex/s"@),
        is_heading("iparmpb/s"@),
        is_heading("oparmpb/s"@),
        is_heading("isrcq/s"@),
        is_heading("osrcq/s"@),
        is_heading("iredir/s"@),
        is_heading("oredir/s"@),
{
    reveal_strlit("ierr/s;oerr/s;idstunr/s;odstunr/s;itmex/s;otmex/s;iparmpb/s;oparmpb/s;isrcq/s;osrcq/s;iredir/s;oredir/s");
    reveal_strlit("ierr/s");
    reveal_strlit("oerr/s");
    reveal_strlit("idstunr/s");
    reveal_strlit("odstunr/s");
    reveal_strlit("itmex/s");
    reveal_strlit("otmex/s");
    reveal_strlit("iparmpb/s");
    reveal_strlit("oparmpb/s");
    reveal_strlit("isrcq/s");
    reveal_strlit("osrcq/s");
    reveal_strlit("iredir/s");
    reveal_strlit("oredir/s");
    let t0 = seq!["ierr/s"@, "oerr/s"@, "idstunr/s"@, "odstunr/s"@, "itmex/s"@, "otmex/s"@, "iparmpb/s"@, "oparmpb/s"@, "isrcq/s"@, "osrcq/s"@, "iredir/s"@, "oredir/s"@];
    let s0 = joined_by(t0, ';');
    let all = seq![s0];
    assert(t0.take(12).drop_last() =~= t0.take(11));
    assert(t0.take(11).drop_last() =~= t0.take(10));
    assert(t0.take(10).drop_last() =~= t0.take(9));
    assert(t0.take(9).drop_last() =~= t0.take(8));
    assert(t0.take(8).drop_last() =~= t0.take(7));
    assert(t0.take(7).drop_last() =~= t0.take(6));
    assert(t0.take(6).drop_last() =~= t0.take(5));
    assert(t0.take(5).drop_last() =~= t0.take(4));
    assert(t0.take(4).drop_last() =~= t0.take(3));
    assert(t0.take(3).drop_last() =~= t0.take(2));
    assert(t0.take(2).drop_last() =~= t0.take(1));
    assert(t0.take(12) =~= t0);
    reveal_with_fuel(joined_by, 13);
    assert(NET_EICMP_HDR@ =~= joined_by(all, '|'));
    lemma_joined_lacks(t0, ';', '|');
    lemma_joined_lacks(t0, ';', '&');
    law_splitting_undoes_joining(all, '|');
    lemma_find_none(s0, '&');
    law_splitting_undoes_joining(t0, ';');
}

#[verifier::rlimit(80)]
proof fn lemma_net_eip6_hdr()
    ensures
        split(NET_EIP6_HDR@, '|').len() == 1,
        forall|ext: bool| split(#[trigger] section_columns(split(NET_EIP6_HDR@, '|')[0], ext), ';') == seq!["ihdrer6/s"@, "iadrer6/s"@, "iukwnp6/s"@, "i2big6/s"@, "idisc6/s"@, "odisc6/s"@, "inort6/s"@, "onort6/s"@, "asmf6/s"@, "fragf6/s"@, "itrpck6/s"@],
        is_heading("ihdrer6/s"@),
        is_heading("iadrer6/s"@),
        is_heading("iukwnp6/s"@),
        is_heading("i2big6/s"@),
        is_heading("idisc6/s"@),
        is_heading("odisc6/s"@),
        is_heading("inort6/s"@),
        is_heading("onort6/s"@),
        is_heading("asmf6/s"@),
        is_heading("fragf6/s"@),
        is_heading("itrpck6/s"@),
{
    reveal_strlit("ihdrer6/s;iadrer6/s;iukwnp6/s;i2big6/s;idisc6/s;odisc6/s;inort6/s;onort6/s;asmf6/s;fragf6/s;itrpck6/s");
    reveal_strlit("ihdrer6/s");
    reveal_strlit("iadrer6/s");
    reveal_strlit("iukwnp6/s");
    reveal_strlit("i2big6/s");
    reveal_strlit("idisc6/s");
    reveal_strlit("odisc6/s");
    reveal_strlit("inort6/s");
    reveal_strlit("onort6/s");
    reveal_strlit("asmf6/s");
    reveal_strlit("fragf6/s");
    reveal_strlit("itrpck6/s");
    let t0 = seq!["ihdrer6/s"@, "iadrer6/s"@, "iukwnp6/s"@, "i2big6/s"@, "idisc6/s"@, "odisc6/s"@, "inort6/s"@, "onort6/s"@, "asmf6/s"@, "fragf6/s"@, "itrpck6/s"@];
    let s0 = joined_by(t0, ';');
    let all = seq![s0];
    assert(t0.take(11).drop_last() =~= t0.take(10));
    assert(t0.take(10).drop_last() =~= t0.take(9));
    assert(t0.take(9).drop_last() =~= t0.take(8));
    assert(t0.take(8).drop_last() =~= t0.take(7));
    assert(t0.take(7).drop_last() =~= t0.take(6));
    assert(t0.take(6).drop_last() =~= t0.take(5));
    assert(t0.take(5).drop_last() =~= t0.take(4));
    assert(t0.take(4).drop_last() =~= t0.take(3));
    assert(t0.take(3).drop_last() =~= t0.take(2));
    assert(t0.take(2).drop_last() =~= t0.take(1));
    assert(t0.take(11) =~= t0);
    reveal_with_fuel(joined_by, 12);
    assert(NET_EIP6_HDR@ =~= joined_by(all, '|'));
    lemma_joined_lacks(t0, ';', '|');
    lemma_joined_lacks(t0, ';', '&');
    law_splitting_undoes_joining(all, '|');
    lemma_find_none(s0, '&');
    law_splitting_undoes_joining(t0, ';');
}

#[verifier::rlimit(80)]
proof fn lemma_net_eip_hdr()
    ensures
        split(NET_EIP_HDR@, '|').len() == 1,
        forall|ext: bool| split(#[trigger] section_columns(split(NET_EIP_HDR@, '|')[0], ext), ';') == seq!["ihdrerr/s"@, "iadrerr/s"@, "iukwnpr/s"@, "idisc/s"@, "odisc/s"@, "onort/s"@, "asmf/s"@, "fragf/s"@],
        is_heading("ihdrerr/s"@),
        is_heading("iadrerr/s"@),
        is_heading("iukwnpr/s"@),
        is_heading("idisc/s"@),
        is_heading("odisc/s"@),
        is_heading("onort/s"@),
        is_heading("asmf/s"@),
        is_heading("fragf/s"@),
{
    reveal_strlit("ihdrerr/s;iadrerr/s;iukwnpr/s;idisc/s;odisc/s;onort/s;asmf/s;fragf/s");
    reveal_strlit("ihdrerr/s");
    reveal_strlit("iadrerr/s");
    reveal_strlit("iukwnpr/s");
    reveal_strlit("idisc/s");
    reveal_strlit("odisc/s");
    reveal_strlit("onort/s");
    reveal_strlit("asmf/s");
    reveal_strlit("fragf/s");
    let t0 = seq!["ihdrerr/s"@, "iadrerr/s"@, "iukwnpr/s"@, "idisc/s"@, "odisc/s"@, "onort/s"@, "asmf/s"@, "fragf/s"@];
    let s0 = joined_by(t0, ';');
    let all = seq![s0];
    assert(t0.take(8).drop_last() =~= t0.take(7));
    assert(t0.take(7).drop_last() =~= t0.take(6));
    assert(t0.take(6).drop_last() =~= t0.take(5));
    assert(t0.take(5).drop_last() =~= t0.take(4));
    assert(t0.take(4).drop_last() =~= t0.take(3));
    assert(t0.take(3).drop_last() =~= t0.take(2));
    assert(t0.take(2).drop_last() =~= t0.take(1));
    assert(t0.take(8) =~= t0);
    reveal_with_fuel(joined_by, 9);
    assert(NET_EIP_HDR@ =~= joined_by(all, '|'));
    lemma_joined_lacks(t0, ';', '|');
    lemma_joined_lacks(t0, ';', '&');
    law_splitting_undoes_joining(all, '|');
    lemma_find_none(s0, '&');
    law_splitting_undoes_joining(t0, ';');
}

proof fn lemma_net_etcp_hdr()
    ensures
        split(NET_ETCP_HDR@, '|').len() == 1,
        forall|ext: bool| split(#[trigger] section_columns(split(NET_ETCP_HDR@, '|')[0], ext), ';') == seq!["atmptf/s"@, "estres/s"@, "retrseg/s"@, "isegerr/s"@, "orsts/s"@],
        is_heading("atmptf/s"@),
        is_heading("estres/s"@),
        is_heading("retrseg/s"@),
        is_heading("isegerr/s"@),
        is_heading("orsts/s"@),
{
    reveal_strlit("atmptf/s;estres/s;retrseg/s;isegerr/s;orsts/s");
    reveal_strlit("atmptf/s");
    reveal_strlit("estres/s");
    reveal_strlit("retrseg/s");
    reveal_strlit("isegerr/s");
    reveal_strlit("orsts/s");
    let t0 = seq!["atmptf/s"@, "estres/s"@, "retrseg/s"@, "isegerr/s"@, "orsts/s"@];
    let s0 = joined_by(t0, ';');
    let all = seq![s0];
    assert(t0.take(5).drop_last() =~= t0.take(4));
    assert(t0.take(4).drop_last() =~= t0.take(3));
    assert(t0.take(3).drop_last() =~= t0.take(2));
    assert(t0.take(2).drop_last() =~= t0.take(1));
    assert(t0.take(5) =~= t0);
    reveal_with_fuel(joined_by, 6);
    assert(NET_ETCP_HDR@ =~= joined_by(all, '|'));
    lemma_joined_lacks(t0, ';', '|');
    lemma_joined_lacks(t0, ';', '&');
    law_splitting_undoes_joining(all, '|');
    lemma_find_none(s0, '&');
    law_splitting_undoes_joining(t0, ';');
}

proof fn lemma_net_fc_hdr()
    ensures
        split(NET_FC_HDR@, '|').len() == 1,
        forall|ext: bool| split(#[trigger] section_columns(split(NET_FC_HDR@, '|')[0], ext), ';') == seq!["FCHOST"@, "fch_rxf/s"@, "fch_txf/s"@, "fch_rxw/s"@, "fch_txw/s"@],
        is_heading("FCHOST"@),
        is_heading("fch_rxf/s"@),
        is_heading("fch_txf/s"@),
        is_heading("fch_rxw/s"@),
        is_heading("fch_txw/s"@),
{
    reveal_strlit("FCHOST;fch_rxf/s;fch_txf/s;fch_rxw/s;fch_txw/s");
    reveal_strlit("FCHOST");
    reveal_strlit("fch_rxf/s");
    reveal_strlit("fch_txf/s");
    reveal_strlit("fch_rxw/s");
    reveal_strlit("fch_txw/s");
    let t0 = seq!["FCHOST"@, "fch_rxf/s"@, "fch_txf/s"@, "fch_rxw/s"@, "fch_txw/s"@];
    let s0 = joined_by(t0, ';');
    let all = seq![s0];
    assert(t0.take(5).drop_last() =~= t0.take(4));
    assert(t0.take(4).drop_last() =~= t0.take(3));
    assert(t0.take(3).drop_last() =~= t0.take(2));
    assert(t0.take(2).drop_last() =~= t0.take(1));
    assert(t0.take(5) =~= t0);
    reveal_with_fuel(joined_by, 6);
    assert(NET_FC_HDR@ =~= joined_by(all, '|'));
    lemma_joined_lacks(t0, ';', '|');
    lemma_joined_lacks(t0, ';', '&');
    law_splitting_undoes_joining(all, '|');
    lemma_find_none(s0, '&');
    law_splitting_undoes_joining(t0, ';');
}

#[verifier::rlimit(80)]
proof fn lemma_net_icmp6_hdr()
    ensures
        split(NET_ICMP6_HDR@, '|').len() == 1,
        forall|ext: bool| split(#[trigger] section_columns(split(NET_ICMP6_HDR@, '|')[0], ext), ';') == seq!["imsg6/s"@, "omsg6/s"@, "iech6/s"@, "iechr6/s"@, "oechr6/s"@, "igmbq6/s"@, "igmbr6/s"@, "ogmbr6/s"@, "igmbrd6/s"@, "ogmbrd6/s"@, "irtsol6/s"@, "ortsol6/s"@, "irtad6/s"@, "inbsol6/s"@, "onbsol6/s"@, "inbad6/s"@, "onbad6/s"@],
        is_heading("imsg6/s"@),
        is_heading("omsg6/s"@),
        is_heading("iech6/s"@),
        is_heading("iechr6/s"@),
        is_heading("oechr6/s"@),
        is_heading("igmbq6/s"@),
        is_heading("igmbr6/s"@),
        is_heading("ogmbr6/s"@),
        is_heading("igmbrd6/s"@),
        is_heading("ogmbrd6/s"@),
        is_heading("irtsol6/s"@),
        is_heading("ortsol6/s"@),
        is_heading("irtad6/s"@),
        is_heading("inbsol6/s"@),
        is_heading("onbsol6/s"@),
        is_heading("inbad6/s"@),
        is_heading("onbad6/s"@),
{
    reveal_strlit("imsg6/s;omsg6/s;iech6/s;iechr6/s;oechr6/s;igmbq6/s;igmbr6/s;ogmbr6/s;igmbrd6/s;ogmbrd6/s;irtsol6/s;ortsol6/s;irtad6/s;inbsol6/s;onbsol6/s;inbad6/s;onbad6/s");
    reveal_strlit("imsg6/s");
    reveal_strlit("omsg6/s");
    reveal_strlit("iech6/s");
    reveal_strlit("iechr6/s");
    reveal_strlit("oechr6/s");
    reveal_strlit("igmbq6/s");
    reveal_strlit("igmbr6/s");
    reveal_strlit("ogmbr6/s");
    reveal_strlit("igmbrd6/s");
    reveal_strlit("ogmbrd6/s");
    reveal_strlit("irtsol6/s");
    reveal_strlit("ortsol6/s");
    reveal_strlit("irtad6/s");
    reveal_strlit("inbsol6/s");
    reveal_strlit("onbsol6/s");
    reveal_strlit("inbad6/s");
    reveal_strlit("onbad6/s");
    let t0 = seq!["imsg6/s"@, "omsg6/s"@, "iech6/s"@, "iechr6/s"@, "oechr6/s"@, "igmbq6/s"@, "igmbr6/s"@, "ogmbr6/s"@, "igmbrd6/s"@, "ogmbrd6/s"@, "irtsol6/s"@, "ortsol6/s"@, "irtad6/s"@, "inbsol6/s"@, "onbsol6/s"@, "inbad6/s"@, "onbad6/s"@];
    let s0 = joined_by(t0, ';');
    let all = seq![s0];
    assert(t0.take(17).drop_last() =~= t0.take(16));
    assert(t0.take(16).drop_last() =~= t0.take(15));
    assert(t0.take(15).drop_last() =~= t0.take(14));
    assert(t0.take(14).drop_last() =~= t0.take(13));
    assert(t0.take(13).drop_last() =~= t0.take(12));
    assert(t0.take(12).drop_last() =~= t0.take(11));
    assert(t0.take(11).drop_last() =~= t0.take(10));
    assert(t0.take(10).drop_last() =~= t0.take(9));
    assert(t0.take(9).drop_last() =~= t0.take(8));
    assert(t0.take(8).drop_last() =~= t0.take(7));
    assert(t0.take(7).drop_last() =~= t0.take(6));
    assert(t0.take(6).drop_last() =~= t0.take(5));
    assert(t0.take(5).drop_last() =~= t0.take(4));
    assert(t0.take(4).drop_last() =~= t0.take(3));
    assert(t0.take(3).drop_last() =~= t0.take(2));
    assert(t0.take(2).drop_last() =~= t0.take(1));
    assert(t0.take(17) =~= t0);
    reveal_with_fuel(joined_by, 18);
    assert(NET_ICMP6_HDR@ =~= joined_by(all, '|'));
    lemma_joined_lacks(t0, ';', '|');
    lemma_joined_lacks(t0, ';', '&');
    law_splitting_undoes_joining(all, '|');
    lemma_find_none(s0, '&');
    law_splitting_undoes_joining(t0, ';');
}

#[verifier::rlimit(80)]
proof fn lemma_net_icmp_hdr()
    ensures
        split(NET_ICMP_HDR@, '|').len() == 1,
        forall|ext: bool| split(#[trigger] section_columns(split(NET_ICMP_HDR@, '|')[0], ext), ';') == seq!["imsg/s"@, "omsg/s"@, "iech/s"@, "iechr/s"@, "oech/s"@, "oechr/s"@, "itm/s"@, "itmr/s"@, "otm/s"@, "otmr/s"@, "iadrmk/s"@, "iadrmkr/s"@, "oadrmk/s"@, "oadrmkr/s"@],
        is_heading("imsg/s"@),
        is_heading("omsg/s"@),
        is_heading("iech/s"@),
        is_heading("iechr/s"@),
        is_heading("oech/s"@),
        is_heading("oechr/s"@),
        is_heading("itm/s"@),
        is_heading("itmr/s"@),
        is_heading("otm/s"@),
        is_heading("otmr/s"@),
        is_heading("iadrmk/s"@),
        is_heading("iadrmkr/s"@),
        is_heading("oadrmk/s"@),
        is_heading("oadrmkr/s"@),
{
    reveal_strlit("imsg/s;omsg/s;iech/s;iechr/s;oech/s;oechr/s;itm/s;itmr/s;otm/s;otmr/s;iadrmk/s;iadrmkr/s;oadrmk/s;oadrmkr/s");
    reveal_strlit("imsg/s");
    reveal_strlit("omsg/s");
    reveal_strlit("iech/s");
    reveal_strlit("iechr/s");
    reveal_strlit("oech/s");
    reveal_strlit("oechr/s");
    reveal_strlit("itm/s");
    reveal_strlit("itmr/s");
    reveal_strlit("otm/s");
    reveal_strlit("otmr/s");
    reveal_strlit("iadrmk/s");
    reveal_strlit("iadrmkr/s");
    reveal_strlit("oadrmk/s");
    reveal_strlit("oadrmkr/s");
    let t0 = seq!["imsg/s"@, "omsg/s"@, "iech/s"@, "iechr/s"@, "oech/s"@, "oechr/s"@, "itm/s"@, "itmr/s"@, "otm/s"@, "otmr/s"@, "iadrmk/s"@, "iadrmkr/s"@, "oadrmk/s"@, "oadrmkr/s"@];
    let s0 = joined_by(t0, ';');
    let all = seq![s0];
    assert(t0.take(14).drop_last() =~= t0.take(13));
    assert(t0.take(13).drop_last() =~= t0.take(12));
    assert(t0.take(12).drop_last() =~= t0.take(11));
    assert(t0.take(11).drop_last() =~= t0.take(10));
    assert(t0.take(10).drop_last() =~= t0.take(9));
    assert(t0.take(9).drop_last() =~= t0.take(8));
    assert(t0.take(8).drop_last() =~= t0.take(7));
    assert(t0.take(7).drop_last() =~= t0.take(6));
    assert(t0.take(6).drop_last() =~= t0.take(5));
    assert(t0.take(5).drop_last() =~= t0.take(4));
    assert(t0.take(4).drop_last() =~= t0.take(3));
    assert(t0.take(3).drop_last() =~= t0.take(2));
    assert(t0.take(2).drop_last() =~= t0.take(1));
    assert(t0.take(14) =~= t0);
    reveal_with_fuel(joined_by, 15);
    assert(NET_ICMP_HDR@ =~= joined_by(all, '|'));
    lemma_joined_lacks(t0, ';', '|');
    lemma_joined_lacks(t0, ';', '&');
    law_splitting_undoes_joining(all, '|');
    lemma_find_none(s0, '&');
    law_splitting_undoes_joining(t0, ';');
}

#[verifier::rlimit(80)]
proof fn lemma_net_ip6_hdr()
    ensures
        split(NET_IP6_HDR@, '|').len() == 1,
        forall|ext: bool| split(#[trigger] section_columns(split(NET_IP6_HDR@, '|')[0], ext), ';') == seq!["irec6/s"@, "fwddgm6/s"@, "idel6/s"@, "orq6/s"@, "asmrq6/s"@, "asmok6/s"@, "imcpck6/s"@, "omcpck6/s"@, "fragok6/s"@, "fragcr6/s"@],
        is_heading("irec6/s"@),
        is_heading("fwddgm6/s"@),
        is_heading("idel6/s"@),
        is_heading("orq6/s"@),
        is_heading("asmrq6/s"@),
        is_heading("asmok6/s"@),
        is_heading("imcpck6/s"@),
        is_heading("omcpck6/s"@),
        is_heading("fragok6/s"@),
        is_heading("fragcr6/s"@),
{
    reveal_strlit("irec6/s;fwddgm6/s;idel6/s;orq6/s;asmrq6/s;asmok6/s;imcpck6/s;omcpck6/s;fragok6/s;fragcr6/s");
    reveal_strlit("irec6/s");
    reveal_strlit("fwddgm6/s");
    reveal_strlit("idel6/s");
    reveal_strlit("orq6/s");
    reveal_strlit("asmrq6/s");
    reveal_strlit("asmok6/s");
    reveal_strlit("imcpck6/s");
    reveal_strlit("omcpck6/s");
    reveal_strlit("fragok6/s");
    reveal_strlit("fragcr6/s");
    let t0 = seq!["irec6/s"@, "fwddgm6/s"@, "idel6/s"@, "orq6/s"@, "asmrq6/s"@, "asmok6/s"@, "imcpck6/s"@, "omcpck6/s"@, "fragok6/s"@, "fragcr6/s"@];
    let s0 = joined_by(t0, ';');
    let all = seq![s0];
    assert(t0.take(10).drop_last() =~= t0.take(9));
    assert(t0.take(9).drop_last() =~= t0.take(8));
    assert(t0.take(8).drop_last() =~= t0.take(7));
    assert(t0.take(7).drop_last() =~= t0.take(6));
    assert(t0.take(6).drop_last() =~= t0.take(5));
    assert(t0.take(5).drop_last() =~= t0.take(4));
    assert(t0.take(4).drop_last() =~= t0.take(3));
    assert(t0.take(3).drop_last() =~= t0.take(2));
    assert(t0.take(2).drop_last() =~= t0.take(1));
    assert(t0.take(10) =~= t0);
    reveal_with_fuel(joined_by, 11);
    assert(NET_IP6_HDR@ =~= joined_by(all, '|'));
    lemma_joined_lacks(t0, ';', '|');
    lemma_joined_lacks(t0, ';', '&');
    law_splitting_undoes_joining(all, '|');
    lemma_find_none(s0, '&');
    law_splitting_undoes_joining(t0, ';');
}

#[verifier::rlimit(80)]
proof fn lemma_net_ip_hdr()
    ensures
        split(NET_IP_HDR@, '|').len() == 1,
        forall|ext: bool| split(#[trigger] section_columns(split(NET_IP_HDR@, '|')[0], ext), ';') == seq!["irec/s"@, "fwddgm/s"@, "idel/s"@, "orq/s"@, "asmrq/s"@, "asmok/s"@, "fragok/s"@, "fragcrt/s"@],
        is_heading("irec/s"@),
        is_heading("fwddgm/s"@),
        is_heading("idel/s"@),
        is_heading("orq/s"@),
        is_heading("asmrq/s"@),
        is_heading("asmok/s"@),
        is_heading("fragok/s"@),
        is_heading("fragcrt/s"@),
{
    reveal_strlit("irec/s;fwddgm/s;idel/s;orq/s;asmrq/s;asmok/s;fragok/s;fragcrt/s");
    reveal_strlit("irec/s");
    reveal_strlit("fwddgm/s");
    reveal_strlit("idel/s");
    reveal_strlit("orq/s");
    reveal_strlit("asmrq/s");
    reveal_strlit("asmok/s");
    reveal_strlit("fragok/s");
    reveal_strlit("fragcrt/s");
    let t0 = seq!["irec/s"@, "fwddgm/s"@, "idel/s"@, "orq/s"@, "asmrq/s"@, "asmok/s"@, "fragok/s"@, "fragcrt/s"@];
    let s0 = joined_by(t0, ';');
    let all = seq![s0];
    assert(t0.take(8).drop_last() =~= t0.take(7));
    assert(t0.take(7).drop_last() =~= t0.take(6));
    assert(t0.take(6).drop_last() =~= t0.take(5));
    assert(t0.take(5).drop_last() =~= t0.take(4));
    assert(t0.take(4).drop_last() =~= t0.take(3));
    assert(t0.take(3).drop_last() =~= t0.take(2));
    assert(t0.take(2).drop_last() =~= t0.take(1));
    assert(t0.take(8) =~= t0);
    reveal_with_fuel(joined_by, 9);
    assert(NET_IP_HDR@ =~= joined_by(all, '|'));
    lemma_joined_lacks(t0, ';', '|');
    lemma_joined_lacks(t0, ';', '&');
    law_splitting_undoes_joining(all, '|');
    lemma_find_none(s0, '&');
    law_splitting_undoes_joining(t0, ';');
}

#[verifier::rlimit(80)]
proof fn lemma_net_nfsd_hdr()
    ensures
        split(NET_NFSD_HDR@, '|').len() == 1,
        forall|ext: bool| split(#[trigger] section_columns(split(NET_NFSD_HDR@, '|')[0], ext), ';') == seq!["scall/s"@, "badcall/s"@, "packet/s"@, "udp/s"@, "tcp/s"@, "hit/s"@, "miss/s"@, "sread/s"@, "swrite/s"@, "saccess/s"@, "sgetatt/s"@],
        is_heading("scall/s"@),
        is_heading("badcall/s"@),
        is_heading("packet/s"@),
        is_heading("udp/s"@),
        is_heading("tcp/s"@),
        is_heading("hit/s"@),
        is_heading("miss/s"@),
        is_heading("sread/s"@),
        is_heading("swrite/s"@),
        is_heading("saccess/s"@),
        is_heading("sgetatt/s"@),
{
    reveal_strlit("scall/s;badcall/s;packet/s;udp/s;tcp/s;hit/s;miss/s;sread/s;swrite/s;saccess/s;sgetatt/s");
    reveal_strlit("scall/s");
    reveal_strlit("badcall/s");
    reveal_strlit("packet/s");
    reveal_strlit("udp/s");
    reveal_strlit("tcp/s");
    reveal_strlit("hit/s");
    reveal_strlit("miss/s");
    reveal_strlit("sread/s");
    reveal_strlit("swrite/s");
    reveal_strlit("saccess/s");
    reveal_strlit("sgetatt/s");
    let t0 = seq!["scall/s"@, "badcall/s"@, "packet/s"@, "udp/s"@, "tcp/s"@, "hit/s"@, "miss/s"@, "sread/s"@, "swrite/s"@, "saccess/s"@, "sgetatt/s"@];
    let s0 = joined_by(t0, ';');
    let all = seq![s0];
    assert(t0.take(11).drop_last() =~= t0.take(10));
    assert(t0.take(10).drop_last() =~= t0.take(9));
    assert(t0.take(9).drop_last() =~= t0.take(8));
    assert(t0.take(8).drop_last() =~= t0.take(7));
    assert(t0.take(7).drop_last() =~= t0.take(6));
    assert(t0.take(6).drop_last() =~= t0.take(5));
    assert(t0.take(5).drop_last() =~= t0.take(4));
    assert(t0.take(4).drop_last() =~= t0.take(3));
    assert(t0.take(3).drop_last() =~= t0.take(2));
    assert(t0.take(2).drop_last() =~= t0.take(1));
    assert(t0.take(11) =~= t0);
    reveal_with_fuel(joined_by, 12);
    assert(NET_NFSD_HDR@ =~= joined_by(all, '|'));
    lemma_joined_lacks(t0, ';', '|');
    lemma_joined_lacks(t0, ';', '&');
    law_splitting_undoes_joining(all, '|');
    lemma_find_none(s0, '&');
    law_splitting_undoes_joining(t0, ';');
}

proof fn lemma_net_nfs_hdr()
    ensures
        split(NET_NFS_HDR@, '|').len() == 1,
        forall|ext: bool| split(#[trigger] section_columns(split(NET_NFS_HDR@, '|')[0], ext), ';') == seq!["call/s"@, "retrans/s"@, "read/s"@, "write/s"@, "access/s"@, "getatt/s"@],
        is_heading("call/s"@),
        is_heading("retrans/s"@),
        is_heading("read/s"@),
        is_heading("write/s"@),
        is_heading("access/s"@),
        is_heading("getatt/s"@),
{
    reveal_strlit("call/s;retrans/s;read/s;write/s;access/s;getatt/s");
    reveal_strlit("call/s");
    reveal_strlit("retrans/s");
    reveal_strlit("read/s");
    reveal_strlit("write/s");
    reveal_strlit("access/s");
    reveal_strlit("getatt/s");
    let t0 = seq!["call/s"@, "retrans/s"@, "read/s"@, "write/s"@, "access/s"@, "getatt/s"@];
    let s0 = joined_by(t0, ';');
    let all = seq![s0];
    assert(t0.take(6).drop_last() =~= t0.take(5));
    assert(t0.take(5).drop_last() =~= t0.take(4));
    assert(t0.take(4).drop_last() =~= t0.take(3));
    assert(t0.take(3).drop_last() =~= t0.take(2));
    assert(t0.take(2).drop_last() =~= t0.take(1));
    assert(t0.take(6) =~= t0);
    reveal_with_fuel(joined_by, 7);
    assert(NET_NFS_HDR@ =~= joined_by(all, '|'));
    lemma_joined_lacks(t0, ';', '|');
    lemma_joined_lacks(t0, ';', '&');
    law_splitting_undoes_joining(all, '|');
    lemma_find_none(s0, '&');
    law_splitting_undoes_joining(t0, ';');
}

proof fn lemma_net_sock6_hdr()
    ensures
        split(NET_SOCK6_HDR@, '|').len() == 1,
        forall|ext: bool| split(#[trigger] section_columns(split(NET_SOCK6_HDR@, '|')[0], ext), ';') == seq!["tcp6sck"@, "udp6sck"@, "raw6sck"@, "ip6-frag"@],
        is_heading("tcp6sck"@),
        is_heading("udp6sck"@),
        is_heading("raw6sck"@),
        is_heading("ip6-frag"@),
{
    reveal_strlit("tcp6sck;udp6sck;raw6sck;ip6-frag");
    reveal_strlit("tcp6sck");
    reveal_strlit("udp6sck");
    reveal_strlit("raw6sck");
    reveal_strlit("ip6-frag");
    let t0 = seq!["tcp6sck"@, "udp6sck"@, "raw6sck"@, "ip6-frag"@];
    let s0 = joined_by(t0, ';');
    let all = seq![s0];
    assert(t0.take(4).drop_last() =~= t0.take(3));
    assert(t0.take(3).drop_last() =~= t0.take(2));
    assert(t0.take(2).drop_last() =~= t0.take(1));
    assert(t0.take(4) =~= t0);
    reveal_with_fuel(joined_by, 5);
    assert(NET_SOCK6_HDR@ =~= joined_by(all, '|'));
    lemma_joined_lacks(t0, ';', '|');
    lemma_joined_lacks(t0, ';', '&');
    law_splitting_undoes_joining(all, '|');
    lemma_find_none(s0, '&');
    law_splitting_undoes_joining(t0, ';');
}

proof fn lemma_net_sock_hdr()
    ensures
        split(NET_SOCK_HDR@, '|').len() == 1,
        forall|ext: bool| split(#[trigger] section_columns(split(NET_SOCK_HDR@, '|')[0], ext), ';') == seq!["totsck"@, "tcpsck"@, "udpsck"@, "rawsck"@, "ip-frag"@, "tcp-tw"@],
        is_heading("totsck"@),
        is_heading("tcpsck"@),
        is_heading("udpsck"@),
        is_heading("rawsck"@),
        is_heading("ip-frag"@),
        is_heading("tcp-tw"@),
{
    reveal_strlit("totsck;tcpsck;udpsck;rawsck;ip-frag;tcp-tw");
    reveal_strlit("totsck");
    reveal_strlit("tcpsck");
    reveal_strlit("udpsck");
    reveal_strlit("rawsck");
    reveal_strlit("ip-frag");
    reveal_strlit("tcp-tw");
    let t0 = seq!["totsck"@, "tcpsck"@, "udpsck"@, "rawsck"@, "ip-frag"@, "tcp-tw"@];
    let s0 = joined_by(t0, ';');
    let all = seq![s0];
    assert(t0.take(6).drop_last() =~= t0.take(5));
    assert(t0.take(5).drop_last() =~= t0.take(4));
    assert(t0.take(4).drop_last() =~= t0.take(3));
    assert(t0.take(3).drop_last() =~= t0.take(2));
    assert(t0.take(2).drop_last() =~= t0.take(1));
    assert(t0.take(6) =~= t0);
    reveal_with_fuel(joined_by, 7);
    assert(NET_SOCK_HDR@ =~= joined_by(all, '|'));
    lemma_joined_lacks(t0, ';', '|');
    lemma_joined_lacks(t0, ';', '&');
    law_splitting_undoes_joining(all, '|');
    lemma_find_none(s0, '&');
    law_splitting_undoes_joining(t0, ';');
}

proof fn lemma_net_soft_hdr()
    ensures
        split(NET_SOFT_HDR@, '|').len() == 1,
        forall|ext: bool| split(#[trigger] section_columns(split(NET_SOFT_HDR@, '|')[0], ext), ';') == seq!["CPU"@, "total/s"@, "dropd/s"@, "squeezd/s"@, "rx_rps/s"@, "flw_lim/s"@, "blg_len"@],
        is_heading("CPU"@),
        is_heading("total/s"@),
        is_heading("dropd/s"@),
        is_heading("squeezd/s"@),
        is_heading("rx_rps/s"@),
        is_heading("flw_lim/s"@),
        is_heading("blg_len"@),
{
    reveal_strlit("CPU;total/s;dropd/s;squeezd/s;rx_rps/s;flw_lim/s;blg_len");
    reveal_strlit("CPU");
    reveal_strlit("total/s");
    reveal_strlit("dropd/s");
    reveal_strlit("squeezd/s");
    reveal_strlit("rx_rps/s");
    reveal_strlit("flw_lim/s");
    reveal_strlit("blg_len");
    let t0 = seq!["CPU"@, "total/s"@, "dropd/s"@, "squeezd/s"@, "rx_rps/s"@, "flw_lim/s"@, "blg_len"@];
    let s0 = joined_by(t0, ';');
    let all = seq![s0];
    assert(t0.take(7).drop_last() =~= t0.take(6));
    assert(t0.take(6).drop_last() =~= t0.take(5));
    assert(t0.take(5).drop_last() =~= t0.take(4));
    assert(t0.take(4).drop_last() =~= t0.take(3));
    assert(t0.take(3).drop_last() =~= t0.take(2));
    assert(t0.take(2).drop_last() =~= t0.take(1));
    assert(t0.take(7) =~= t0);
    reveal_with_fuel(joined_by, 8);
    assert(NET_SOFT_HDR@ =~= joined_by(all, '|'));
    lemma_joined_lacks(t0, ';', '|');
    lemma_joined_lacks(t0, ';', '&');
    law_splitting_undoes_joining(all, '|');
    lemma_find_none(s0, '&');
    law_splitting_undoes_joining(t0, ';');
}

proof fn lemma_net_tcp_hdr()
    ensures
        split(NET_TCP_HDR@, '|').len() == 1,
        forall|ext: bool| split(#[trigger] section_columns(split(NET_TCP_HDR@, '|')[0], ext), ';') == seq!["active/s"@, "passive/s"@, "iseg/s"@, "oseg/s"@],
        is_heading("active/s"@),
        is_heading("passive/s"@),
        is_heading("iseg/s"@),
        is_heading("oseg/s"@),
{
    reveal_strlit("active/s;passive/s;iseg/s;oseg/s");
    reveal_strlit("active/s");
    reveal_strlit("passive/s");
    reveal_strlit("iseg/s");
    reveal_strlit("oseg/s");
    let t0 = seq!["active/s"@, "passive/s"@, "iseg/s"@, "oseg/s"@];
    let s0 = joined_by(t0, ';');
    let all = seq![s0];
    assert(t0.take(4).drop_last() =~= t0.take(3));
    assert(t0.take(3).drop_last() =~= t0.take(2));
    assert(t0.take(2).drop_last() =~= t0.take(1));
    assert(t0.take(4) =~= t0);
    reveal_with_fuel(joined_by, 5);
    assert(NET_TCP_HDR@ =~= joined_by(all, '|'));
    lemma_joined_lacks(t0, ';', '|');
    lemma_joined_lacks(t0, ';', '&');
    law_splitting_undoes_joining(all, '|');
    lemma_find_none(s0, '&');
    law_splitting_undoes_joining(t0, ';');
}

proof fn lemma_net_udp6_hdr()
    ensures
        split(NET_UDP6_HDR@, '|').len() == 1,
        forall|ext: bool| split(#[trigger] section_columns(split(NET_UDP6_HDR@, '|')[0], ext), ';') == seq!["idgm6/s"@, "odgm6/s"@, "noport6/s"@, "idgmer6/s"@],
        is_heading("idgm6/s"@),
        is_heading("odgm6/s"@),
        is_heading("noport6/s"@),
        is_heading("idgmer6/s"@),
{
    reveal_strlit("idgm6/s;odgm6/s;noport6/s;idgmer6/s");
    reveal_strlit("idgm6/s");
    reveal_strlit("odgm6/s");
    reveal_strlit("noport6/s");
    reveal_strlit("idgmer6/s");
    let t0 = seq!["idgm6/s"@, "odgm6/s"@, "noport6/s"@, "idgmer6/s"@];
    let s0 = joined_by(t0, ';');
    let all = seq![s0];
    assert(t0.take(4).drop_last() =~= t0.take(3));
    assert(t0.take(3).drop_last() =~= t0.take(2));
    assert(t0.take(2).drop_last() =~= t0.take(1));
    assert(t0.take(4) =~= t0);
    reveal_with_fuel(joined_by, 5);
    assert(NET_UDP6_HDR@ =~= joined_by(all, '|'));
    lemma_joined_lacks(t0, ';', '|');
    lemma_joined_lacks(t0, ';', '&');
    law_splitting_undoes_joining(all, '|');
    lemma_find_none(s0, '&');
    law_splitting_undoes_joining(t0, ';');
}

proof fn lemma_net_udp_hdr()
    ensures
        split(NET_UDP_HDR@, '|').len() == 1,
        forall|ext: bool| split(#[trigger] section_columns(split(NET_UDP_HDR@, '|')[0], ext), ';') == seq!["idgm/s"@, "odgm/s"@, "noport/s"@, "idgmerr/s"@],
        is_heading("idgm/s"@),
        is_heading("odgm/s"@),
        is_heading("noport/s"@),
        is_heading("idgmerr/s"@),
{
    reveal_strlit("idgm/s;odgm/s;noport/s;idgmerr/s");
    reveal_strlit("idgm/s");
    reveal_strlit("odgm/s");
    reveal_strlit("noport/s");
    reveal_strlit("idgmerr/s");
    let t0 = seq!["idgm/s"@, "odgm/s"@, "noport/s"@, "idgmerr/s"@];
    let s0 = joined_by(t0, ';');
    let all = seq![s0];
    assert(t0.take(4).drop_last() =~= t0.take(3));
    assert(t0.take(3).drop_last() =~= t0.take(2));
    assert(t0.take(2).drop_last() =~= t0.take(1));
    assert(t0.take(4) =~= t0);
    reveal_with_fuel(joined_by, 5);
    assert(NET_UDP_HDR@ =~= joined_by(all, '|'));
    lemma_joined_lacks(t0, ';', '|');
    lemma_joined_lacks(t0, ';', '&');
    law_splitting_undoes_joining(all, '|');
    lemma_find_none(s0, '&');
    law_splitting_undoes_joining(t0, ';');
}

#[verifier::rlimit(80)]
proof fn lemma_page_hdr()
    ensures
        split(PAGE_HDR@, '|').len() == 1,
        forall|ext: bool| split(#[trigger] section_columns(split(PAGE_HDR@, '|')[0], ext), ';') == seq!["pgpgin/s"@, "pgpgout/s"@, "fault/s"@, "majflt/s"@, "pgfree/s"@, "pgscank/s"@, "pgscand/s"@, "pgsteal/s"@, "pgprom/s"@, "pgdem/s"@],
        is_heading("pgpgin/s"@),
        is_heading("pgpgout/s"@),
        is_heading("fault/s"@),
        is_heading("majflt/s"@),
        is_heading("pgfree/s"@),
        is_heading("pgscank/s"@),
        is_heading("pgscand/s"@),
        is_heading("pgsteal/s"@),
        is_heading("pgprom/s"@),
        is_heading("pgdem/s"@),
{
    reveal_strlit("pgpgin/s;pgpgout/s;fault/s;majflt/s;pgfree/s;pgscank/s;pgscand/s;pgsteal/s;pgprom/s;pgdem/s");
    reveal_strlit("pgpgin/s");
    reveal_strlit("pgpgout/s");
    reveal_strlit("fault/s");
    reveal_strlit("majflt/s");
    reveal_strlit("pgfree/s");
    reveal_strlit("pgscank/s");
    reveal_strlit("pgscand/s");
    reveal_strlit("pgsteal/s");
    reveal_strlit("pgprom/s");
    reveal_strlit("pgdem/s");
    let t0 = seq!["pgpgin/s"@, "pgpgout/s"@, "fault/s"@, "majflt/s"@, "pgfree/s"@, "pgscank/s"@, "pgscand/s"@, "pgsteal/s"@, "pgprom/s"@, "pgdem/s"@];
    let s0 = joined_by(t0, ';');
    let all = seq![s0];
    assert(t0.take(10).drop_last() =~= t0.take(9));
    assert(t0.take(9).drop_last() =~= t0.take(8));
    assert(t0.take(8).drop_last() =~= t0.take(7));
    assert(t0.take(7).drop_last() =~= t0.take(6));
    assert(t0.take(6).drop_last() =~= t0.take(5));
    assert(t0.take(5).drop_last() =~= t0.take(4));
    assert(t0.take(4).drop_last() =~= t0.take(3));
    assert(t0.take(3).drop_last() =~= t0.take(2));
    assert(t0.take(2).drop_last() =~= t0.take(1));
    assert(t0.take(10) =~= t0);
    reveal_with_fuel(joined_by, 11);
    assert(PAGE_HDR@ =~= joined_by(all, '|'));
    lemma_joined_lacks(t0, ';', '|');
    lemma_joined_lacks(t0, ';', '&');
    law_splitting_undoes_joining(all, '|');
    lemma_find_none(s0, '&');
    law_splitting_undoes_joining(t0, ';');
}

proof fn lemma_pcsw_hdr()
    ensures
        split(PCSW_HDR@, '|').len() == 1,
        forall|ext: bool| split(#[trigger] section_columns(split(PCSW_HDR@, '|')[0], ext), ';') == seq!["proc/s"@, "cswch/s"@],
        is_heading("proc/s"@),
        is_heading("cswch/s"@),
{
    reveal_strlit("proc/s;cswch/s");
    reveal_strlit("proc/s");
    reveal_strlit("cswch/s");
    let t0 = seq!["proc/s"@, "cswch/s"@];
    let s0 = joined_by(t0, ';');
    let all = seq![s0];
    assert(t0.take(2).drop_last() =~= t0.take(1));
    assert(t0.take(2) =~= t0);
    reveal_with_fuel(joined_by, 3);
    assert(PCSW_HDR@ =~= joined_by(all, '|'));
    lemma_joined_lacks(t0, ';', '|');
    lemma_joined_lacks(t0, ';', '&');
    law_splitting_undoes_joining(all, '|');
    lemma_find_none(s0, '&');
    law_splitting_undoes_joining(t0, ';');
}

proof fn lemma_psi_cpu_hdr()
    ensures
        split(PSI_CPU_HDR@, '|').len() == 1,
        forall|ext: bool| split(#[trigger] section_columns(split(PSI_CPU_HDR@, '|')[0], ext), ';') == seq!["%scpu-10"@, "%scpu-60"@, "%scpu-300"@, "%scpu"@],
        is_heading("%scpu-10"@),
        is_heading("%scpu-60"@),
        is_heading("%scpu-300"@),
        is_heading("%scpu"@),
{
    reveal_strlit("%scpu-10;%scpu-60;%scpu-300;%scpu");
    reveal_strlit("%scpu-10");
    reveal_strlit("%scpu-60");
    reveal_strlit("%scpu-300");
    reveal_strlit("%scpu");
    let t0 = seq!["%scpu-10"@, "%scpu-60"@, "%scpu-300"@, "%scpu"@];
    let s0 = joined_by(t0, ';');
    let all = seq![s0];
    assert(t0.take(4).drop_last() =~= t0.take(3));
    assert(t0.take(3).drop_last() =~= t0.take(2));
    assert(t0.take(2).drop_last() =~= t0.take(1));
    assert(t0.take(4) =~= t0);
    reveal_with_fuel(joined_by, 5);
    assert(PSI_CPU_HDR@ =~= joined_by(all, '|'));
    lemma_joined_lacks(t0, ';', '|');
    lemma_joined_lacks(t0, ';', '&');
    law_splitting_undoes_joining(all, '|');
    lemma_find_none(s0, '&');
    law_splitting_undoes_joining(t0, ';');
}

#[verifier::rlimit(80)]
proof fn lemma_psi_io_hdr()
    ensures
        split(PSI_IO_HDR@, '|').len() == 1,
        forall|ext: bool| split(#[trigger] section_columns(split(PSI_IO_HDR@, '|')[0], ext), ';') == seq!["%sio-10"@, "%sio-60"@, "%sio-300"@, "%sio"@, "%fio-10"@, "%fio-60"@, "%fio-300"@, "%fio"@],
        is_heading("%sio-10"@),
        is_heading("%sio-60"@),
        is_heading("%sio-300"@),
        is_heading("%sio"@),
        is_heading("%fio-10"@),
        is_heading("%fio-60"@),
        is_heading("%fio-300"@),
        is_heading("%fio"@),
{
    reveal_strlit("%sio-10;%sio-60;%sio-300;%sio;%fio-10;%fio-60;%fio-300;%fio");
    reveal_strlit("%sio-10");
    reveal_strlit("%sio-60");
    reveal_strlit("%sio-300");
    reveal_strlit("%sio");
    reveal_strlit("%fio-10");
    reveal_strlit("%fio-60");
    reveal_strlit("%fio-300");
    reveal_strlit("%fio");
    let t0 = seq!["%sio-10"@, "%sio-60"@, "%sio-300"@, "%sio"@, "%fio-10"@, "%fio-60"@, "%fio-300"@, "%fio"@];
    let s0 = joined_by(t0, ';');
    let all = seq![s0];
    assert(t0.take(8).drop_last() =~= t0.take(7));
    assert(t0.take(7).drop_last() =~= t0.take(6));
    assert(t0.take(6).drop_last() =~= t0.take(5));
    assert(t0.take(5).drop_last() =~= t0.take(4));
    assert(t0.take(4).drop_last() =~= t0.take(3));
    assert(t0.take(3).drop_last() =~= t0.take(2));
    assert(t0.take(2).drop_last() =~= t0.take(1));
    assert(t0.take(8) =~= t0);
    reveal_with_fuel(joined_by, 9);
    assert(PSI_IO_HDR@ =~= joined_by(all, '|'));
    lemma_joined_lacks(t0, ';', '|');
    lemma_joined_lacks(t0, ';', '&');
    law_splitting_undoes_joining(all, '|');
    lemma_find_none(s0, '&');
    law_splitting_undoes_joining(t0, ';');
}

#[verifier::rlimit(80)]
proof fn lemma_psi_mem_hdr()
    ensures
        split(PSI_MEM_HDR@, '|').len() == 1,
        forall|ext: bool| split(#[trigger] section_columns(split(PSI_MEM_HDR@, '|')[0], ext), ';') == seq!["%smem-10"@, "%smem-60"@, "%smem-300"@, "%smem"@, "%fmem-10"@, "%fmem-60"@, "%fmem-300"@, "%fmem"@],
        is_heading("%smem-10"@),
        is_heading("%smem-60"@),
        is_heading("%smem-300"@),
        is_heading("%smem"@),
        is_heading("%fmem-10"@),
        is_heading("%fmem-60"@),
        is_heading("%fmem-300"@),
        is_heading("%fmem"@),
{
    reveal_strlit("%smem-10;%smem-60;%smem-300;%smem;%fmem-10;%fmem-60;%fmem-300;%fmem");
    reveal_strlit("%smem-10");
    reveal_strlit("%smem-60");
    reveal_strlit("%smem-300");
    reveal_strlit("%smem");
    reveal_strlit("%fmem-10");
    reveal_strlit("%fmem-60");
    reveal_strlit("%fmem-300");
    reveal_strlit("%fmem");
    let t0 = seq!["%smem-10"@, "%smem-60"@, "%smem-300"@, "%smem"@, "%fmem-10"@, "%fmem-60"@, "%fmem-300"@, "%fmem"@];
    let s0 = joined_by(t0, ';');
    let all = seq![s0];
    assert(t0.take(8).drop_last() =~= t0.take(7));
    assert(t0.take(7).drop_last() =~= t0.take(6));
    assert(t0.take(6).drop_last() =~= t0.take(5));
    assert(t0.take(5).drop_last() =~= t0.take(4));
    assert(t0.take(4).drop_last() =~= t0.take(3));
    assert(t0.take(3).drop_last() =~= t0.take(2));
    assert(t0.take(2).drop_last() =~= t0.take(1));
    assert(t0.take(8) =~= t0);
    reveal_with_fuel(joined_by, 9);
    assert(PSI_MEM_HDR@ =~= joined_by(all, '|'));
    lemma_joined_lacks(t0, ';', '|');
    lemma_joined_lacks(t0, ';', '&');
    law_splitting_undoes_joining(all, '|');
    lemma_find_none(s0, '&');
    law_splitting_undoes_joining(t0, ';');
}

proof fn lemma_pwr_bat_hdr()
    ensures
        split(PWR_BAT_HDR@, '|').len() == 1,
        forall|ext: bool| split(#[trigger] section_columns(split(PWR_BAT_HDR@, '|')[0], ext), ';') == seq!["BAT"@, "%cap"@, "cap/min"@, "status"@],
        is_heading("BAT"@),
        is_heading("%cap"@),
        is_heading("cap/min"@),
        is_heading("status"@),
{
    reveal_strlit("BAT;%cap;cap/min;status");
    reveal_strlit("BAT");
    reveal_strlit("%cap");
    reveal_strlit("cap/min");
    reveal_strlit("status");
    let t0 = seq!["BAT"@, "%cap"@, "cap/min"@, "status"@];
    let s0 = joined_by(t0, ';');
    let all = seq![s0];
    assert(t0.take(4).drop_last() =~= t0.take(3));
    assert(t0.take(3).drop_last() =~= t0.take(2));
    assert(t0.take(2).drop_last() =~= t0.take(1));
    assert(t0.take(4) =~= t0);
    reveal_with_fuel(joined_by, 5);
    assert(PWR_BAT_HDR@ =~= joined_by(all, '|'));
    lemma_joined_lacks(t0, ';', '|');
    lemma_joined_lacks(t0, ';', '&');
    law_splitting_undoes_joining(all, '|');
    lemma_find_none(s0, '&');
    law_splitting_undoes_joining(t0, ';');
}

proof fn lemma_pwr_cpu_hdr()
    ensures
        split(PWR_CPU_HDR@, '|').len() == 1,
        forall|ext: bool| split(#[trigger] section_columns(split(PWR_CPU_HDR@, '|')[0], ext), ';') == seq!["CPU"@, "MHz"@],
        is_heading("CPU"@),
        is_heading("MHz"@),
{
    reveal_strlit("CPU;MHz");
    reveal_strlit("CPU");
    reveal_strlit("MHz");
    let t0 = seq!["CPU"@, "MHz"@];
    let s0 = joined_by(t0, ';');
    let all = seq![s0];
    assert(t0.take(2).drop_last() =~= t0.take(1));
    assert(t0.take(2) =~= t0);
    reveal_with_fuel(joined_by, 3);
    assert(PWR_CPU_HDR@ =~= joined_by(all, '|'));
    lemma_joined_lacks(t0, ';', '|');
    lemma_joined_lacks(t0, ';', '&');
    law_splitting_undoes_joining(all, '|');
    lemma_find_none(s0, '&');
    law_splitting_undoes_joining(t0, ';');
}

proof fn lemma_pwr_fan_hdr()
    ensures
        split(PWR_FAN_HDR@, '|').len() == 1,
        forall|ext: bool| split(#[trigger] section_columns(split(PWR_FAN_HDR@, '|')[0], ext), ';') == seq!["FAN"@, "DEVICE"@, "rpm"@, "drpm"@],
        is_heading("FAN"@),
        is_heading("DEVICE"@),
        is_heading("rpm"@),
        is_heading("drpm"@),
{
    reveal_strlit("FAN;DEVICE;rpm;drpm");
    reveal_strlit("FAN");
    reveal_strlit("DEVICE");
    reveal_strlit("rpm");
    reveal_strlit("drpm");
    let t0 = seq!["FAN"@, "DEVICE"@, "rpm"@, "drpm"@];
    let s0 = joined_by(t0, ';');
    let all = seq![s0];
    assert(t0.take(4).drop_last() =~= t0.take(3));
    assert(t0.take(3).drop_last() =~= t0.take(2));
    assert(t0.take(2).drop_last() =~= t0.take(1));
    assert(t0.take(4) =~= t0);
    reveal_with_fuel(joined_by, 5);
    assert(PWR_FAN_HDR@ =~= joined_by(all, '|'));
    lemma_joined_lacks(t0, ';', '|');
    lemma_joined_lacks(t0, ';', '&');
    law_splitting_undoes_joining(all, '|');
    lemma_find_none(s0, '&');
    law_splitting_undoes_joining(t0, ';');
}

proof fn lemma_pwr_freq_hdr()
    ensures
        split(PWR_FREQ_HDR@, '|').len() == 1,
        forall|ext: bool| split(#[trigger] section_columns(split(PWR_FREQ_HDR@, '|')[0], ext), ';') == seq!["CPU"@, "wghMHz"@],
        is_heading("CPU"@),
        is_heading("wghMHz"@),
{
    reveal_strlit("CPU;wghMHz");
    reveal_strlit("CPU");
    reveal_strlit("wghMHz");
    let t0 = seq!["CPU"@, "wghMHz"@];
    let s0 = joined_by(t0, ';');
    let all = seq![s0];
    assert(t0.take(2).drop_last() =~= t0.take(1));
    assert(t0.take(2) =~= t0);
    reveal_with_fuel(joined_by, 3);
    assert(PWR_FREQ_HDR@ =~= joined_by(all, '|'));
    lemma_joined_lacks(t0, ';', '|');
    lemma_joined_lacks(t0, ';', '&');
    law_splitting_undoes_joining(all, '|');
    lemma_find_none(s0, '&');
    law_splitting_undoes_joining(t0, ';');
}

proof fn lemma_pwr_in_hdr()
    ensures
        split(PWR_IN_HDR@, '|').len() == 1,
        forall|ext: bool| split(#[trigger] section_columns(split(PWR_IN_HDR@, '|')[0], ext), ';') == seq!["IN"@, "DEVICE"@, "inV"@, "%in"@],
        is_heading("IN"@),
        is_heading("DEVICE"@),
        is_heading("inV"@),
        is_heading("%in"@),
{
    reveal_strlit("IN;DEVICE;inV;%in");
    reveal_strlit("IN");
    reveal_strlit("DEVICE");
    reveal_strlit("inV");
    reveal_strlit("%in");
    let t0 = seq!["IN"@, "DEVICE"@, "inV"@, "%in"@];
    let s0 = joined_by(t0, ';');
    let all = seq![s0];
    assert(t0.take(4).drop_last() =~= t0.take(3));
    assert(t0.take(3).drop_last() =~= t0.take(2));
    assert(t0.take(2).drop_last() =~= t0.take(1));
    assert(t0.take(4) =~= t0);
    reveal_with_fuel(joined_by, 5);
    assert(PWR_IN_HDR@ =~= joined_by(all, '|'));
    lemma_joined_lacks(t0, ';', '|');
    lemma_joined_lacks(t0, ';', '&');
    law_splitting_undoes_joining(all, '|');
    lemma_find_none(s0, '&');
    law_splitting_undoes_joining(t0, ';');
}

proof fn lemma_pwr_temp_hdr()
    ensures
        split(PWR_TEMP_HDR@, '|').len() == 1,
        forall|ext: bool| split(#[trigger] section_columns(split(PWR_TEMP_HDR@, '|')[0], ext), ';') == seq!["TEMP"@, "DEVICE"@, "degC"@, "%temp"@],
        is_heading("TEMP"@),
        is_heading("DEVICE"@),
        is_heading("degC"@),
        is_heading("%temp"@),
{
    reveal_strlit("TEMP;DEVICE;degC;%temp");
    reveal_strlit("TEMP");
    reveal_strlit("DEVICE");
    reveal_strlit("degC");
    reveal_strlit("%temp");
    let t0 = seq!["TEMP"@, "DEVICE"@, "degC"@, "%temp"@];
    let s0 = joined_by(t0, ';');
    let all = seq![s0];
    assert(t0.take(4).drop_last() =~= t0.take(3));
    assert(t0.take(3).drop_last() =~= t0.take(2));
    assert(t0.take(2).drop_last() =~= t0.take(1));
    assert(t0.take(4) =~= t0);
    reveal_with_fuel(joined_by, 5);
    assert(PWR_TEMP_HDR@ =~= joined_by(all, '|'));
    lemma_joined_lacks(t0, ';', '|');
    lemma_joined_lacks(t0, ';', '&');
    law_splitting_undoes_joining(all, '|');
    lemma_find_none(s0, '&');
    law_splitting_undoes_joining(t0, ';');
}

proof fn lemma_queue_hdr()
    ensures
        split(QUEUE_HDR@, '|').len() == 1,
        forall|ext: bool| split(#[trigger] section_columns(split(QUEUE_HDR@, '|')[0], ext), ';') == seq!["runq-sz"@, "plist-sz"@, "ldavg-1"@, "ldavg-5"@, "ldavg-15"@, "blocked"@],
        is_heading("runq-sz"@),
        is_heading("plist-sz"@),
        is_heading("ldavg-1"@),
        is_heading("ldavg-5"@),
        is_heading("ldavg-15"@),
        is_heading("blocked"@),
{
    reveal_strlit("runq-sz;plist-sz;ldavg-1;ldavg-5;ldavg-15;blocked");
    reveal_strlit("runq-sz");
    reveal_strlit("plist-sz");
    reveal_strlit("ldavg-1");
    reveal_strlit("ldavg-5");
    reveal_strlit("ldavg-15");
    reveal_strlit("blocked");
    let t0 = seq!["runq-sz"@, "plist-sz"@, "ldavg-1"@, "ldavg-5"@, "ldavg-15"@, "blocked"@];
    let s0 = joined_by(t0, ';');
    let all = seq![s0];
    assert(t0.take(6).drop_last() =~= t0.take(5));
    assert(t0.take(5).drop_last() =~= t0.take(4));
    assert(t0.take(4).drop_last() =~= t0.take(3));
    assert(t0.take(3).drop_last() =~= t0.take(2));
    assert(t0.take(2).drop_last() =~= t0.take(1));
    assert(t0.take(6) =~= t0);
    reveal_with_fuel(joined_by, 7);
    assert(QUEUE_HDR@ =~= joined_by(all, '|'));
    lemma_joined_lacks(t0, ';', '|');
    lemma_joined_lacks(t0, ';', '&');
    law_splitting_undoes_joining(all, '|');
    lemma_find_none(s0, '&');
    law_splitting_undoes_joining(t0, ';');
}

proof fn lemma_serial_hdr()
    ensures
        split(SERIAL_HDR@, '|').len() == 1,
        forall|ext: bool| split(#[trigger] section_columns(split(SERIAL_HDR@, '|')[0], ext), ';') == seq!["TTY"@, "rcvin/s"@, "xmtin/s"@, "framerr/s"@, "prtyerr/s"@, "brk/s"@, "ovrun/s"@],
        is_heading("TTY"@),
        is_heading("rcvin/s"@),
        is_heading("xmtin/s"@),
        is_heading("framerr/s"@),
        is_heading("prtyerr/s"@),
        is_heading("brk/s"@),
        is_heading("ovrun/s"@),
{
    reveal_strlit("TTY;rcvin/s;xmtin/s;framerr/s;prtyerr/s;brk/s;ovrun/s");
    reveal_strlit("TTY");
    reveal_strlit("rcvin/s");
    reveal_strlit("xmtin/s");
    reveal_strlit("framerr/s");
    reveal_strlit("prtyerr/s");
    reveal_strlit("brk/s");
    reveal_strlit("ovrun/s");
    let t0 = seq!["TTY"@, "rcvin/s"@, "xmtin/s"@, "framerr/s"@, "prtyerr/s"@, "brk/s"@, "ovrun/s"@];
    let s0 = joined_by(t0, ';');
    let all = seq![s0];
    assert(t0.take(7).drop_last() =~= t0.take(6));
    assert(t0.take(6).drop_last() =~= t0.take(5));
    assert(t0.take(5).drop_last() =~= t0.take(4));
    assert(t0.take(4).drop_last() =~= t0.take(3));
    assert(t0.take(3).drop_last() =~= t0.take(2));
    assert(t0.take(2).drop_last() =~= t0.take(1));
    assert(t0.take(7) =~= t0);
    reveal_with_fuel(joined_by, 8);
    assert(SERIAL_HDR@ =~= joined_by(all, '|'));
    lemma_joined_lacks(t0, ';', '|');
    lemma_joined_lacks(t0, ';', '&');
    law_splitting_undoes_joining(all, '|');
    lemma_find_none(s0, '&');
    law_splitting_undoes_joining(t0, ';');
}

proof fn lemma_swap_hdr()
    ensures
        split(SWAP_HDR@, '|').len() == 1,
        forall|ext: bool| split(#[trigger] section_columns(split(SWAP_HDR@, '|')[0], ext), ';') == seq!["pswpin/s"@, "pswpout/s"@],
        is_heading("pswpin/s"@),
        is_heading("pswpout/s"@),
{
    reveal_strlit("pswpin/s;pswpout/s");
    reveal_strlit("pswpin/s");
    reveal_strlit("pswpout/s");
    let t0 = seq!["pswpin/s"@, "pswpout/s"@];
    let s0 = joined_by(t0, ';');
    let all = seq![s0];
    assert(t0.take(2).drop_last() =~= t0.take(1));
    assert(t0.take(2) =~= t0);
    reveal_with_fuel(joined_by, 3);
    assert(SWAP_HDR@ =~= joined_by(all, '|'));
    lemma_joined_lacks(t0, ';', '|');
    lemma_joined_lacks(t0, ';', '&');
    law_splitting_undoes_joining(all, '|');
    lemma_find_none(s0, '&');
    law_splitting_undoes_joining(t0, ';');
}

proof fn lemma_joined_add(a: Seq<Seq<char>>, b: Seq<Seq<char>>, sep: char)
    requires
        a.len() > 0,
        b.len() > 0,
    ensures
        joined_by(a + b, sep) == joined_by(a, sep) + seq![sep] + joined_by(b, sep),
    decreases b.len(),
{
    let all = a + b;
    if b.len() == 1 {
        assert(all.drop_last() =~= a);
        assert(all.last() == b[0]);
        assert(joined_by(a, sep).push(sep) + b[0] =~= joined_by(a, sep) + seq![sep] + b[0]);
    } else {
        lemma_joined_add(a, b.drop_last(), sep);
        assert(all.drop_last() =~= a + b.drop_last());
        assert(all.last() == b.last());
        assert(joined_by(all, sep) =~= joined_by(a, sep) + seq![sep] + joined_by(b, sep));
    }
}

/// What a heading that stands at the end of a line looks like there.
pub open spec fn end_heading(tokens: Seq<Seq<char>>, iwidth: int) -> Seq<char> {
    if iwidth < 0 {
        seq![' '] + tokens[-iwidth - 1]
    } else {
        Seq::empty()
    }
}

/// The line of headings of a block holds the headings of its items and of its columns from left
/// to right, each at the right end of its ten columns; the heading of a name that stands at the
/// end of the lines stands there too. The interrupts have a heading for each CPU, and the USB
/// devices have a line of their own.
pub proof fn law_headings_name_the_columns(
    id: ActivityId,
    opts: SarTextOptions,
    i: int,
    ts: Seq<char>,
    labels: Seq<StarLabel>,
)
    requires
        id != ActivityId::IRQ,
        id != ActivityId::PWR_USB,
        0 <= i < activity_models(id, opts).len(),
    ensures
        ({
            let v = activity_models(id, opts)[i];
            let tokens = tokens_of(headings_of(id, opts, i));
            &&& header_text(ts, v.hdr_line, v.pos, v.iwidth, v.ext, labels) == seq!['\n']
                + right_padded(ts, STAMP_WIDTH as nat) + heading_columns(
                tokens,
                v.iwidth,
                tokens.len() as int,
            ) + end_heading(tokens, v.iwidth) + seq!['\n']
            &&& tokens.len() == headings_of(id, opts, i).items.len() + v.cells.len()
        }),
{
    let v = activity_models(id, opts)[i];
    let h = headings_of(id, opts, i);
    let tokens = tokens_of(h);
    law_columns_are_those_of_their_headings(id, opts, i);
    lemma_tokens(id, opts, i);
    reveal(tokens_are_headed);
    reveal(columns_are_titled);
    lemma_heading_columns(tokens, v.iwidth, labels, tokens.len() as int);
    if v.iwidth < 0 {
        let k = -v.iwidth - 1;
        assert(lacks(tokens[k], '*'));
        lemma_find_none(tokens[k], '*');
    }
}

#[verifier::opaque]
spec fn tokens_are_headed(id: ActivityId, opts: SarTextOptions, i: int) -> bool {
    0 <= i < activity_models(id, opts).len() ==> {
        let v = activity_models(id, opts)[i];
        let tokens = tokens_of(headings_of(id, opts, i));
        &&& v.pos < split(v.hdr_line, '|').len()
        &&& split(section_columns(split(v.hdr_line, '|')[v.pos as int], v.ext), ';') == tokens
        &&& v.iwidth == 7 || v.iwidth <= 0
        &&& v.iwidth == 7 ==> tokens[0].len() <= 7
        &&& -v.iwidth <= tokens.len()
        &&& forall|k: int|
            0 <= k < tokens.len() && k != -v.iwidth - 1 ==> is_heading(#[trigger] tokens[k])
        &&& forall|k: int| 0 <= k < tokens.len() ==> lacks(#[trigger] tokens[k], '*')
    }
}

proof fn lemma_tokens_cpu(opts: SarTextOptions, i: int)
    ensures
        tokens_are_headed(ActivityId::CPU, opts, i),
{
    reveal(tokens_are_headed);
    lemma_cpu_hdr();
    reveal_strlit("CPU");
    let tokens = tokens_of(headings_of(ActivityId::CPU, opts, i));
    if opts.cpu_all {
        assert(tokens =~= seq!["CPU"@, "%usr"@, "%nice"@, "%sys"@, "%iowait"@, "%steal"@, "%irq"@, "%soft"@, "%guest"@, "%gnice"@, "%idle"@]);
    } else {
        assert(tokens =~= seq!["CPU"@, "%user"@, "%nice"@, "%system"@, "%iowait"@, "%steal"@, "%idle"@]);
    }
}

proof fn lemma_tokens_memory(opts: SarTextOptions, i: int)
    ensures
        tokens_are_headed(ActivityId::MEMORY, opts, i),
{
    reveal(tokens_are_headed);
    lemma_memory_hdr();
    let tokens = tokens_of(headings_of(ActivityId::MEMORY, opts, i));
    if i == 0 && opts.shows_memory() {
        if opts.mem_all {
            assert(tokens =~= seq!["kbmemfree"@, "kbavail"@, "kbmemused"@, "%memused"@, "kbbuffers"@, "kbcached"@, "kbcommit"@, "%commit"@, "kbactive"@, "kbinact"@, "kbdirty"@, "kbshmem"@, "kbanonpg"@, "kbslab"@, "kbkstack"@, "kbpgtbl"@, "kbvmused"@]);
        } else {
            assert(tokens =~= seq!["kbmemfree"@, "kbavail"@, "kbmemused"@, "%memused"@, "kbbuffers"@, "kbcached"@, "kbcommit"@, "%commit"@, "kbactive"@, "kbinact"@, "kbdirty"@, "kbshmem"@]);
        }
    } else {
        assert(tokens =~= seq!["kbswpfree"@, "kbswpused"@, "%swpused"@, "kbswpcad"@, "%swpcad"@]);
    }
}

proof fn lemma_tokens_queue(opts: SarTextOptions, i: int)
    ensures
        tokens_are_headed(ActivityId::QUEUE, opts, i),
{
    reveal(tokens_are_headed);
    lemma_queue_hdr();
    let tokens = tokens_of(headings_of(ActivityId::QUEUE, opts, i));
    assert(tokens =~= seq!["runq-sz"@, "plist-sz"@, "ldavg-1"@, "ldavg-5"@, "ldavg-15"@, "blocked"@]);
}

proof fn lemma_tokens_serial(opts: SarTextOptions, i: int)
    ensures
        tokens_are_headed(ActivityId::SERIAL, opts, i),
{
    reveal(tokens_are_headed);
    lemma_serial_hdr();
    let tokens = tokens_of(headings_of(ActivityId::SERIAL, opts, i));
    assert(tokens =~= seq!["TTY"@, "rcvin/s"@, "xmtin/s"@, "framerr/s"@, "prtyerr/s"@, "brk/s"@, "ovrun/s"@]);
}

proof fn lemma_tokens_disk(opts: SarTextOptions, i: int)
    ensures
        tokens_are_headed(ActivityId::DISK, opts, i),
{
    reveal(tokens_are_headed);
    lemma_disk_hdr();
    let tokens = tokens_of(headings_of(ActivityId::DISK, opts, i));
    assert(tokens =~= seq!["DEV"@, "tps"@, "rkB/s"@, "wkB/s"@, "dkB/s"@, "areq-sz"@, "aqu-sz"@, "await"@, "%util"@]);
}

proof fn lemma_tokens_net_dev(opts: SarTextOptions, i: int)
    ensures
        tokens_are_headed(ActivityId::NET_DEV, opts, i),
{
    reveal(tokens_are_headed);
    lemma_net_dev_hdr();
    let tokens = tokens_of(headings_of(ActivityId::NET_DEV, opts, i));
    assert(tokens =~= seq!["IFACE"@, "rxpck/s"@, "txpck/s"@, "rxkB/s"@, "txkB/s"@, "rxcmp/s"@, "txcmp/s"@, "rxmcst/s"@, "%ifutil"@]);
}

proof fn lemma_tokens_net_edev(opts: SarTextOptions, i: int)
    ensures
        tokens_are_headed(ActivityId::NET_EDEV, opts, i),
{
    reveal(tokens_are_headed);
    lemma_net_edev_hdr();
    let tokens = tokens_of(headings_of(ActivityId::NET_EDEV, opts, i));
    assert(tokens =~= seq!["IFACE"@, "rxerr/s"@, "txerr/s"@, "coll/s"@, "rxdrop/s"@, "txdrop/s"@, "txcarr/s"@, "rxfram/s"@, "rxfifo/s"@, "txfifo/s"@]);
}

proof fn lemma_tokens_pwr_cpu(opts: SarTextOptions, i: int)
    ensures
        tokens_are_headed(ActivityId::PWR_CPU, opts, i),
{
    reveal(tokens_are_headed);
    lemma_pwr_cpu_hdr();
    reveal_strlit("CPU");
    let tokens = tokens_of(headings_of(ActivityId::PWR_CPU, opts, i));
    assert(tokens =~= seq!["CPU"@, "MHz"@]);
}

proof fn lemma_tokens_pwr_fan(opts: SarTextOptions, i: int)
    ensures
        tokens_are_headed(ActivityId::PWR_FAN, opts, i),
{
    reveal(tokens_are_headed);
    lemma_pwr_fan_hdr();
    let tokens = tokens_of(headings_of(ActivityId::PWR_FAN, opts, i));
    assert(tokens =~= seq!["FAN"@, "DEVICE"@, "rpm"@, "drpm"@]);
}

proof fn lemma_tokens_pwr_temp(opts: SarTextOptions, i: int)
    ensures
        tokens_are_headed(ActivityId::PWR_TEMP, opts, i),
{
    reveal(tokens_are_headed);
    lemma_pwr_temp_hdr();
    let tokens = tokens_of(headings_of(ActivityId::PWR_TEMP, opts, i));
    assert(tokens =~= seq!["TEMP"@, "DEVICE"@, "degC"@, "%temp"@]);
}

proof fn lemma_tokens_pwr_in(opts: SarTextOptions, i: int)
    ensures
        tokens_are_headed(ActivityId::PWR_IN, opts, i),
{
    reveal(tokens_are_headed);
    lemma_pwr_in_hdr();
    let tokens = tokens_of(headings_of(ActivityId::PWR_IN, opts, i));
    assert(tokens =~= seq!["IN"@, "DEVICE"@, "inV"@, "%in"@]);
}

proof fn lemma_tokens_huge(opts: SarTextOptions, i: int)
    ensures
        tokens_are_headed(ActivityId::HUGE, opts, i),
{
    reveal(tokens_are_headed);
    lemma_huge_hdr();
    let tokens = tokens_of(headings_of(ActivityId::HUGE, opts, i));
    assert(tokens =~= seq!["kbhugfree"@, "kbhugused"@, "%hugused"@, "kbhugrsvd"@, "kbhugsurp"@]);
}

proof fn lemma_tokens_pwr_freq(opts: SarTextOptions, i: int)
    ensures
        tokens_are_headed(ActivityId::PWR_FREQ, opts, i),
{
    reveal(tokens_are_headed);
    lemma_pwr_freq_hdr();
    reveal_strlit("CPU");
    let tokens = tokens_of(headings_of(ActivityId::PWR_FREQ, opts, i));
    assert(tokens =~= seq!["CPU"@, "wghMHz"@]);
}

proof fn lemma_tokens_fs(opts: SarTextOptions, i: int)
    ensures
        tokens_are_headed(ActivityId::FS, opts, i),
{
    reveal(tokens_are_headed);
    lemma_fs_hdr();
    let tokens = tokens_of(headings_of(ActivityId::FS, opts, i));
    if opts.mount {
        assert(tokens =~= seq!["MOUNTPOINT"@, "MBfsfree"@, "MBfsused"@, "%fsused"@, "%ufsused"@, "Ifree"@, "Iused"@, "%Iused"@]);
    } else {
        assert(tokens =~= seq!["FILESYSTEM"@, "MBfsfree"@, "MBfsused"@, "%fsused"@, "%ufsused"@, "Ifree"@, "Iused"@, "%Iused"@]);
    }
}

proof fn lemma_tokens_net_fc(opts: SarTextOptions, i: int)
    ensures
        tokens_are_headed(ActivityId::NET_FC, opts, i),
{
    reveal(tokens_are_headed);
    lemma_net_fc_hdr();
    let tokens = tokens_of(headings_of(ActivityId::NET_FC, opts, i));
    assert(tokens =~= seq!["FCHOST"@, "fch_rxf/s"@, "fch_txf/s"@, "fch_rxw/s"@, "fch_txw/s"@]);
}

proof fn lemma_tokens_net_soft(opts: SarTextOptions, i: int)
    ensures
        tokens_are_headed(ActivityId::NET_SOFT, opts, i),
{
    reveal(tokens_are_headed);
    lemma_net_soft_hdr();
    reveal_strlit("CPU");
    let tokens = tokens_of(headings_of(ActivityId::NET_SOFT, opts, i));
    assert(tokens =~= seq!["CPU"@, "total/s"@, "dropd/s"@, "squeezd/s"@, "rx_rps/s"@, "flw_lim/s"@, "blg_len"@]);
}

proof fn lemma_tokens_psi_cpu(opts: SarTextOptions, i: int)
    ensures
        tokens_are_headed(ActivityId::PSI_CPU, opts, i),
{
    reveal(tokens_are_headed);
    lemma_psi_cpu_hdr();
    let tokens = tokens_of(headings_of(ActivityId::PSI_CPU, opts, i));
    assert(tokens =~= seq!["%scpu-10"@, "%scpu-60"@, "%scpu-300"@, "%scpu"@]);
}

proof fn lemma_tokens_psi_io(opts: SarTextOptions, i: int)
    ensures
        tokens_are_headed(ActivityId::PSI_IO, opts, i),
{
    reveal(tokens_are_headed);
    lemma_psi_io_hdr();
    let tokens = tokens_of(headings_of(ActivityId::PSI_IO, opts, i));
    assert(tokens =~= seq!["%sio-10"@, "%sio-60"@, "%sio-300"@, "%sio"@, "%fio-10"@, "%fio-60"@, "%fio-300"@, "%fio"@]);
}

proof fn lemma_tokens_psi_mem(opts: SarTextOptions, i: int)
    ensures
        tokens_are_headed(ActivityId::PSI_MEM, opts, i),
{
    reveal(tokens_are_headed);
    lemma_psi_mem_hdr();
    let tokens = tokens_of(headings_of(ActivityId::PSI_MEM, opts, i));
    assert(tokens =~= seq!["%smem-10"@, "%smem-60"@, "%smem-300"@, "%smem"@, "%fmem-10"@, "%fmem-60"@, "%fmem-300"@, "%fmem"@]);
}

proof fn lemma_tokens_pwr_bat(opts: SarTextOptions, i: int)
    ensures
        tokens_are_headed(ActivityId::PWR_BAT, opts, i),
{
    reveal(tokens_are_headed);
    lemma_pwr_bat_hdr();
    let tokens = tokens_of(headings_of(ActivityId::PWR_BAT, opts, i));
    assert(tokens =~= seq!["BAT"@, "%cap"@, "cap/min"@, "status"@]);
}

proof fn lemma_tokens_pcsw(opts: SarTextOptions, i: int)
    ensures
        tokens_are_headed(ActivityId::PCSW, opts, i),
{
    reveal(tokens_are_headed);
    lemma_pcsw_hdr();
    let tokens = tokens_of(headings_of(ActivityId::PCSW, opts, i));
    assert(tokens =~= seq!["proc/s"@, "cswch/s"@]);
}

proof fn lemma_tokens_swap(opts: SarTextOptions, i: int)
    ensures
        tokens_are_headed(ActivityId::SWAP, opts, i),
{
    reveal(tokens_are_headed);
    lemma_swap_hdr();
    let tokens = tokens_of(headings_of(ActivityId::SWAP, opts, i));
    assert(tokens =~= seq!["pswpin/s"@, "pswpout/s"@]);
}

proof fn lemma_tokens_page(opts: SarTextOptions, i: int)
    ensures
        tokens_are_headed(ActivityId::PAGE, opts, i),
{
    reveal(tokens_are_headed);
    lemma_page_hdr();
    let tokens = tokens_of(headings_of(ActivityId::PAGE, opts, i));
    assert(tokens =~= seq!["pgpgin/s"@, "pgpgout/s"@, "fault/s"@, "majflt/s"@, "pgfree/s"@, "pgscank/s"@, "pgscand/s"@, "pgsteal/s"@, "pgprom/s"@, "pgdem/s"@]);
}

proof fn lemma_tokens_io(opts: SarTextOptions, i: int)
    ensures
        tokens_are_headed(ActivityId::IO, opts, i),
{
    reveal(tokens_are_headed);
    lemma_io_hdr();
    let tokens = tokens_of(headings_of(ActivityId::IO, opts, i));
    assert(tokens =~= seq!["tps"@, "rtps"@, "wtps"@, "dtps"@, "bread/s"@, "bwrtn/s"@, "bdscd/s"@]);
}

proof fn lemma_tokens_net_nfs(opts: SarTextOptions, i: int)
    ensures
        tokens_are_headed(ActivityId::NET_NFS, opts, i),
{
    reveal(tokens_are_headed);
    lemma_net_nfs_hdr();
    let tokens = tokens_of(headings_of(ActivityId::NET_NFS, opts, i));
    assert(tokens =~= seq!["call/s"@, "retrans/s"@, "read/s"@, "write/s"@, "access/s"@, "getatt/s"@]);
}

proof fn lemma_tokens_net_nfsd(opts: SarTextOptions, i: int)
    ensures
        tokens_are_headed(ActivityId::NET_NFSD, opts, i),
{
    reveal(tokens_are_headed);
    lemma_net_nfsd_hdr();
    let tokens = tokens_of(headings_of(ActivityId::NET_NFSD, opts, i));
    assert(tokens =~= seq!["scall/s"@, "badcall/s"@, "packet/s"@, "udp/s"@, "tcp/s"@, "hit/s"@, "miss/s"@, "sread/s"@, "swrite/s"@, "saccess/s"@, "sgetatt/s"@]);
}

proof fn lemma_tokens_net_ip(opts: SarTextOptions, i: int)
    ensures
        tokens_are_headed(ActivityId::NET_IP, opts, i),
{
    reveal(tokens_are_headed);
    lemma_net_ip_hdr();
    let tokens = tokens_of(headings_of(ActivityId::NET_IP, opts, i));
    assert(tokens =~= seq!["irec/s"@, "fwddgm/s"@, "idel/s"@, "orq/s"@, "asmrq/s"@, "asmok/s"@, "fragok/s"@, "fragcrt/s"@]);
}

proof fn lemma_tokens_net_eip(opts: SarTextOptions, i: int)
    ensures
        tokens_are_headed(ActivityId::NET_EIP, opts, i),
{
    reveal(tokens_are_headed);
    lemma_net_eip_hdr();
    let tokens = tokens_of(headings_of(ActivityId::NET_EIP, opts, i));
    assert(tokens =~= seq!["ihdrerr/s"@, "iadrerr/s"@, "iukwnpr/s"@, "idisc/s"@, "odisc/s"@, "onort/s"@, "asmf/s"@, "fragf/s"@]);
}

proof fn lemma_tokens_net_icmp(opts: SarTextOptions, i: int)
    ensures
        tokens_are_headed(ActivityId::NET_ICMP, opts, i),
{
    reveal(tokens_are_headed);
    lemma_net_icmp_hdr();
    let tokens = tokens_of(headings_of(ActivityId::NET_ICMP, opts, i));
    assert(tokens =~= seq!["imsg/s"@, "omsg/s"@, "iech/s"@, "iechr/s"@, "oech/s"@, "oechr/s"@, "itm/s"@, "itmr/s"@, "otm/s"@, "otmr/s"@, "iadrmk/s"@, "iadrmkr/s"@, "oadrmk/s"@, "oadrmkr/s"@]);
}

proof fn lemma_tokens_net_eicmp(opts: SarTextOptions, i: int)
    ensures
        tokens_are_headed(ActivityId::NET_EICMP, opts, i),
{
    reveal(tokens_are_headed);
    lemma_net_eicmp_hdr();
    let tokens = tokens_of(headings_of(ActivityId::NET_EICMP, opts, i));
    assert(tokens =~= seq!["ierr/s"@, "oerr/s"@, "idstunr/s"@, "odstunr/s"@, "itmex/s"@, "otmex/s"@, "iparmpb/s"@, "oparmpb/s"@, "isrcq/s"@, "osrcq/s"@, "iredir/s"@, "oredir/s"@]);
}

proof fn lemma_tokens_net_tcp(opts: SarTextOptions, i: int)
    ensures
        tokens_are_headed(ActivityId::NET_TCP, opts, i),
{
    reveal(tokens_are_headed);
    lemma_net_tcp_hdr();
    let tokens = tokens_of(headings_of(ActivityId::NET_TCP, opts, i));
    assert(tokens =~= seq!["active/s"@, "passive/s"@, "iseg/s"@, "oseg/s"@]);
}

proof fn lemma_tokens_net_etcp(opts: SarTextOptions, i: int)
    ensures
        tokens_are_headed(ActivityId::NET_ETCP, opts, i),
{
    reveal(tokens_are_headed);
    lemma_net_etcp_hdr();
    let tokens = tokens_of(headings_of(ActivityId::NET_ETCP, opts, i));
    assert(tokens =~= seq!["atmptf/s"@, "estres/s"@, "retrseg/s"@, "isegerr/s"@, "orsts/s"@]);
}

proof fn lemma_tokens_net_udp(opts: SarTextOptions, i: int)
    ensures
        tokens_are_headed(ActivityId::NET_UDP, opts, i),
{
    reveal(tokens_are_headed);
    lemma_net_udp_hdr();
    let tokens = tokens_of(headings_of(ActivityId::NET_UDP, opts, i));
    assert(tokens =~= seq!["idgm/s"@, "odgm/s"@, "noport/s"@, "idgmerr/s"@]);
}

proof fn lemma_tokens_net_ip6(opts: SarTextOptions, i: int)
    ensures
        tokens_are_headed(ActivityId::NET_IP6, opts, i),
{
    reveal(tokens_are_headed);
    lemma_net_ip6_hdr();
    let tokens = tokens_of(headings_of(ActivityId::NET_IP6, opts, i));
    assert(tokens =~= seq!["irec6/s"@, "fwddgm6/s"@, "idel6/s"@, "orq6/s"@, "asmrq6/s"@, "asmok6/s"@, "imcpck6/s"@, "omcpck6/s"@, "fragok6/s"@, "fragcr6/s"@]);
}

proof fn lemma_tokens_net_eip6(opts: SarTextOptions, i: int)
    ensures
        tokens_are_headed(ActivityId::NET_EIP6, opts, i),
{
    reveal(tokens_are_headed);
    lemma_net_eip6_hdr();
    let tokens = tokens_of(headings_of(ActivityId::NET_EIP6, opts, i));
    assert(tokens =~= seq!["ihdrer6/s"@, "iadrer6/s"@, "iukwnp6/s"@, "i2big6/s"@, "idisc6/s"@, "odisc6/s"@, "inort6/s"@, "onort6/s"@, "asmf6/s"@, "fragf6/s"@, "itrpck6/s"@]);
}

proof fn lemma_tokens_net_icmp6(opts: SarTextOptions, i: int)
    ensures
        tokens_are_headed(ActivityId::NET_ICMP6, opts, i),
{
    reveal(tokens_are_headed);
    lemma_net_icmp6_hdr();
    let tokens = tokens_of(headings_of(ActivityId::NET_ICMP6, opts, i));
    assert(tokens =~= seq!["imsg6/s"@, "omsg6/s"@, "iech6/s"@, "iechr6/s"@, "oechr6/s"@, "igmbq6/s"@, "igmbr6/s"@, "ogmbr6/s"@, "igmbrd6/s"@, "ogmbrd6/s"@, "irtsol6/s"@, "ortsol6/s"@, "irtad6/s"@, "inbsol6/s"@, "onbsol6/s"@, "inbad6/s"@, "onbad6/s"@]);
}

proof fn lemma_tokens_net_eicmp6(opts: SarTextOptions, i: int)
    ensures
        tokens_are_headed(ActivityId::NET_EICMP6, opts, i),
{
    reveal(tokens_are_headed);
    lemma_net_eicmp6_hdr();
    let tokens = tokens_of(headings_of(ActivityId::NET_EICMP6, opts, i));
    assert(tokens =~= seq!["ierr6/s"@, "idtunr6/s"@, "odtunr6/s"@, "itmex6/s"@, "otmex6/s"@, "iprmpb6/s"@, "oprmpb6/s"@, "iredir6/s"@, "oredir6/s"@, "ipck2b6/s"@, "opck2b6/s"@]);
}

proof fn lemma_tokens_net_udp6(opts: SarTextOptions, i: int)
    ensures
        tokens_are_headed(ActivityId::NET_UDP6, opts, i),
{
    reveal(tokens_are_headed);
    lemma_net_udp6_hdr();
    let tokens = tokens_of(headings_of(ActivityId::NET_UDP6, opts, i));
    assert(tokens =~= seq!["idgm6/s"@, "odgm6/s"@, "noport6/s"@, "idgmer6/s"@]);
}

proof fn lemma_tokens_ktables(opts: SarTextOptions, i: int)
    ensures
        tokens_are_headed(ActivityId::KTABLES, opts, i),
{
    reveal(tokens_are_headed);
    lemma_ktables_hdr();
    let tokens = tokens_of(headings_of(ActivityId::KTABLES, opts, i));
    assert(tokens =~= seq!["dentunusd"@, "file-nr"@, "inode-nr"@, "pty-nr"@]);
}

proof fn lemma_tokens_net_sock(opts: SarTextOptions, i: int)
    ensures
        tokens_are_headed(ActivityId::NET_SOCK, opts, i),
{
    reveal(tokens_are_headed);
    lemma_net_sock_hdr();
    let tokens = tokens_of(headings_of(ActivityId::NET_SOCK, opts, i));
    assert(tokens =~= seq!["totsck"@, "tcpsck"@, "udpsck"@, "rawsck"@, "ip-frag"@, "tcp-tw"@]);
}

proof fn lemma_tokens_net_sock6(opts: SarTextOptions, i: int)
    ensures
        tokens_are_headed(ActivityId::NET_SOCK6, opts, i),
{
    reveal(tokens_are_headed);
    lemma_net_sock6_hdr();
    let tokens = tokens_of(headings_of(ActivityId::NET_SOCK6, opts, i));
    assert(tokens =~= seq!["tcp6sck"@, "udp6sck"@, "raw6sck"@, "ip6-frag"@]);
}

proof fn lemma_tokens(id: ActivityId, opts: SarTextOptions, i: int)
    requires
        id != ActivityId::IRQ,
        id != ActivityId::PWR_USB,
    ensures
        tokens_are_headed(id, opts, i),
{
    match id {
        ActivityId::CPU => lemma_tokens_cpu(opts, i),
        ActivityId::MEMORY => lemma_tokens_memory(opts, i),
        ActivityId::QUEUE => lemma_tokens_queue(opts, i),
        ActivityId::SERIAL => lemma_tokens_serial(opts, i),
        ActivityId::DISK => lemma_tokens_disk(opts, i),
        ActivityId::NET_DEV => lemma_tokens_net_dev(opts, i),
        ActivityId::NET_EDEV => lemma_tokens_net_edev(opts, i),
        ActivityId::PWR_CPU => lemma_tokens_pwr_cpu(opts, i),
        ActivityId::PWR_FAN => lemma_tokens_pwr_fan(opts, i),
        ActivityId::PWR_TEMP => lemma_tokens_pwr_temp(opts, i),
        ActivityId::PWR_IN => lemma_tokens_pwr_in(opts, i),
        ActivityId::HUGE => lemma_tokens_huge(opts, i),
        ActivityId::PWR_FREQ => lemma_tokens_pwr_freq(opts, i),
        ActivityId::FS => lemma_tokens_fs(opts, i),
        ActivityId::NET_FC => lemma_tokens_net_fc(opts, i),
        ActivityId::NET_SOFT => lemma_tokens_net_soft(opts, i),
        ActivityId::PSI_CPU => lemma_tokens_psi_cpu(opts, i),
        ActivityId::PSI_IO => lemma_tokens_psi_io(opts, i),
        ActivityId::PSI_MEM => lemma_tokens_psi_mem(opts, i),
        ActivityId::PWR_BAT => lemma_tokens_pwr_bat(opts, i),
        ActivityId::PCSW => lemma_tokens_pcsw(opts, i),
        ActivityId::SWAP => lemma_tokens_swap(opts, i),
        ActivityId::PAGE => lemma_tokens_page(opts, i),
        ActivityId::IO => lemma_tokens_io(opts, i),
        ActivityId::NET_NFS => lemma_tokens_net_nfs(opts, i),
        ActivityId::NET_NFSD => lemma_tokens_net_nfsd(opts, i),
        ActivityId::NET_IP => lemma_tokens_net_ip(opts, i),
        ActivityId::NET_EIP => lemma_tokens_net_eip(opts, i),
        ActivityId::NET_ICMP => lemma_tokens_net_icmp(opts, i),
        ActivityId::NET_EICMP => lemma_tokens_net_eicmp(opts, i),
        ActivityId::NET_TCP => lemma_tokens_net_tcp(opts, i),
        ActivityId::NET_ETCP => lemma_tokens_net_etcp(opts, i),
        ActivityId::NET_UDP => lemma_tokens_net_udp(opts, i),
        ActivityId::NET_IP6 => lemma_tokens_net_ip6(opts, i),
        ActivityId::NET_EIP6 => lemma_tokens_net_eip6(opts, i),
        ActivityId::NET_ICMP6 => lemma_tokens_net_icmp6(opts, i),
        ActivityId::NET_EICMP6 => lemma_tokens_net_eicmp6(opts, i),
        ActivityId::NET_UDP6 => lemma_tokens_net_udp6(opts, i),
        ActivityId::KTABLES => lemma_tokens_ktables(opts, i),
        ActivityId::NET_SOCK => lemma_tokens_net_sock(opts, i),
        ActivityId::NET_SOCK6 => lemma_tokens_net_sock6(opts, i),
        _ => {
            reveal(tokens_are_headed);
        },
    }
}

/// The headings of the interrupts: one for all CPUs together, and one for each CPU with its
/// number, each at the right end of ten columns.
pub proof fn law_interrupts_have_a_heading_for_each_cpu(labels: Seq<StarLabel>, k: int)
    requires
        0 <= k < labels.len(),
        forall|j: int|
            0 <= j < labels.len() ==> ((#[trigger] labels[j]) matches StarLabel::Index(n) ==> dec(
                n as nat,
            ).len() <= 6),
    ensures
        star_columns("CPU*"@, labels).len() == 10 * labels.len(),
        star_columns("CPU*"@, labels).subrange(10 * k, 10 * k + 10) == aligned(
            match labels[k] {
                StarLabel::Aggregate => "all"@,
                StarLabel::Index(n) => "CPU"@ + dec(n as nat),
            },
            10,
        ),
    decreases labels.len(),
{
    reveal_strlit("CPU*");
    reveal_strlit("CPU");
    reveal_strlit("all");
    let token = "CPU*"@;
    assert(token =~= "CPU"@ + seq!['*'] + Seq::<char>::empty());
    law_find_is_the_first_place("CPU"@, '*', Seq::empty());
    let before = star_columns(token, labels.drop_last());
    let last = labels[labels.len() - 1];
    let text = star_text(token, last);
    match last {
        StarLabel::Aggregate => {},
        StarLabel::Index(n) => {
            assert(token.take(3) =~= "CPU"@);
            assert(token.skip(4) =~= Seq::<char>::empty());
            assert(text =~= "CPU"@ + dec(n as nat));
            lemma_decimals_are_ascii(n as nat);
        },
    }
    assert(vstd::utf8::is_ascii_chars(text));
    lemma_one_column(text, 9);
    let whole = star_columns(token, labels);
    if labels.len() == 1 {
        assert(before =~= Seq::<char>::empty());
    } else {
        law_interrupts_have_a_heading_for_each_cpu(labels.drop_last(), 0);
    }
    if k < labels.len() - 1 {
        law_interrupts_have_a_heading_for_each_cpu(labels.drop_last(), k);
        assert(whole.subrange(10 * k, 10 * k + 10) =~= before.subrange(10 * k, 10 * k + 10));
    } else {
        assert(whole.subrange(10 * k, 10 * k + 10) =~= aligned(text, 10));
    }
}

/// The line of headings of the USB devices names the bus, the columns and the texts at the end.
pub proof fn law_headings_of_usb_devices(ts: Seq<char>)
    ensures
        usb_header_text(ts) == seq!['\n'] + right_padded(ts, STAMP_WIDTH as nat) + aligned(
            "BUS"@,
            8,
        ) + aligned("idvendor"@, 10) + aligned("idprod"@, 10) + aligned("maxpower"@, 10) + seq![' ']
            + right_padded("manufact"@, MANUFACTURER_WIDTH as nat) + seq![' '] + "product"@ + seq![
            '\n',
        ],
{
    reveal_strlit("     BUS  idvendor    idprod  maxpower ");
    reveal_strlit("BUS");
    reveal_strlit("idvendor");
    reveal_strlit("idprod");
    reveal_strlit("maxpower");
    reveal_strlit(" product\n");
    reveal_strlit("product");
    assert("     BUS  idvendor    idprod  maxpower "@ =~= aligned("BUS"@, 8) + aligned(
        "idvendor"@,
        10,
    ) + aligned("idprod"@, 10) + aligned("maxpower"@, 10) + seq![' ']);
    assert(" product\n"@ =~= seq![' '] + "product"@ + seq!['\n']);
    let lead = seq!['\n'] + right_padded(ts, STAMP_WIDTH as nat);
    let m = right_padded("manufact"@, MANUFACTURER_WIDTH as nat);
    assert(usb_header_text(ts) =~= lead + (aligned("BUS"@, 8) + aligned("idvendor"@, 10) + aligned(
        "idprod"@,
        10,
    ) + aligned("maxpower"@, 10) + seq![' ']) + m + (seq![' '] + "product"@ + seq!['\n']));
}

}
