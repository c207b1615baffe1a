//! Which column stands behind each name: the names of the flat formats, the keys of JSON, the
//! attributes of XML and the names of the raw format.

use vstd::prelude::*;

use crate::model::ActivityId;
use crate::sadf::activities::{
    cpu_model, disk_model, fs_model, huge_model, io_model, irq_model, ktables_model, memory_model,
    net_dev_model, net_edev_model, net_eicmp6_model, net_eicmp_model, net_eip6_model,
    net_eip_model, net_etcp_model, net_fc_model, net_icmp6_model, net_icmp_model, net_ip6_model,
    net_ip_model, net_nfs_model, net_nfsd_model, net_sock6_model, net_sock_model, net_soft_model,
    net_tcp_model, net_udp6_model, net_udp_model, page_model, pcsw_model, psi_cpu_model,
    psi_io_model, psi_mem_model, pwr_bat_model, pwr_cpu_model, pwr_fan_model, pwr_freq_model,
    pwr_in_model, pwr_temp_model, pwr_usb_model, queue_model, serial_model, swap_model,
};
use crate::sadf::render::nested_fields;
use crate::sadf::table::{table, Field, FieldGate, Fmt, RawField, RawModel, RawStyle};

verus! {

/// What stands behind a name of the flat formats.
pub struct Named {
    pub name: &'static str,
    pub column: &'static str,
    pub fmt: Fmt,
    /// Whether it is shown only where memory is shown in full.
    pub detail: bool,
}

/// A column with two decimals.
pub open spec fn two(name: &'static str, column: &'static str) -> Named {
    Named { name, column, fmt: Fmt::R2, detail: false }
}

/// A column without decimals.
pub open spec fn none(name: &'static str, column: &'static str) -> Named {
    Named { name, column, fmt: Fmt::R0, detail: false }
}

/// A column of whole numbers.
pub open spec fn whole(name: &'static str, column: &'static str) -> Named {
    Named { name, column, fmt: Fmt::Int, detail: false }
}

/// A column of whole numbers that is shown only where memory is shown in full.
pub open spec fn detail(name: &'static str, column: &'static str) -> Named {
    Named { name, column, fmt: Fmt::Int, detail: true }
}

/// A column of texts.
pub open spec fn words(name: &'static str, column: &'static str) -> Named {
    Named { name, column, fmt: Fmt::Str, detail: false }
}

/// A column of hexadecimal numbers.
pub open spec fn hexed(name: &'static str, column: &'static str) -> Named {
    Named { name, column, fmt: Fmt::Hex, detail: false }
}

/// What stands behind a key of JSON and an attribute of XML.
pub struct Keyed {
    pub key: &'static str,
    pub attr: &'static str,
    pub column: &'static str,
    pub fmt: Fmt,
    /// Whether it is shown only where memory is shown in full.
    pub detail: bool,
}

/// A member of the same name in JSON and XML, with two decimals.
pub open spec fn member(key: &'static str, column: &'static str) -> Keyed {
    Keyed { key, attr: key, column, fmt: Fmt::R2, detail: false }
}

/// A member.
pub open spec fn keyed(
    key: &'static str,
    attr: &'static str,
    column: &'static str,
    fmt: Fmt,
) -> Keyed {
    Keyed { key, attr, column, fmt, detail: false }
}

/// A member that is shown only where memory is shown in full.
pub open spec fn detail_member(key: &'static str, column: &'static str) -> Keyed {
    Keyed { key, attr: key, column, fmt: Fmt::Int, detail: true }
}

/// What tells the item in JSON and XML.
pub open spec fn tells_item(key: &'static str, attr: &'static str, fmt: Fmt) -> Keyed {
    Keyed { key, attr, column: "", fmt, detail: false }
}

/// What a name of the raw format shows.
pub struct Counted {
    pub name: &'static str,
    pub what: Counter,
    /// Whether it is shown only where memory is shown in full.
    pub detail: bool,
}

/// What the raw format shows of the columns of an item.
pub enum Counter {
    /// A column before and now.
    Column(&'static str),
    /// The sum of three columns before and now.
    Sum(&'static str, &'static str, &'static str),
    /// What a column has more than another, before and now.
    Beyond(&'static str, &'static str),
    /// A column now.
    Now(&'static str),
    /// A column now as it is displayed.
    Displayed(&'static str),
    /// A column now, which is a double.
    Double(&'static str),
    /// A text.
    Words(&'static str),
    /// A text in quotes.
    Quoted(&'static str),
    /// A column now, in hexadecimal.
    Hexed(&'static str),
}

/// A counter.
pub open spec fn counted(name: &'static str, what: Counter) -> Counted {
    Counted { name, what, detail: false }
}

/// A column before and now.
pub open spec fn grows(name: &'static str, column: &'static str) -> Counted {
    Counted { name, what: Counter::Column(column), detail: false }
}

/// A column now.
pub open spec fn stands(name: &'static str, column: &'static str) -> Counted {
    Counted { name, what: Counter::Now(column), detail: false }
}

/// A column now that is shown only where memory is shown in full.
pub open spec fn detail_stands(name: &'static str, column: &'static str) -> Counted {
    Counted { name, what: Counter::Now(column), detail: true }
}

/// Whether a gate is that of the details of memory.
pub open spec fn is_detail(gate: FieldGate) -> bool {
    gate == FieldGate::MemAll
}

/// The fields of a section that the flat formats show, of the first `n`.
pub open spec fn named_fields(fields: Seq<Field>, n: int) -> Seq<Field>
    decreases n,
{
    if n <= 0 {
        Seq::empty()
    } else if fields[n - 1].pp@.len() > 0 {
        named_fields(fields, n - 1).push(fields[n - 1])
    } else {
        named_fields(fields, n - 1)
    }
}

/// Whether fields show the columns that a list names, in its order.
pub open spec fn shows_named(fields: Seq<Field>, list: Seq<Named>) -> bool {
    &&& fields.len() == list.len()
    &&& forall|i: int|
        #![trigger fields[i]]
        0 <= i < fields.len() ==> {
            &&& fields[i].pp == list[i].name
            &&& fields[i].pp@.len() > 0
            &&& fields[i].col@.len() > 0
            &&& fields[i].col == list[i].column
            &&& fields[i].dp_fmt == list[i].fmt
            &&& is_detail(fields[i].gate) == list[i].detail
        }
}

/// Whether fields show the columns that a list keys, in its order.
pub open spec fn shows_keyed(fields: Seq<Field>, list: Seq<Keyed>) -> bool {
    &&& fields.len() == list.len()
    &&& forall|i: int|
        #![trigger fields[i]]
        0 <= i < fields.len() ==> {
            &&& fields[i].key == list[i].key
            &&& fields[i].key@.len() > 0
            &&& fields[i].attr@.len() > 0
            &&& fields[i].attr == list[i].attr
            &&& fields[i].col == list[i].column
            &&& fields[i].jx_fmt == list[i].fmt
            &&& is_detail(fields[i].gate) == list[i].detail
        }
}

/// Whether a field of the raw format shows a counter.
pub open spec fn shows_counter(f: RawField, what: Counter) -> bool {
    match what {
        Counter::Column(c) => f.col == c && f.style is Pval,
        Counter::Sum(a, b, c) => f.style == RawStyle::PvalSum(a, b, c),
        Counter::Beyond(a, b) => f.style == RawStyle::PvalDiff(a, b),
        Counter::Now(c) => f.col == c && f.style is Int,
        Counter::Displayed(c) => f.col == c && f.style is IntCompat,
        Counter::Double(c) => f.col == c && f.style is Sensor,
        Counter::Words(c) => f.col == c && f.style is Text,
        Counter::Quoted(c) => f.col == c && f.style is QuotedText,
        Counter::Hexed(c) => f.col == c && f.style is Hex,
    }
}

/// Whether fields of the raw format show the counters that a list names, in its order.
pub open spec fn shows_counted(fields: Seq<RawField>, list: Seq<Counted>) -> bool {
    &&& fields.len() == list.len()
    &&& forall|i: int|
        #![trigger fields[i]]
        0 <= i < fields.len() ==> {
            &&& fields[i].name == list[i].name
            &&& shows_counter(fields[i], list[i].what)
            &&& is_detail(fields[i].gate) == list[i].detail
        }
}

/// CPU utilization: what the names of the flat formats stand for.
pub open spec fn cpu_brief_names() -> Seq<Named> {
    seq![
        two("%user", "user"),
        two("%nice", "nice"),
        two("%system", "system"),
        two("%iowait", "iowait"),
        two("%steal", "steal"),
        two("%idle", "idle"),
    ]
}

/// CPU utilization: what the members of JSON and XML stand for.
pub open spec fn cpu_brief_members() -> Seq<Keyed> {
    seq![
        tells_item("cpu", "number", Fmt::ItemKeyStr),
        member("user", "user"),
        member("nice", "nice"),
        member("system", "system"),
        member("iowait", "iowait"),
        member("steal", "steal"),
        member("idle", "idle"),
    ]
}

/// CPU utilization: what the names of the raw format stand for.
pub open spec fn cpu_brief_counters() -> Seq<Counted> {
    seq![
        grows("%user", "user"),
        grows("%nice", "nice"),
        counted("%system", Counter::Sum("sys", "irq", "soft")),
        grows("%iowait", "iowait"),
        grows("%steal", "steal"),
        grows("%idle", "idle"),
    ]
}

/// CPU utilization: what the names of the flat formats stand for.
pub open spec fn cpu_full_names() -> Seq<Named> {
    seq![
        two("%usr", "usr"),
        two("%nice", "nice_excl_gnice"),
        two("%sys", "sys"),
        two("%iowait", "iowait"),
        two("%steal", "steal"),
        two("%irq", "irq"),
        two("%soft", "soft"),
        two("%guest", "guest"),
        two("%gnice", "gnice"),
        two("%idle", "idle"),
    ]
}

/// CPU utilization: what the members of JSON and XML stand for.
pub open spec fn cpu_full_members() -> Seq<Keyed> {
    seq![
        tells_item("cpu", "number", Fmt::ItemKeyStr),
        member("usr", "usr"),
        member("nice", "nice_excl_gnice"),
        member("sys", "sys"),
        member("iowait", "iowait"),
        member("steal", "steal"),
        member("irq", "irq"),
        member("soft", "soft"),
        member("guest", "guest"),
        member("gnice", "gnice"),
        member("idle", "idle"),
    ]
}

/// CPU utilization: what the names of the raw format stand for.
pub open spec fn cpu_full_counters() -> Seq<Counted> {
    seq![
        counted("%usr", Counter::Beyond("user", "guest")),
        counted("%nice", Counter::Beyond("nice", "gnice")),
        grows("%sys", "sys"),
        grows("%iowait", "iowait"),
        grows("%steal", "steal"),
        grows("%irq", "irq"),
        grows("%soft", "soft"),
        grows("%guest", "guest"),
        grows("%gnice", "gnice"),
        grows("%idle", "idle"),
    ]
}

/// Task creation and switching activity: what the names of the flat formats stand for.
pub open spec fn pcsw_names() -> Seq<Named> {
    seq![
        two("proc/s", "proc"),
        two("cswch/s", "cswch"),
    ]
}

/// Task creation and switching activity: what the members of JSON and XML stand for.
pub open spec fn pcsw_members() -> Seq<Keyed> {
    seq![
        member("proc", "proc"),
        member("cswch", "cswch"),
    ]
}

/// Swap activity: what the names of the flat formats stand for.
pub open spec fn swap_names() -> Seq<Named> {
    seq![
        two("pswpin/s", "pswpin"),
        two("pswpout/s", "pswpout"),
    ]
}

/// Swap activity: what the members of JSON and XML stand for.
pub open spec fn swap_members() -> Seq<Keyed> {
    seq![
        member("pswpin", "pswpin"),
        member("pswpout", "pswpout"),
    ]
}

/// Paging activity: what the names of the flat formats stand for.
pub open spec fn page_names() -> Seq<Named> {
    seq![
        two("pgpgin/s", "pgpgin"),
        two("pgpgout/s", "pgpgout"),
        two("fault/s", "fault"),
        two("majflt/s", "majflt"),
        two("pgfree/s", "pgfree"),
        two("pgscank/s", "pgscank"),
        two("pgscand/s", "pgscand"),
        two("pgsteal/s", "pgsteal"),
        two("pgprom/s", "pgprom"),
        two("pgdem/s", "pgdem"),
    ]
}

/// Paging activity: what the members of JSON and XML stand for.
pub open spec fn page_members() -> Seq<Keyed> {
    seq![
        member("pgpgin", "pgpgin"),
        member("pgpgout", "pgpgout"),
        member("fault", "fault"),
        member("majflt", "majflt"),
        member("pgfree", "pgfree"),
        member("pgscank", "pgscank"),
        member("pgscand", "pgscand"),
        member("pgsteal", "pgsteal"),
        member("pgprom", "pgprom"),
        member("pgdem", "pgdem"),
    ]
}

/// I/O and transfer rate statistics: what the names of the flat formats stand for.
pub open spec fn io_names() -> Seq<Named> {
    seq![
        two("tps", "tps"),
        two("rtps", "rtps"),
        two("wtps", "wtps"),
        two("dtps", "dtps"),
        two("bread/s", "bread"),
        two("bwrtn/s", "bwrtn"),
        two("bdscd/s", "bdscd"),
    ]
}

/// I/O and transfer rate statistics: what the members of JSON and XML stand for.
pub open spec fn io_members() -> Seq<Keyed> {
    seq![
        member("tps", "tps"),
        member("rtps", "rtps"),
        member("wtps", "wtps"),
        member("dtps", "dtps"),
        member("bread", "bread"),
        member("bwrtn", "bwrtn"),
        member("bdscd", "bdscd"),
    ]
}

/// Memory and/or swap utilization: what the names of the flat formats stand for.
pub open spec fn memory_names() -> Seq<Named> {
    seq![
        whole("kbmemfree", "kbmemfree"),
        whole("kbavail", "kbavail"),
        whole("kbmemused", "kbmemused"),
        two("%memused", "memused_pct"),
        whole("kbbuffers", "kbbuffers"),
        whole("kbcached", "kbcached"),
        whole("kbcommit", "kbcommit"),
        two("%commit", "commit_pct"),
        whole("kbactive", "kbactive"),
        whole("kbinact", "kbinact"),
        whole("kbdirty", "kbdirty"),
        whole("kbshared", "kbshmem"),
        detail("kbanonpg", "kbanonpg"),
        detail("kbslab", "kbslab"),
        detail("kbkstack", "kbkstack"),
        detail("kbpgtbl", "kbpgtbl"),
        detail("kbvmused", "kbvmused"),
    ]
}

/// Memory and/or swap utilization: what the members of JSON and XML stand for.
pub open spec fn memory_members() -> Seq<Keyed> {
    seq![
        keyed("memfree", "memfree", "kbmemfree", Fmt::Int),
        keyed("avail", "avail", "kbavail", Fmt::Int),
        keyed("memused", "memused", "kbmemused", Fmt::Int),
        member("memused-percent", "memused_pct"),
        keyed("buffers", "buffers", "kbbuffers", Fmt::Int),
        keyed("cached", "cached", "kbcached", Fmt::Int),
        keyed("commit", "commit", "kbcommit", Fmt::Int),
        member("commit-percent", "commit_pct"),
        keyed("active", "active", "kbactive", Fmt::Int),
        keyed("inactive", "inactive", "kbinact", Fmt::Int),
        keyed("dirty", "dirty", "kbdirty", Fmt::Int),
        keyed("shared", "shared", "kbshmem", Fmt::Int),
        detail_member("anonpg", "kbanonpg"),
        detail_member("slab", "kbslab"),
        detail_member("kstack", "kbkstack"),
        detail_member("pgtbl", "kbpgtbl"),
        detail_member("vmused", "kbvmused"),
    ]
}

/// Memory and/or swap utilization: what the names of the raw format stand for.
pub open spec fn memory_counters() -> Seq<Counted> {
    seq![
        stands("kbmemfree", "kbmemfree"),
        counted("kbavail", Counter::Displayed("kbavail")),
        stands("kbttlmem", "kbmemtotal"),
        stands("kbbuffers", "kbbuffers"),
        stands("kbcached", "kbcached"),
        stands("kbcommit", "kbcommit"),
        stands("kbactive", "kbactive"),
        stands("kbinact", "kbinact"),
        stands("kbdirty", "kbdirty"),
        stands("kbshmem", "kbshmem"),
        detail_stands("kbanonpg", "kbanonpg"),
        detail_stands("kbslab", "kbslab"),
        detail_stands("kbkstack", "kbkstack"),
        detail_stands("kbpgtbl", "kbpgtbl"),
        detail_stands("kbvmused", "kbvmused"),
    ]
}

/// Memory and/or swap utilization: what the names of the flat formats stand for.
pub open spec fn swap_space_names() -> Seq<Named> {
    seq![
        whole("kbswpfree", "kbswpfree"),
        whole("kbswpused", "kbswpused"),
        two("%swpused", "swpused_pct"),
        whole("kbswpcad", "kbswpcad"),
        two("%swpcad", "swpcad_pct"),
    ]
}

/// Memory and/or swap utilization: what the members of JSON and XML stand for.
pub open spec fn swap_space_members() -> Seq<Keyed> {
    seq![
        keyed("swpfree", "swpfree", "kbswpfree", Fmt::Int),
        keyed("swpused", "swpused", "kbswpused", Fmt::Int),
        member("swpused-percent", "swpused_pct"),
        keyed("swpcad", "swpcad", "kbswpcad", Fmt::Int),
        member("swpcad-percent", "swpcad_pct"),
    ]
}

/// Memory and/or swap utilization: what the names of the raw format stand for.
pub open spec fn swap_space_counters() -> Seq<Counted> {
    seq![
        stands("kbswpfree", "kbswpfree"),
        stands("kbttlswp", "kbswptotal"),
        stands("kbswpcad", "kbswpcad"),
    ]
}

/// Huge pages utilization: what the names of the flat formats stand for.
pub open spec fn huge_names() -> Seq<Named> {
    seq![
        whole("kbhugfree", "kbhugfree"),
        whole("kbhugused", "kbhugused"),
        two("%hugused", "hugused_pct"),
        whole("kbhugrsvd", "kbhugrsvd"),
        whole("kbhugsurp", "kbhugsurp"),
    ]
}

/// Huge pages utilization: what the members of JSON and XML stand for.
pub open spec fn huge_members() -> Seq<Keyed> {
    seq![
        keyed("hugfree", "hugfree", "kbhugfree", Fmt::Int),
        keyed("hugused", "hugused", "kbhugused", Fmt::Int),
        member("hugused-percent", "hugused_pct"),
        keyed("hugrsvd", "hugrsvd", "kbhugrsvd", Fmt::Int),
        keyed("hugsurp", "hugsurp", "kbhugsurp", Fmt::Int),
    ]
}

/// Huge pages utilization: what the names of the raw format stand for.
pub open spec fn huge_counters() -> Seq<Counted> {
    seq![
        stands("kbhugfree", "kbhugfree"),
        stands("hugtotal", "kbhugtotal"),
        stands("kbhugrsvd", "kbhugrsvd"),
        stands("kbhugsurp", "kbhugsurp"),
    ]
}

/// Kernel tables statistics: what the names of the flat formats stand for.
pub open spec fn ktables_names() -> Seq<Named> {
    seq![
        whole("dentunusd", "dentunusd"),
        whole("file-nr", "file_nr"),
        whole("inode-nr", "inode_nr"),
        whole("pty-nr", "pty_nr"),
    ]
}

/// Kernel tables statistics: what the members of JSON and XML stand for.
pub open spec fn ktables_members() -> Seq<Keyed> {
    seq![
        keyed("dentunusd", "dentunusd", "dentunusd", Fmt::Int),
        keyed("file-nr", "file-nr", "file_nr", Fmt::Int),
        keyed("inode-nr", "inode-nr", "inode_nr", Fmt::Int),
        keyed("pty-nr", "pty-nr", "pty_nr", Fmt::Int),
    ]
}

/// Kernel tables statistics: what the names of the raw format stand for.
pub open spec fn ktables_counters() -> Seq<Counted> {
    seq![
        stands("dentunusd", "dentunusd"),
        stands("file-nr", "file_nr"),
        stands("inode-nr", "inode_nr"),
        stands("pty-nr", "pty_nr"),
    ]
}

/// Queue length and load average statistics: what the names of the flat formats stand for.
pub open spec fn queue_names() -> Seq<Named> {
    seq![
        whole("runq-sz", "runq_sz"),
        whole("plist-sz", "plist_sz"),
        two("ldavg-1", "ldavg_1"),
        two("ldavg-5", "ldavg_5"),
        two("ldavg-15", "ldavg_15"),
        whole("blocked", "blocked"),
    ]
}

/// Queue length and load average statistics: what the members of JSON and XML stand for.
pub open spec fn queue_members() -> Seq<Keyed> {
    seq![
        keyed("runq-sz", "runq-sz", "runq_sz", Fmt::Int),
        keyed("plist-sz", "plist-sz", "plist_sz", Fmt::Int),
        member("ldavg-1", "ldavg_1"),
        member("ldavg-5", "ldavg_5"),
        member("ldavg-15", "ldavg_15"),
        keyed("blocked", "blocked", "blocked", Fmt::Int),
    ]
}

/// Queue length and load average statistics: what the names of the raw format stand for.
pub open spec fn queue_counters() -> Seq<Counted> {
    seq![
        stands("runq-sz", "runq_sz"),
        stands("plist-sz", "plist_sz"),
        stands("ldavg-1", "ldavg_1"),
        stands("ldavg-5", "ldavg_5"),
        stands("ldavg-15", "ldavg_15"),
        stands("blocked", "blocked"),
    ]
}

/// TTY devices statistics: what the names of the flat formats stand for.
pub open spec fn serial_names() -> Seq<Named> {
    seq![
        two("rcvin/s", "rcvin"),
        two("xmtin/s", "xmtin"),
        two("framerr/s", "framerr"),
        two("prtyerr/s", "prtyerr"),
        two("brk/s", "brk"),
        two("ovrun/s", "ovrun"),
    ]
}

/// TTY devices statistics: what the members of JSON and XML stand for.
pub open spec fn serial_members() -> Seq<Keyed> {
    seq![
        tells_item("line", "line", Fmt::ItemKeyNum),
        member("rcvin", "rcvin"),
        member("xmtin", "xmtin"),
        member("framerr", "framerr"),
        member("prtyerr", "prtyerr"),
        member("brk", "brk"),
        member("ovrun", "ovrun"),
    ]
}

/// TTY devices statistics: what the names of the raw format stand for.
pub open spec fn serial_counters() -> Seq<Counted> {
    seq![
        grows("rcvin/s", "rcvin"),
        grows("xmtin/s", "xmtin"),
        grows("framerr/s", "framerr"),
        grows("prtyerr/s", "prtyerr"),
        grows("brk/s", "brk"),
        grows("ovrun/s", "ovrun"),
    ]
}

/// Block devices statistics: what the names of the flat formats stand for.
pub open spec fn disk_names() -> Seq<Named> {
    seq![
        two("tps", "tps"),
        two("rkB/s", "read_kb_per_sec"),
        two("wkB/s", "write_kb_per_sec"),
        two("dkB/s", "discard_kb_per_sec"),
        two("areq-sz", "avg_request_size"),
        two("aqu-sz", "avg_queue_size"),
        two("await", "await"),
        two("%util", "util_pct"),
    ]
}

/// Block devices statistics: what the members of JSON and XML stand for.
pub open spec fn disk_members() -> Seq<Keyed> {
    seq![
        tells_item("disk-device", "dev", Fmt::ItemKeyStr),
        member("tps", "tps"),
        member("rd_sec", ""),
        member("wr_sec", ""),
        member("dc_sec", ""),
        member("rkB", "read_kb_per_sec"),
        member("wkB", "write_kb_per_sec"),
        member("dkB", "discard_kb_per_sec"),
        member("avgrq-sz", ""),
        member("areq-sz", "avg_request_size"),
        member("avgqu-sz", "avg_queue_size"),
        member("aqu-sz", "avg_queue_size"),
        member("await", "await"),
        member("util-percent", "util_pct"),
    ]
}

/// Block devices statistics: what the names of the raw format stand for.
pub open spec fn disk_counters() -> Seq<Counted> {
    seq![
        stands("major", "major"),
        stands("minor", "minor"),
        grows("tps", "tps"),
        grows("rkB/s", "read_kb_per_sec"),
        grows("wkB/s", "write_kb_per_sec"),
        grows("dkB/s", "discard_kb_per_sec"),
        grows("rd_ticks", "read_ticks"),
        grows("wr_ticks", "write_ticks"),
        grows("dc_ticks", "discard_ticks"),
        grows("tot_ticks", "util_pct"),
        grows("aqu-sz", "avg_queue_size"),
    ]
}

/// Network interfaces statistics: what the names of the flat formats stand for.
pub open spec fn net_dev_names() -> Seq<Named> {
    seq![
        two("rxpck/s", "rxpck_per_sec"),
        two("txpck/s", "txpck_per_sec"),
        two("rxkB/s", "rx_bytes_per_sec"),
        two("txkB/s", "tx_bytes_per_sec"),
        two("rxcmp/s", "rxcmp_per_sec"),
        two("txcmp/s", "txcmp_per_sec"),
        two("rxmcst/s", "rxmcst_per_sec"),
        two("%ifutil", "ifutil_pct"),
    ]
}

/// Network interfaces statistics: what the members of JSON and XML stand for.
pub open spec fn net_dev_members() -> Seq<Keyed> {
    seq![
        tells_item("iface", "iface", Fmt::ItemKeyStr),
        member("rxpck", "rxpck_per_sec"),
        member("txpck", "txpck_per_sec"),
        member("rxkB", "rx_bytes_per_sec"),
        member("txkB", "tx_bytes_per_sec"),
        member("rxcmp", "rxcmp_per_sec"),
        member("txcmp", "txcmp_per_sec"),
        member("rxmcst", "rxmcst_per_sec"),
        member("ifutil-percent", "ifutil_pct"),
    ]
}

/// Network interfaces statistics: what the names of the raw format stand for.
pub open spec fn net_dev_counters() -> Seq<Counted> {
    seq![
        grows("rxpck/s", "rxpck_per_sec"),
        grows("txpck/s", "txpck_per_sec"),
        grows("rxkB/s", "rx_bytes_per_sec"),
        grows("txkB/s", "tx_bytes_per_sec"),
        grows("rxcmp/s", "rxcmp_per_sec"),
        grows("txcmp/s", "txcmp_per_sec"),
        grows("rxmcst/s", "rxmcst_per_sec"),
        stands("speed", "speed"),
        stands("duplex", "duplex"),
    ]
}

/// Network interfaces errors statistics: what the names of the flat formats stand for.
pub open spec fn net_edev_names() -> Seq<Named> {
    seq![
        two("rxerr/s", "rxerr_per_sec"),
        two("txerr/s", "txerr_per_sec"),
        two("coll/s", "coll_per_sec"),
        two("rxdrop/s", "rxdrop_per_sec"),
        two("txdrop/s", "txdrop_per_sec"),
        two("txcarr/s", "txcarr_per_sec"),
        two("rxfram/s", "rxfram_per_sec"),
        two("rxfifo/s", "rxfifo_per_sec"),
        two("txfifo/s", "txfifo_per_sec"),
    ]
}

/// Network interfaces errors statistics: what the members of JSON and XML stand for.
pub open spec fn net_edev_members() -> Seq<Keyed> {
    seq![
        tells_item("iface", "iface", Fmt::ItemKeyStr),
        member("rxerr", "rxerr_per_sec"),
        member("txerr", "txerr_per_sec"),
        member("coll", "coll_per_sec"),
        member("rxdrop", "rxdrop_per_sec"),
        member("txdrop", "txdrop_per_sec"),
        member("txcarr", "txcarr_per_sec"),
        member("rxfram", "rxfram_per_sec"),
        member("rxfifo", "rxfifo_per_sec"),
        member("txfifo", "txfifo_per_sec"),
    ]
}

/// NFS client statistics: what the names of the flat formats stand for.
pub open spec fn net_nfs_names() -> Seq<Named> {
    seq![
        two("call/s", "call_per_sec"),
        two("retrans/s", "retrans_per_sec"),
        two("read/s", "read_per_sec"),
        two("write/s", "write_per_sec"),
        two("access/s", "access_per_sec"),
        two("getatt/s", "getatt_per_sec"),
    ]
}

/// NFS client statistics: what the members of JSON and XML stand for.
pub open spec fn net_nfs_members() -> Seq<Keyed> {
    seq![
        member("call", "call_per_sec"),
        member("retrans", "retrans_per_sec"),
        member("read", "read_per_sec"),
        member("write", "write_per_sec"),
        member("access", "access_per_sec"),
        member("getatt", "getatt_per_sec"),
    ]
}

/// NFS server statistics: what the names of the flat formats stand for.
pub open spec fn net_nfsd_names() -> Seq<Named> {
    seq![
        two("scall/s", "scall_per_sec"),
        two("badcall/s", "badcall_per_sec"),
        two("packet/s", "packet_per_sec"),
        two("udp/s", "udp_per_sec"),
        two("tcp/s", "tcp_per_sec"),
        two("hit/s", "hit_per_sec"),
        two("miss/s", "miss_per_sec"),
        two("sread/s", "sread_per_sec"),
        two("swrite/s", "swrite_per_sec"),
        two("saccess/s", "saccess_per_sec"),
        two("sgetatt/s", "sgetatt_per_sec"),
    ]
}

/// NFS server statistics: what the members of JSON and XML stand for.
pub open spec fn net_nfsd_members() -> Seq<Keyed> {
    seq![
        member("scall", "scall_per_sec"),
        member("badcall", "badcall_per_sec"),
        member("packet", "packet_per_sec"),
        member("udp", "udp_per_sec"),
        member("tcp", "tcp_per_sec"),
        member("hit", "hit_per_sec"),
        member("miss", "miss_per_sec"),
        member("sread", "sread_per_sec"),
        member("swrite", "swrite_per_sec"),
        member("saccess", "saccess_per_sec"),
        member("sgetatt", "sgetatt_per_sec"),
    ]
}

/// IPv4 sockets statistics: what the names of the flat formats stand for.
pub open spec fn net_sock_names() -> Seq<Named> {
    seq![
        whole("totsck", "totsck"),
        whole("tcpsck", "tcpsck"),
        whole("udpsck", "udpsck"),
        whole("rawsck", "rawsck"),
        whole("ip-frag", "ip_frag"),
        whole("tcp-tw", "tcp_tw"),
    ]
}

/// IPv4 sockets statistics: what the members of JSON and XML stand for.
pub open spec fn net_sock_members() -> Seq<Keyed> {
    seq![
        keyed("totsck", "totsck", "totsck", Fmt::Int),
        keyed("tcpsck", "tcpsck", "tcpsck", Fmt::Int),
        keyed("udpsck", "udpsck", "udpsck", Fmt::Int),
        keyed("rawsck", "rawsck", "rawsck", Fmt::Int),
        keyed("ip-frag", "ip-frag", "ip_frag", Fmt::Int),
        keyed("tcp-tw", "tcp-tw", "tcp_tw", Fmt::Int),
    ]
}

/// IPv4 sockets statistics: what the names of the raw format stand for.
pub open spec fn net_sock_counters() -> Seq<Counted> {
    seq![
        stands("totsck", "totsck"),
        stands("tcpsck", "tcpsck"),
        stands("udpsck", "udpsck"),
        stands("rawsck", "rawsck"),
        stands("ip-frag", "ip_frag"),
        stands("tcp-tw", "tcp_tw"),
    ]
}

/// IPv4 traffic statistics: what the names of the flat formats stand for.
pub open spec fn net_ip_names() -> Seq<Named> {
    seq![
        two("irec/s", "irec_per_sec"),
        two("fwddgm/s", "fwddgm_per_sec"),
        two("idel/s", "idel_per_sec"),
        two("orq/s", "orq_per_sec"),
        two("asmrq/s", "asmrq_per_sec"),
        two("asmok/s", "asmok_per_sec"),
        two("fragok/s", "fragok_per_sec"),
        two("fragcrt/s", "fragcrt_per_sec"),
    ]
}

/// IPv4 traffic statistics: what the members of JSON and XML stand for.
pub open spec fn net_ip_members() -> Seq<Keyed> {
    seq![
        member("irec", "irec_per_sec"),
        member("fwddgm", "fwddgm_per_sec"),
        member("idel", "idel_per_sec"),
        member("orq", "orq_per_sec"),
        member("asmrq", "asmrq_per_sec"),
        member("asmok", "asmok_per_sec"),
        member("fragok", "fragok_per_sec"),
        member("fragcrt", "fragcrt_per_sec"),
    ]
}

/// IPv4 traffic errors statistics: what the names of the flat formats stand for.
pub open spec fn net_eip_names() -> Seq<Named> {
    seq![
        two("ihdrerr/s", "ihdrerr_per_sec"),
        two("iadrerr/s", "iadrerr_per_sec"),
        two("iukwnpr/s", "iukwnpr_per_sec"),
        two("idisc/s", "idisc_per_sec"),
        two("odisc/s", "odisc_per_sec"),
        two("onort/s", "onort_per_sec"),
        two("asmf/s", "asmf_per_sec"),
        two("fragf/s", "fragf_per_sec"),
    ]
}

/// IPv4 traffic errors statistics: what the members of JSON and XML stand for.
pub open spec fn net_eip_members() -> Seq<Keyed> {
    seq![
        member("ihdrerr", "ihdrerr_per_sec"),
        member("iadrerr", "iadrerr_per_sec"),
        member("iukwnpr", "iukwnpr_per_sec"),
        member("idisc", "idisc_per_sec"),
        member("odisc", "odisc_per_sec"),
        member("onort", "onort_per_sec"),
        member("asmf", "asmf_per_sec"),
        member("fragf", "fragf_per_sec"),
    ]
}

/// ICMPv4 traffic statistics: what the names of the flat formats stand for.
pub open spec fn net_icmp_names() -> Seq<Named> {
    seq![
        two("imsg/s", "imsg_per_sec"),
        two("omsg/s", "omsg_per_sec"),
        two("iech/s", "iech_per_sec"),
        two("iechr/s", "iechr_per_sec"),
        two("oech/s", "oech_per_sec"),
        two("oechr/s", "oechr_per_sec"),
        two("itm/s", "itm_per_sec"),
        two("itmr/s", "itmr_per_sec"),
        two("otm/s", "otm_per_sec"),
        two("otmr/s", "otmr_per_sec"),
        two("iadrmk/s", "iadrmk_per_sec"),
        two("iadrmkr/s", "iadrmkr_per_sec"),
        two("oadrmk/s", "oadrmk_per_sec"),
        two("oadrmkr/s", "oadrmkr_per_sec"),
    ]
}

/// ICMPv4 traffic statistics: what the members of JSON and XML stand for.
pub open spec fn net_icmp_members() -> Seq<Keyed> {
    seq![
        member("imsg", "imsg_per_sec"),
        member("omsg", "omsg_per_sec"),
        member("iech", "iech_per_sec"),
        member("iechr", "iechr_per_sec"),
        member("oech", "oech_per_sec"),
        member("oechr", "oechr_per_sec"),
        member("itm", "itm_per_sec"),
        member("itmr", "itmr_per_sec"),
        member("otm", "otm_per_sec"),
        member("otmr", "otmr_per_sec"),
        member("iadrmk", "iadrmk_per_sec"),
        member("iadrmkr", "iadrmkr_per_sec"),
        member("oadrmk", "oadrmk_per_sec"),
        member("oadrmkr", "oadrmkr_per_sec"),
    ]
}

/// ICMPv4 traffic errors statistics: what the names of the flat formats stand for.
pub open spec fn net_eicmp_names() -> Seq<Named> {
    seq![
        two("ierr/s", "ierr_per_sec"),
        two("oerr/s", "oerr_per_sec"),
        two("idstunr/s", "idstunr_per_sec"),
        two("odstunr/s", "odstunr_per_sec"),
        two("itmex/s", "itmex_per_sec"),
        two("otmex/s", "otmex_per_sec"),
        two("iparmpb/s", "iparmpb_per_sec"),
        two("oparmpb/s", "oparmpb_per_sec"),
        two("isrcq/s", "isrcq_per_sec"),
        two("osrcq/s", "osrcq_per_sec"),
        two("iredir/s", "iredir_per_sec"),
        two("oredir/s", "oredir_per_sec"),
    ]
}

/// ICMPv4 traffic errors statistics: what the members of JSON and XML stand for.
pub open spec fn net_eicmp_members() -> Seq<Keyed> {
    seq![
        member("ierr", "ierr_per_sec"),
        member("oerr", "oerr_per_sec"),
        member("idstunr", "idstunr_per_sec"),
        member("odstunr", "odstunr_per_sec"),
        member("itmex", "itmex_per_sec"),
        member("otmex", "otmex_per_sec"),
        member("iparmpb", "iparmpb_per_sec"),
        member("oparmpb", "oparmpb_per_sec"),
        member("isrcq", "isrcq_per_sec"),
        member("osrcq", "osrcq_per_sec"),
        member("iredir", "iredir_per_sec"),
        member("oredir", "oredir_per_sec"),
    ]
}

/// TCPv4 traffic statistics: what the names of the flat formats stand for.
pub open spec fn net_tcp_names() -> Seq<Named> {
    seq![
        two("active/s", "active_per_sec"),
        two("passive/s", "passive_per_sec"),
        two("iseg/s", "iseg_per_sec"),
        two("oseg/s", "oseg_per_sec"),
    ]
}

/// TCPv4 traffic statistics: what the members of JSON and XML stand for.
pub open spec fn net_tcp_members() -> Seq<Keyed> {
    seq![
        member("active", "active_per_sec"),
        member("passive", "passive_per_sec"),
        member("iseg", "iseg_per_sec"),
        member("oseg", "oseg_per_sec"),
    ]
}

/// TCPv4 traffic errors statistics: what the names of the flat formats stand for.
pub open spec fn net_etcp_names() -> Seq<Named> {
    seq![
        two("atmptf/s", "atmptf_per_sec"),
        two("estres/s", "estres_per_sec"),
        two("retrseg/s", "retrseg_per_sec"),
        two("isegerr/s", "isegerr_per_sec"),
        two("orsts/s", "orsts_per_sec"),
    ]
}

/// TCPv4 traffic errors statistics: what the members of JSON and XML stand for.
pub open spec fn net_etcp_members() -> Seq<Keyed> {
    seq![
        member("atmptf", "atmptf_per_sec"),
        member("estres", "estres_per_sec"),
        member("retrseg", "retrseg_per_sec"),
        member("isegerr", "isegerr_per_sec"),
        member("orsts", "orsts_per_sec"),
    ]
}

/// UDPv4 traffic statistics: what the names of the flat formats stand for.
pub open spec fn net_udp_names() -> Seq<Named> {
    seq![
        two("idgm/s", "idgm_per_sec"),
        two("odgm/s", "odgm_per_sec"),
        two("noport/s", "noport_per_sec"),
        two("idgmerr/s", "idgmerr_per_sec"),
    ]
}

/// UDPv4 traffic statistics: what the members of JSON and XML stand for.
pub open spec fn net_udp_members() -> Seq<Keyed> {
    seq![
        member("idgm", "idgm_per_sec"),
        member("odgm", "odgm_per_sec"),
        member("noport", "noport_per_sec"),
        member("idgmerr", "idgmerr_per_sec"),
    ]
}

/// IPv6 sockets statistics: what the names of the flat formats stand for.
pub open spec fn net_sock6_names() -> Seq<Named> {
    seq![
        whole("tcp6sck", "tcp6sck"),
        whole("udp6sck", "udp6sck"),
        whole("raw6sck", "raw6sck"),
        whole("ip6-frag", "ip6_frag"),
    ]
}

/// IPv6 sockets statistics: what the members of JSON and XML stand for.
pub open spec fn net_sock6_members() -> Seq<Keyed> {
    seq![
        keyed("tcp6sck", "tcp6sck", "tcp6sck", Fmt::Int),
        keyed("udp6sck", "udp6sck", "udp6sck", Fmt::Int),
        keyed("raw6sck", "raw6sck", "raw6sck", Fmt::Int),
        keyed("ip6-frag", "ip6-frag", "ip6_frag", Fmt::Int),
    ]
}

/// IPv6 sockets statistics: what the names of the raw format stand for.
pub open spec fn net_sock6_counters() -> Seq<Counted> {
    seq![
        stands("tcp6sck", "tcp6sck"),
        stands("udp6sck", "udp6sck"),
        stands("raw6sck", "raw6sck"),
        stands("ip6-frag", "ip6_frag"),
    ]
}

/// IPv6 traffic statistics: what the names of the flat formats stand for.
pub open spec fn net_ip6_names() -> Seq<Named> {
    seq![
        two("irec6/s", "irec6_per_sec"),
        two("fwddgm6/s", "fwddgm6_per_sec"),
        two("idel6/s", "idel6_per_sec"),
        two("orq6/s", "orq6_per_sec"),
        two("asmrq6/s", "asmrq6_per_sec"),
        two("asmok6/s", "asmok6_per_sec"),
        two("imcpck6/s", "imcpck6_per_sec"),
        two("omcpck6/s", "omcpck6_per_sec"),
        two("fragok6/s", "fragok6_per_sec"),
        two("fragcr6/s", "fragcr6_per_sec"),
    ]
}

/// IPv6 traffic statistics: what the members of JSON and XML stand for.
pub open spec fn net_ip6_members() -> Seq<Keyed> {
    seq![
        member("irec6", "irec6_per_sec"),
        member("fwddgm6", "fwddgm6_per_sec"),
        member("idel6", "idel6_per_sec"),
        member("orq6", "orq6_per_sec"),
        member("asmrq6", "asmrq6_per_sec"),
        member("asmok6", "asmok6_per_sec"),
        member("imcpck6", "imcpck6_per_sec"),
        member("omcpck6", "omcpck6_per_sec"),
        member("fragok6", "fragok6_per_sec"),
        member("fragcr6", "fragcr6_per_sec"),
    ]
}

/// IPv6 traffic errors statistics: what the names of the flat formats stand for.
pub open spec fn net_eip6_names() -> Seq<Named> {
    seq![
        two("ihdrer6/s", "ihdrer6_per_sec"),
        two("iadrer6/s", "iadrer6_per_sec"),
        two("iukwnp6/s", "iukwnp6_per_sec"),
        two("i2big6/s", "i2big6_per_sec"),
        two("idisc6/s", "idisc6_per_sec"),
        two("odisc6/s", "odisc6_per_sec"),
        two("inort6/s", "inort6_per_sec"),
        two("onort6/s", "onort6_per_sec"),
        two("asmf6/s", "asmf6_per_sec"),
        two("fragf6/s", "fragf6_per_sec"),
        two("itrpck6/s", "itrpck6_per_sec"),
    ]
}

/// IPv6 traffic errors statistics: what the members of JSON and XML stand for.
pub open spec fn net_eip6_members() -> Seq<Keyed> {
    seq![
        member("ihdrer6", "ihdrer6_per_sec"),
        member("iadrer6", "iadrer6_per_sec"),
        member("iukwnp6", "iukwnp6_per_sec"),
        member("i2big6", "i2big6_per_sec"),
        member("idisc6", "idisc6_per_sec"),
        member("odisc6", "odisc6_per_sec"),
        member("inort6", "inort6_per_sec"),
        member("onort6", "onort6_per_sec"),
        member("asmf6", "asmf6_per_sec"),
        member("fragf6", "fragf6_per_sec"),
        member("itrpck6", "itrpck6_per_sec"),
    ]
}

/// ICMPv6 traffic statistics: what the names of the flat formats stand for.
pub open spec fn net_icmp6_names() -> Seq<Named> {
    seq![
        two("imsg6/s", "imsg6_per_sec"),
        two("omsg6/s", "omsg6_per_sec"),
        two("iech6/s", "iech6_per_sec"),
        two("iechr6/s", "iechr6_per_sec"),
        two("oechr6/s", "oechr6_per_sec"),
        two("igmbq6/s", "igmbq6_per_sec"),
        two("igmbr6/s", "igmbr6_per_sec"),
        two("ogmbr6/s", "ogmbr6_per_sec"),
        two("igmbrd6/s", "igmbrd6_per_sec"),
        two("ogmbrd6/s", "ogmbrd6_per_sec"),
        two("irtsol6/s", "irtsol6_per_sec"),
        two("ortsol6/s", "ortsol6_per_sec"),
        two("irtad6/s", "irtad6_per_sec"),
        two("inbsol6/s", "inbsol6_per_sec"),
        two("onbsol6/s", "onbsol6_per_sec"),
        two("inbad6/s", "inbad6_per_sec"),
        two("onbad6/s", "onbad6_per_sec"),
    ]
}

/// ICMPv6 traffic statistics: what the members of JSON and XML stand for.
pub open spec fn net_icmp6_members() -> Seq<Keyed> {
    seq![
        member("imsg6", "imsg6_per_sec"),
        member("omsg6", "omsg6_per_sec"),
        member("iech6", "iech6_per_sec"),
        member("iechr6", "iechr6_per_sec"),
        member("oechr6", "oechr6_per_sec"),
        member("igmbq6", "igmbq6_per_sec"),
        member("igmbr6", "igmbr6_per_sec"),
        member("ogmbr6", "ogmbr6_per_sec"),
        member("igmbrd6", "igmbrd6_per_sec"),
        member("ogmbrd6", "ogmbrd6_per_sec"),
        member("irtsol6", "irtsol6_per_sec"),
        member("ortsol6", "ortsol6_per_sec"),
        member("irtad6", "irtad6_per_sec"),
        member("inbsol6", "inbsol6_per_sec"),
        member("onbsol6", "onbsol6_per_sec"),
        member("inbad6", "inbad6_per_sec"),
        member("onbad6", "onbad6_per_sec"),
    ]
}

/// ICMPv6 traffic errors statistics: what the names of the flat formats stand for.
pub open spec fn net_eicmp6_names() -> Seq<Named> {
    seq![
        two("ierr6/s", "ierr6_per_sec"),
        two("idtunr6/s", "idtunr6_per_sec"),
        two("odtunr6/s", "odtunr6_per_sec"),
        two("itmex6/s", "itmex6_per_sec"),
        two("otmex6/s", "otmex6_per_sec"),
        two("iprmpb6/s", "iprmpb6_per_sec"),
        two("oprmpb6/s", "oprmpb6_per_sec"),
        two("iredir6/s", "iredir6_per_sec"),
        two("oredir6/s", "oredir6_per_sec"),
        two("ipck2b6/s", "ipck2b6_per_sec"),
        two("opck2b6/s", "opck2b6_per_sec"),
    ]
}

/// ICMPv6 traffic errors statistics: what the members of JSON and XML stand for.
pub open spec fn net_eicmp6_members() -> Seq<Keyed> {
    seq![
        member("ierr6", "ierr6_per_sec"),
        member("idtunr6", "idtunr6_per_sec"),
        member("odtunr6", "odtunr6_per_sec"),
        member("itmex6", "itmex6_per_sec"),
        member("otmex6", "otmex6_per_sec"),
        member("iprmpb6", "iprmpb6_per_sec"),
        member("oprmpb6", "oprmpb6_per_sec"),
        member("iredir6", "iredir6_per_sec"),
        member("oredir6", "oredir6_per_sec"),
        member("ipck2b6", "ipck2b6_per_sec"),
        member("opck2b6", "opck2b6_per_sec"),
    ]
}

/// UDPv6 traffic statistics: what the names of the flat formats stand for.
pub open spec fn net_udp6_names() -> Seq<Named> {
    seq![
        two("idgm6/s", "idgm6_per_sec"),
        two("odgm6/s", "odgm6_per_sec"),
        two("noport6/s", "noport6_per_sec"),
        two("idgmer6/s", "idgmer6_per_sec"),
    ]
}

/// UDPv6 traffic statistics: what the members of JSON and XML stand for.
pub open spec fn net_udp6_members() -> Seq<Keyed> {
    seq![
        member("idgm6", "idgm6_per_sec"),
        member("odgm6", "odgm6_per_sec"),
        member("noport6", "noport6_per_sec"),
        member("idgmer6", "idgmer6_per_sec"),
    ]
}

/// Fibre Channel HBA statistics: what the names of the flat formats stand for.
pub open spec fn net_fc_names() -> Seq<Named> {
    seq![
        two("fch_rxf/s", "fch_rxf_per_sec"),
        two("fch_txf/s", "fch_txf_per_sec"),
        two("fch_rxw/s", "fch_rxw_per_sec"),
        two("fch_txw/s", "fch_txw_per_sec"),
    ]
}

/// Fibre Channel HBA statistics: what the members of JSON and XML stand for.
pub open spec fn net_fc_members() -> Seq<Keyed> {
    seq![
        tells_item("fchost", "name", Fmt::ItemKeyStr),
        member("fch_rxf", "fch_rxf_per_sec"),
        member("fch_txf", "fch_txf_per_sec"),
        member("fch_rxw", "fch_rxw_per_sec"),
        member("fch_txw", "fch_txw_per_sec"),
    ]
}

/// Software-based network processing statistics: what the names of the flat formats stand for.
pub open spec fn net_soft_names() -> Seq<Named> {
    seq![
        two("total/s", "total_per_sec"),
        two("dropd/s", "dropd_per_sec"),
        two("squeezd/s", "squeezd_per_sec"),
        two("rx_rps/s", "rx_rps_per_sec"),
        two("flw_lim/s", "flw_lim_per_sec"),
        whole("blg_len", "blg_len"),
    ]
}

/// Software-based network processing statistics: what the members of JSON and XML stand for.
pub open spec fn net_soft_members() -> Seq<Keyed> {
    seq![
        tells_item("cpu", "cpu", Fmt::ItemKeyStr),
        member("total", "total_per_sec"),
        member("dropd", "dropd_per_sec"),
        member("squeezd", "squeezd_per_sec"),
        member("rx_rps", "rx_rps_per_sec"),
        member("flw_lim", "flw_lim_per_sec"),
        keyed("blg_len", "blg_len", "blg_len", Fmt::Int),
    ]
}

/// Software-based network processing statistics: what the names of the raw format stand for.
pub open spec fn net_soft_counters() -> Seq<Counted> {
    seq![
        grows("total/s", "total_per_sec"),
        grows("dropd/s", "dropd_per_sec"),
        grows("squeezd/s", "squeezd_per_sec"),
        grows("rx_rps/s", "rx_rps_per_sec"),
        grows("flw_lim/s", "flw_lim_per_sec"),
        stands("blg_len", "blg_len"),
    ]
}

/// CPU clock frequency: what the names of the flat formats stand for.
pub open spec fn pwr_cpu_names() -> Seq<Named> {
    seq![
        two("MHz", "mhz"),
    ]
}

/// CPU clock frequency: what the members of JSON and XML stand for.
pub open spec fn pwr_cpu_members() -> Seq<Keyed> {
    seq![
        tells_item("number", "number", Fmt::ItemKeyStr),
        member("frequency", "mhz"),
    ]
}

/// CPU clock frequency: what the names of the raw format stand for.
pub open spec fn pwr_cpu_counters() -> Seq<Counted> {
    seq![
        stands("MHz", "mhz"),
    ]
}

/// Fans speed: what the names of the flat formats stand for.
pub open spec fn pwr_fan_names() -> Seq<Named> {
    seq![
        words("DEVICE", "device"),
        two("rpm", "rpm"),
        two("drpm", "rpm_delta"),
    ]
}

/// Fans speed: what the members of JSON and XML stand for.
pub open spec fn pwr_fan_members() -> Seq<Keyed> {
    seq![
        tells_item("number", "number", Fmt::ItemKeyNum),
        keyed("rpm", "rpm", "rpm", Fmt::Int),
        keyed("drpm", "drpm", "rpm_delta", Fmt::Int),
        keyed("device", "device", "device", Fmt::Str),
    ]
}

/// Fans speed: what the names of the raw format stand for.
pub open spec fn pwr_fan_counters() -> Seq<Counted> {
    seq![
        counted("DEVICE", Counter::Words("device")),
        counted("rpm", Counter::Double("rpm")),
        counted("rpm_min", Counter::Double("rpm_min")),
    ]
}

/// Devices temperature: what the names of the flat formats stand for.
pub open spec fn pwr_temp_names() -> Seq<Named> {
    seq![
        words("DEVICE", "device"),
        two("degC", "temp_celsius"),
        two("%temp", "temp_pct"),
    ]
}

/// Devices temperature: what the members of JSON and XML stand for.
pub open spec fn pwr_temp_members() -> Seq<Keyed> {
    seq![
        tells_item("number", "number", Fmt::ItemKeyNum),
        member("degC", "temp_celsius"),
        member("percent-temp", "temp_pct"),
        keyed("device", "device", "device", Fmt::Str),
    ]
}

/// Devices temperature: what the names of the raw format stand for.
pub open spec fn pwr_temp_counters() -> Seq<Counted> {
    seq![
        counted("DEVICE", Counter::Words("device")),
        counted("degC", Counter::Double("temp_celsius")),
        counted("temp_min", Counter::Double("temp_min")),
        counted("temp_max", Counter::Double("temp_max")),
    ]
}

/// Voltage inputs statistics: what the names of the flat formats stand for.
pub open spec fn pwr_in_names() -> Seq<Named> {
    seq![
        words("DEVICE", "device"),
        two("inV", "volts"),
        two("%in", "in_pct"),
    ]
}

/// Voltage inputs statistics: what the members of JSON and XML stand for.
pub open spec fn pwr_in_members() -> Seq<Keyed> {
    seq![
        tells_item("number", "number", Fmt::ItemKeyNum),
        member("inV", "volts"),
        member("percent-in", "in_pct"),
        keyed("device", "device", "device", Fmt::Str),
    ]
}

/// Voltage inputs statistics: what the names of the raw format stand for.
pub open spec fn pwr_in_counters() -> Seq<Counted> {
    seq![
        counted("DEVICE", Counter::Words("device")),
        counted("inV", Counter::Double("volts")),
        counted("in_min", Counter::Double("volts_min")),
        counted("in_max", Counter::Double("volts_max")),
    ]
}

/// CPU weighted frequency: what the names of the flat formats stand for.
pub open spec fn pwr_freq_names() -> Seq<Named> {
    seq![
        two("wghMHz", "weighted_mhz"),
    ]
}

/// CPU weighted frequency: what the members of JSON and XML stand for.
pub open spec fn pwr_freq_members() -> Seq<Keyed> {
    seq![
        tells_item("number", "number", Fmt::ItemKeyStr),
        member("weighted-frequency", "weighted_mhz"),
    ]
}

/// CPU weighted frequency: what the names of the raw format stand for.
pub open spec fn pwr_freq_counters() -> Seq<Counted> {
    seq![
        stands("freq", "freq_khz"),
        grows("tminst", "time_in_state"),
    ]
}

/// Batteries capacity: what the names of the flat formats stand for.
pub open spec fn pwr_bat_names() -> Seq<Named> {
    seq![
        whole("%cap", "capacity_pct"),
        two("cap/min", "capacity_per_min"),
        words("status", "status"),
    ]
}

/// Batteries capacity: what the members of JSON and XML stand for.
pub open spec fn pwr_bat_members() -> Seq<Keyed> {
    seq![
        tells_item("number", "number", Fmt::ItemKeyNum),
        keyed("percent-capacity", "percent-capacity", "capacity_pct", Fmt::Int),
        member("variation", "capacity_per_min"),
        keyed("status", "status", "status", Fmt::Str),
    ]
}

/// Batteries capacity: what the names of the raw format stand for.
pub open spec fn pwr_bat_counters() -> Seq<Counted> {
    seq![
        grows("%cap", "capacity_pct"),
        stands("status", "status"),
    ]
}

/// USB devices: what the names of the flat formats stand for.
pub open spec fn pwr_usb_names() -> Seq<Named> {
    seq![
        hexed("idvendor", "vendor_id"),
        hexed("idprod", "product_id"),
        whole("maxpower", "max_power"),
        words("manufact", "manufacturer"),
        words("product", "product"),
    ]
}

/// USB devices: what the members of JSON and XML stand for.
pub open spec fn pwr_usb_members() -> Seq<Keyed> {
    seq![
        tells_item("bus_number", "bus_number", Fmt::ItemKeyNum),
        keyed("idvendor", "idvendor", "vendor_id", Fmt::Hex),
        keyed("idprod", "idprod", "product_id", Fmt::Hex),
        keyed("maxpower", "maxpower", "max_power", Fmt::Int),
        keyed("manufact", "manufact", "manufacturer", Fmt::Str),
        keyed("product", "product", "product", Fmt::Str),
    ]
}

/// USB devices: what the names of the raw format stand for.
pub open spec fn pwr_usb_counters() -> Seq<Counted> {
    seq![
        counted("manufact", Counter::Quoted("manufacturer")),
        counted("product", Counter::Quoted("product")),
        stands("BUS", "bus"),
        counted("idvendor", Counter::Hexed("vendor_id")),
        counted("idprod", Counter::Hexed("product_id")),
        stands("maxpower", "max_power"),
    ]
}

/// Filesystems statistics: what the names of the flat formats stand for.
pub open spec fn fs_device_names() -> Seq<Named> {
    seq![
        none("MBfsfree", "fs_free"),
        none("MBfsused", "fs_used"),
        two("%fsused", "fs_used_pct"),
        two("%ufsused", "fs_used_pct_unpriv"),
        whole("Ifree", "inodes_free"),
        whole("Iused", "inodes_used"),
        two("%Iused", "inodes_used_pct"),
    ]
}

/// Filesystems statistics: what the members of JSON and XML stand for.
pub open spec fn fs_device_members() -> Seq<Keyed> {
    seq![
        tells_item("filesystem", "fsname", Fmt::ItemKeyStr),
        keyed("MBfsfree", "MBfsfree", "fs_free", Fmt::R0),
        keyed("MBfsused", "MBfsused", "fs_used", Fmt::R0),
        keyed("%fsused", "fsused-percent", "fs_used_pct", Fmt::R2),
        keyed("%ufsused", "ufsused-percent", "fs_used_pct_unpriv", Fmt::R2),
        keyed("Ifree", "Ifree", "inodes_free", Fmt::Int),
        keyed("Iused", "Iused", "inodes_used", Fmt::Int),
        keyed("%Iused", "Iused-percent", "inodes_used_pct", Fmt::R2),
    ]
}

/// Filesystems statistics: what the names of the raw format stand for.
pub open spec fn fs_device_counters() -> Seq<Counted> {
    seq![
        stands("f_bfree", "fs_free"),
        stands("f_blocks", "fs_total"),
        stands("f_bavail", "fs_available"),
        stands("Ifree", "inodes_free"),
        stands("f_files", "inodes_total"),
    ]
}

/// Filesystems statistics: what the members of JSON and XML stand for.
pub open spec fn fs_mount_members() -> Seq<Keyed> {
    seq![
        tells_item("mountpoint", "mountp", Fmt::ItemKeyStr),
        keyed("MBfsfree", "MBfsfree", "fs_free", Fmt::R0),
        keyed("MBfsused", "MBfsused", "fs_used", Fmt::R0),
        keyed("%fsused", "fsused-percent", "fs_used_pct", Fmt::R2),
        keyed("%ufsused", "ufsused-percent", "fs_used_pct_unpriv", Fmt::R2),
        keyed("Ifree", "Ifree", "inodes_free", Fmt::Int),
        keyed("Iused", "Iused", "inodes_used", Fmt::Int),
        keyed("%Iused", "Iused-percent", "inodes_used_pct", Fmt::R2),
    ]
}

/// Pressure-stall CPU statistics: what the names of the flat formats stand for.
pub open spec fn psi_cpu_names() -> Seq<Named> {
    seq![
        two("%scpu-10", "scpu_10"),
        two("%scpu-60", "scpu_60"),
        two("%scpu-300", "scpu_300"),
        two("%scpu", "scpu"),
    ]
}

/// Pressure-stall CPU statistics: what the members of JSON and XML stand for.
pub open spec fn psi_cpu_members() -> Seq<Keyed> {
    seq![
        member("some_avg10", "scpu_10"),
        member("some_avg60", "scpu_60"),
        member("some_avg300", "scpu_300"),
        member("some_avg", "scpu"),
    ]
}

/// Pressure-stall CPU statistics: what the names of the raw format stand for.
pub open spec fn psi_cpu_counters() -> Seq<Counted> {
    seq![
        stands("%scpu-10", "scpu_10"),
        stands("%scpu-60", "scpu_60"),
        stands("%scpu-300", "scpu_300"),
        grows("%scpu", "scpu"),
    ]
}

/// Pressure-stall I/O statistics: what the names of the flat formats stand for.
pub open spec fn psi_io_names() -> Seq<Named> {
    seq![
        two("%sio-10", "sio_10"),
        two("%sio-60", "sio_60"),
        two("%sio-300", "sio_300"),
        two("%sio", "sio"),
        two("%fio-10", "fio_10"),
        two("%fio-60", "fio_60"),
        two("%fio-300", "fio_300"),
        two("%fio", "fio"),
    ]
}

/// Pressure-stall I/O statistics: what the members of JSON and XML stand for.
pub open spec fn psi_io_members() -> Seq<Keyed> {
    seq![
        member("some_avg10", "sio_10"),
        member("some_avg60", "sio_60"),
        member("some_avg300", "sio_300"),
        member("some_avg", "sio"),
        member("full_avg10", "fio_10"),
        member("full_avg60", "fio_60"),
        member("full_avg300", "fio_300"),
        member("full_avg", "fio"),
    ]
}

/// Pressure-stall I/O statistics: what the names of the raw format stand for.
pub open spec fn psi_io_counters() -> Seq<Counted> {
    seq![
        stands("%sio-10", "sio_10"),
        stands("%sio-60", "sio_60"),
        stands("%sio-300", "sio_300"),
        grows("%sio", "sio"),
        stands("%fio-10", "fio_10"),
        stands("%fio-60", "fio_60"),
        stands("%fio-300", "fio_300"),
        grows("%fio", "fio"),
    ]
}

/// Pressure-stall memory statistics: what the names of the flat formats stand for.
pub open spec fn psi_mem_names() -> Seq<Named> {
    seq![
        two("%smem-10", "smem_10"),
        two("%smem-60", "smem_60"),
        two("%smem-300", "smem_300"),
        two("%smem", "smem"),
        two("%fmem-10", "fmem_10"),
        two("%fmem-60", "fmem_60"),
        two("%fmem-300", "fmem_300"),
        two("%fmem", "fmem"),
    ]
}

/// Pressure-stall memory statistics: what the members of JSON and XML stand for.
pub open spec fn psi_mem_members() -> Seq<Keyed> {
    seq![
        member("some_avg10", "smem_10"),
        member("some_avg60", "smem_60"),
        member("some_avg300", "smem_300"),
        member("some_avg", "smem"),
        member("full_avg10", "fmem_10"),
        member("full_avg60", "fmem_60"),
        member("full_avg300", "fmem_300"),
        member("full_avg", "fmem"),
    ]
}

/// Pressure-stall memory statistics: what the names of the raw format stand for.
pub open spec fn psi_mem_counters() -> Seq<Counted> {
    seq![
        stands("%smem-10", "smem_10"),
        stands("%smem-60", "smem_60"),
        stands("%smem-300", "smem_300"),
        grows("%smem", "smem"),
        stands("%fmem-10", "fmem_10"),
        stands("%fmem-60", "fmem_60"),
        stands("%fmem-300", "fmem_300"),
        grows("%fmem", "fmem"),
    ]
}

/// What the names of the flat formats stand for in the section `k` of an activity.
pub open spec fn flat_names(id: ActivityId, k: int) -> Seq<Named> {
    match id {
        ActivityId::CPU => if k == 0 {
            cpu_brief_names()
        } else {
            cpu_full_names()
        },
        ActivityId::PCSW => pcsw_names(),
        ActivityId::SWAP => swap_names(),
        ActivityId::PAGE => page_names(),
        ActivityId::IO => io_names(),
        ActivityId::MEMORY => if k == 0 {
            memory_names()
        } else {
            swap_space_names()
        },
        ActivityId::HUGE => huge_names(),
        ActivityId::KTABLES => ktables_names(),
        ActivityId::QUEUE => queue_names(),
        ActivityId::SERIAL => serial_names(),
        ActivityId::DISK => disk_names(),
        ActivityId::NET_DEV => net_dev_names(),
        ActivityId::NET_EDEV => net_edev_names(),
        ActivityId::NET_NFS => net_nfs_names(),
        ActivityId::NET_NFSD => net_nfsd_names(),
        ActivityId::NET_SOCK => net_sock_names(),
        ActivityId::NET_IP => net_ip_names(),
        ActivityId::NET_EIP => net_eip_names(),
        ActivityId::NET_ICMP => net_icmp_names(),
        ActivityId::NET_EICMP => net_eicmp_names(),
        ActivityId::NET_TCP => net_tcp_names(),
        ActivityId::NET_ETCP => net_etcp_names(),
        ActivityId::NET_UDP => net_udp_names(),
        ActivityId::NET_SOCK6 => net_sock6_names(),
        ActivityId::NET_IP6 => net_ip6_names(),
        ActivityId::NET_EIP6 => net_eip6_names(),
        ActivityId::NET_ICMP6 => net_icmp6_names(),
        ActivityId::NET_EICMP6 => net_eicmp6_names(),
        ActivityId::NET_UDP6 => net_udp6_names(),
        ActivityId::NET_FC => net_fc_names(),
        ActivityId::NET_SOFT => net_soft_names(),
        ActivityId::PWR_CPU => pwr_cpu_names(),
        ActivityId::PWR_FAN => pwr_fan_names(),
        ActivityId::PWR_TEMP => pwr_temp_names(),
        ActivityId::PWR_IN => pwr_in_names(),
        ActivityId::PWR_FREQ => pwr_freq_names(),
        ActivityId::PWR_BAT => pwr_bat_names(),
        ActivityId::PWR_USB => pwr_usb_names(),
        ActivityId::FS => if k == 0 {
            fs_device_names()
        } else {
            fs_device_names()
        },
        ActivityId::PSI_CPU => psi_cpu_names(),
        ActivityId::PSI_IO => psi_io_names(),
        ActivityId::PSI_MEM => psi_mem_names(),
        _ => Seq::empty(),
    }
}

/// What the members of JSON and XML stand for in the section `k` of an activity.
pub open spec fn nested_members(id: ActivityId, k: int) -> Seq<Keyed> {
    match id {
        ActivityId::CPU => if k == 0 {
            cpu_brief_members()
        } else {
            cpu_full_members()
        },
        ActivityId::PCSW => pcsw_members(),
        ActivityId::SWAP => swap_members(),
        ActivityId::PAGE => page_members(),
        ActivityId::IO => io_members(),
        ActivityId::MEMORY => if k == 0 {
            memory_members()
        } else {
            swap_space_members()
        },
        ActivityId::HUGE => huge_members(),
        ActivityId::KTABLES => ktables_members(),
        ActivityId::QUEUE => queue_members(),
        ActivityId::SERIAL => serial_members(),
        ActivityId::DISK => disk_members(),
        ActivityId::NET_DEV => net_dev_members(),
        ActivityId::NET_EDEV => net_edev_members(),
        ActivityId::NET_NFS => net_nfs_members(),
        ActivityId::NET_NFSD => net_nfsd_members(),
        ActivityId::NET_SOCK => net_sock_members(),
        ActivityId::NET_IP => net_ip_members(),
        ActivityId::NET_EIP => net_eip_members(),
        ActivityId::NET_ICMP => net_icmp_members(),
        ActivityId::NET_EICMP => net_eicmp_members(),
        ActivityId::NET_TCP => net_tcp_members(),
        ActivityId::NET_ETCP => net_etcp_members(),
        ActivityId::NET_UDP => net_udp_members(),
        ActivityId::NET_SOCK6 => net_sock6_members(),
        ActivityId::NET_IP6 => net_ip6_members(),
        ActivityId::NET_EIP6 => net_eip6_members(),
        ActivityId::NET_ICMP6 => net_icmp6_members(),
        ActivityId::NET_EICMP6 => net_eicmp6_members(),
        ActivityId::NET_UDP6 => net_udp6_members(),
        ActivityId::NET_FC => net_fc_members(),
        ActivityId::NET_SOFT => net_soft_members(),
        ActivityId::PWR_CPU => pwr_cpu_members(),
        ActivityId::PWR_FAN => pwr_fan_members(),
        ActivityId::PWR_TEMP => pwr_temp_members(),
        ActivityId::PWR_IN => pwr_in_members(),
        ActivityId::PWR_FREQ => pwr_freq_members(),
        ActivityId::PWR_BAT => pwr_bat_members(),
        ActivityId::PWR_USB => pwr_usb_members(),
        ActivityId::FS => if k == 0 {
            fs_device_members()
        } else {
            fs_mount_members()
        },
        ActivityId::PSI_CPU => psi_cpu_members(),
        ActivityId::PSI_IO => psi_io_members(),
        ActivityId::PSI_MEM => psi_mem_members(),
        _ => Seq::empty(),
    }
}

/// What the names of the raw format stand for in the section `k` of an activity that lists its
/// counters.
pub open spec fn raw_counters(id: ActivityId, k: int) -> Seq<Counted> {
    match id {
        ActivityId::CPU => if k == 0 {
            cpu_brief_counters()
        } else {
            cpu_full_counters()
        },
        ActivityId::MEMORY => if k == 0 {
            memory_counters()
        } else {
            swap_space_counters()
        },
        ActivityId::HUGE => huge_counters(),
        ActivityId::KTABLES => ktables_counters(),
        ActivityId::QUEUE => queue_counters(),
        ActivityId::SERIAL => serial_counters(),
        ActivityId::DISK => disk_counters(),
        ActivityId::NET_DEV => net_dev_counters(),
        ActivityId::NET_SOCK => net_sock_counters(),
        ActivityId::NET_SOCK6 => net_sock6_counters(),
        ActivityId::NET_SOFT => net_soft_counters(),
        ActivityId::PWR_CPU => pwr_cpu_counters(),
        ActivityId::PWR_FAN => pwr_fan_counters(),
        ActivityId::PWR_TEMP => pwr_temp_counters(),
        ActivityId::PWR_IN => pwr_in_counters(),
        ActivityId::PWR_FREQ => pwr_freq_counters(),
        ActivityId::PWR_BAT => pwr_bat_counters(),
        ActivityId::PWR_USB => pwr_usb_counters(),
        ActivityId::FS => if k == 0 {
            fs_device_counters()
        } else {
            fs_device_counters()
        },
        ActivityId::PSI_CPU => psi_cpu_counters(),
        ActivityId::PSI_IO => psi_io_counters(),
        ActivityId::PSI_MEM => psi_mem_counters(),
        _ => Seq::empty(),
    }
}

/// Whether the section `k` of an activity shows in each format what its names stand for.
pub open spec fn section_is_as_named(id: ActivityId, k: int) -> bool {
    table(id) matches Some(m) ==> 0 <= k < m.sections.len() ==> {
        let section = m.sections[k];
        &&& shows_named(
            named_fields(section.fields, section.fields.len() as int),
            flat_names(id, k),
        )
        &&& shows_keyed(nested_fields(section), nested_members(id, k))
        &&& section.raw matches RawModel::Fields(list) ==> shows_counted(list, raw_counters(id, k))
    }
}

proof fn lemma_cpu()
    ensures
        section_is_as_named(ActivityId::CPU, 0),
        section_is_as_named(ActivityId::CPU, 1),
        table(ActivityId::CPU) matches Some(m) ==> m.sections.len() == 2,
{
    reveal(cpu_model);
    reveal_with_fuel(named_fields, 12);
    reveal_strlit("");
    reveal_strlit("cpu");
    reveal_strlit("number");
    reveal_strlit("%user");
    reveal_strlit("user");
    reveal_strlit("%nice");
    reveal_strlit("nice");
    reveal_strlit("%system");
    reveal_strlit("system");
    reveal_strlit("%iowait");
    reveal_strlit("iowait");
    reveal_strlit("%steal");
    reveal_strlit("steal");
    reveal_strlit("%idle");
    reveal_strlit("idle");
    reveal_strlit("%usr");
    reveal_strlit("usr");
    reveal_strlit("nice_excl_gnice");
    reveal_strlit("%sys");
    reveal_strlit("sys");
    reveal_strlit("%irq");
    reveal_strlit("irq");
    reveal_strlit("%soft");
    reveal_strlit("soft");
    reveal_strlit("%guest");
    reveal_strlit("guest");
    reveal_strlit("%gnice");
    reveal_strlit("gnice");
}

proof fn lemma_pcsw()
    ensures
        section_is_as_named(ActivityId::PCSW, 0),
        table(ActivityId::PCSW) matches Some(m) ==> m.sections.len() == 1,
{
    reveal(pcsw_model);
    reveal_with_fuel(named_fields, 3);
    reveal_strlit("proc/s");
    reveal_strlit("proc");
    reveal_strlit("cswch/s");
    reveal_strlit("cswch");
}

proof fn lemma_irq()
    ensures
        section_is_as_named(ActivityId::IRQ, 0),
        table(ActivityId::IRQ) matches Some(m) ==> m.sections.len() == 1,
{
    reveal(irq_model);
}

proof fn lemma_swap()
    ensures
        section_is_as_named(ActivityId::SWAP, 0),
        table(ActivityId::SWAP) matches Some(m) ==> m.sections.len() == 1,
{
    reveal(swap_model);
    reveal_with_fuel(named_fields, 3);
    reveal_strlit("pswpin/s");
    reveal_strlit("pswpin");
    reveal_strlit("pswpout/s");
    reveal_strlit("pswpout");
}

proof fn lemma_page()
    ensures
        section_is_as_named(ActivityId::PAGE, 0),
        table(ActivityId::PAGE) matches Some(m) ==> m.sections.len() == 1,
{
    reveal(page_model);
    reveal_with_fuel(named_fields, 11);
    reveal_strlit("pgpgin/s");
    reveal_strlit("pgpgin");
    reveal_strlit("pgpgout/s");
    reveal_strlit("pgpgout");
    reveal_strlit("fault/s");
    reveal_strlit("fault");
    reveal_strlit("majflt/s");
    reveal_strlit("majflt");
    reveal_strlit("pgfree/s");
    reveal_strlit("pgfree");
    reveal_strlit("pgscank/s");
    reveal_strlit("pgscank");
    reveal_strlit("pgscand/s");
    reveal_strlit("pgscand");
    reveal_strlit("pgsteal/s");
    reveal_strlit("pgsteal");
    reveal_strlit("pgprom/s");
    reveal_strlit("pgprom");
    reveal_strlit("pgdem/s");
    reveal_strlit("pgdem");
}

proof fn lemma_io()
    ensures
        section_is_as_named(ActivityId::IO, 0),
        table(ActivityId::IO) matches Some(m) ==> m.sections.len() == 1,
{
    reveal(io_model);
    reveal_with_fuel(named_fields, 8);
    reveal_strlit("tps");
    reveal_strlit("rtps");
    reveal_strlit("wtps");
    reveal_strlit("dtps");
    reveal_strlit("bread/s");
    reveal_strlit("bread");
    reveal_strlit("bwrtn/s");
    reveal_strlit("bwrtn");
    reveal_strlit("bdscd/s");
    reveal_strlit("bdscd");
}

proof fn lemma_memory()
    ensures
        section_is_as_named(ActivityId::MEMORY, 0),
        section_is_as_named(ActivityId::MEMORY, 1),
        table(ActivityId::MEMORY) matches Some(m) ==> m.sections.len() == 2,
{
    reveal(memory_model);
    reveal_with_fuel(named_fields, 18);
    reveal_strlit("kbmemfree");
    reveal_strlit("memfree");
    reveal_strlit("kbavail");
    reveal_strlit("avail");
    reveal_strlit("kbmemused");
    reveal_strlit("memused");
    reveal_strlit("%memused");
    reveal_strlit("memused_pct");
    reveal_strlit("memused-percent");
    reveal_strlit("kbbuffers");
    reveal_strlit("buffers");
    reveal_strlit("kbcached");
    reveal_strlit("cached");
    reveal_strlit("kbcommit");
    reveal_strlit("commit");
    reveal_strlit("%commit");
    reveal_strlit("commit_pct");
    reveal_strlit("commit-percent");
    reveal_strlit("kbactive");
    reveal_strlit("active");
    reveal_strlit("kbinact");
    reveal_strlit("inactive");
    reveal_strlit("kbdirty");
    reveal_strlit("dirty");
    reveal_strlit("kbshared");
    reveal_strlit("kbshmem");
    reveal_strlit("shared");
    reveal_strlit("kbanonpg");
    reveal_strlit("anonpg");
    reveal_strlit("kbslab");
    reveal_strlit("slab");
    reveal_strlit("kbkstack");
    reveal_strlit("kstack");
    reveal_strlit("kbpgtbl");
    reveal_strlit("pgtbl");
    reveal_strlit("kbvmused");
    reveal_strlit("vmused");
    reveal_strlit("kbswpfree");
    reveal_strlit("swpfree");
    reveal_strlit("kbswpused");
    reveal_strlit("swpused");
    reveal_strlit("%swpused");
    reveal_strlit("swpused_pct");
    reveal_strlit("swpused-percent");
    reveal_strlit("kbswpcad");
    reveal_strlit("swpcad");
    reveal_strlit("%swpcad");
    reveal_strlit("swpcad_pct");
    reveal_strlit("swpcad-percent");
}

proof fn lemma_huge()
    ensures
        section_is_as_named(ActivityId::HUGE, 0),
        table(ActivityId::HUGE) matches Some(m) ==> m.sections.len() == 1,
{
    reveal(huge_model);
    reveal_with_fuel(named_fields, 6);
    reveal_strlit("kbhugfree");
    reveal_strlit("hugfree");
    reveal_strlit("kbhugused");
    reveal_strlit("hugused");
    reveal_strlit("%hugused");
    reveal_strlit("hugused_pct");
    reveal_strlit("hugused-percent");
    reveal_strlit("kbhugrsvd");
    reveal_strlit("hugrsvd");
    reveal_strlit("kbhugsurp");
    reveal_strlit("hugsurp");
}

proof fn lemma_ktables()
    ensures
        section_is_as_named(ActivityId::KTABLES, 0),
        table(ActivityId::KTABLES) matches Some(m) ==> m.sections.len() == 1,
{
    reveal(ktables_model);
    reveal_with_fuel(named_fields, 5);
    reveal_strlit("dentunusd");
    reveal_strlit("file-nr");
    reveal_strlit("file_nr");
    reveal_strlit("inode-nr");
    reveal_strlit("inode_nr");
    reveal_strlit("pty-nr");
    reveal_strlit("pty_nr");
}

proof fn lemma_queue()
    ensures
        section_is_as_named(ActivityId::QUEUE, 0),
        table(ActivityId::QUEUE) matches Some(m) ==> m.sections.len() == 1,
{
    reveal(queue_model);
    reveal_with_fuel(named_fields, 7);
    reveal_strlit("runq-sz");
    reveal_strlit("runq_sz");
    reveal_strlit("plist-sz");
    reveal_strlit("plist_sz");
    reveal_strlit("ldavg-1");
    reveal_strlit("ldavg_1");
    reveal_strlit("ldavg-5");
    reveal_strlit("ldavg_5");
    reveal_strlit("ldavg-15");
    reveal_strlit("ldavg_15");
    reveal_strlit("blocked");
}

proof fn lemma_serial()
    ensures
        section_is_as_named(ActivityId::SERIAL, 0),
        table(ActivityId::SERIAL) matches Some(m) ==> m.sections.len() == 1,
{
    reveal(serial_model);
    reveal_with_fuel(named_fields, 8);
    reveal_strlit("");
    reveal_strlit("line");
    reveal_strlit("rcvin/s");
    reveal_strlit("rcvin");
    reveal_strlit("xmtin/s");
    reveal_strlit("xmtin");
    reveal_strlit("framerr/s");
    reveal_strlit("framerr");
    reveal_strlit("prtyerr/s");
    reveal_strlit("prtyerr");
    reveal_strlit("brk/s");
    reveal_strlit("brk");
    reveal_strlit("ovrun/s");
    reveal_strlit("ovrun");
}

proof fn lemma_disk()
    ensures
        section_is_as_named(ActivityId::DISK, 0),
        table(ActivityId::DISK) matches Some(m) ==> m.sections.len() == 1,
{
    reveal(disk_model);
    reveal_with_fuel(named_fields, 15);
    reveal_strlit("");
    reveal_strlit("disk-device");
    reveal_strlit("dev");
    reveal_strlit("tps");
    reveal_strlit("rd_sec");
    reveal_strlit("wr_sec");
    reveal_strlit("dc_sec");
    reveal_strlit("rkB/s");
    reveal_strlit("read_kb_per_sec");
    reveal_strlit("rkB");
    reveal_strlit("wkB/s");
    reveal_strlit("write_kb_per_sec");
    reveal_strlit("wkB");
    reveal_strlit("dkB/s");
    reveal_strlit("discard_kb_per_sec");
    reveal_strlit("dkB");
    reveal_strlit("avgrq-sz");
    reveal_strlit("areq-sz");
    reveal_strlit("avg_request_size");
    reveal_strlit("avg_queue_size");
    reveal_strlit("avgqu-sz");
    reveal_strlit("aqu-sz");
    reveal_strlit("await");
    reveal_strlit("%util");
    reveal_strlit("util_pct");
    reveal_strlit("util-percent");
}

proof fn lemma_net_dev()
    ensures
        section_is_as_named(ActivityId::NET_DEV, 0),
        table(ActivityId::NET_DEV) matches Some(m) ==> m.sections.len() == 1,
{
    reveal(net_dev_model);
    reveal_with_fuel(named_fields, 10);
    reveal_strlit("");
    reveal_strlit("iface");
    reveal_strlit("rxpck/s");
    reveal_strlit("rxpck_per_sec");
    reveal_strlit("rxpck");
    reveal_strlit("txpck/s");
    reveal_strlit("txpck_per_sec");
    reveal_strlit("txpck");
    reveal_strlit("rxkB/s");
    reveal_strlit("rx_bytes_per_sec");
    reveal_strlit("rxkB");
    reveal_strlit("txkB/s");
    reveal_strlit("tx_bytes_per_sec");
    reveal_strlit("txkB");
    reveal_strlit("rxcmp/s");
    reveal_strlit("rxcmp_per_sec");
    reveal_strlit("rxcmp");
    reveal_strlit("txcmp/s");
    reveal_strlit("txcmp_per_sec");
    reveal_strlit("txcmp");
    reveal_strlit("rxmcst/s");
    reveal_strlit("rxmcst_per_sec");
    reveal_strlit("rxmcst");
    reveal_strlit("%ifutil");
    reveal_strlit("ifutil_pct");
    reveal_strlit("ifutil-percent");
}

proof fn lemma_net_edev()
    ensures
        section_is_as_named(ActivityId::NET_EDEV, 0),
        table(ActivityId::NET_EDEV) matches Some(m) ==> m.sections.len() == 1,
{
    reveal(net_edev_model);
    reveal_with_fuel(named_fields, 11);
    reveal_strlit("");
    reveal_strlit("iface");
    reveal_strlit("rxerr/s");
    reveal_strlit("rxerr_per_sec");
    reveal_strlit("rxerr");
    reveal_strlit("txerr/s");
    reveal_strlit("txerr_per_sec");
    reveal_strlit("txerr");
    reveal_strlit("coll/s");
    reveal_strlit("coll_per_sec");
    reveal_strlit("coll");
    reveal_strlit("rxdrop/s");
    reveal_strlit("rxdrop_per_sec");
    reveal_strlit("rxdrop");
    reveal_strlit("txdrop/s");
    reveal_strlit("txdrop_per_sec");
    reveal_strlit("txdrop");
    reveal_strlit("txcarr/s");
    reveal_strlit("txcarr_per_sec");
    reveal_strlit("txcarr");
    reveal_strlit("rxfram/s");
    reveal_strlit("rxfram_per_sec");
    reveal_strlit("rxfram");
    reveal_strlit("rxfifo/s");
    reveal_strlit("rxfifo_per_sec");
    reveal_strlit("rxfifo");
    reveal_strlit("txfifo/s");
    reveal_strlit("txfifo_per_sec");
    reveal_strlit("txfifo");
}

proof fn lemma_net_nfs()
    ensures
        section_is_as_named(ActivityId::NET_NFS, 0),
        table(ActivityId::NET_NFS) matches Some(m) ==> m.sections.len() == 1,
{
    reveal(net_nfs_model);
    reveal_with_fuel(named_fields, 7);
    reveal_strlit("call/s");
    reveal_strlit("call_per_sec");
    reveal_strlit("call");
    reveal_strlit("retrans/s");
    reveal_strlit("retrans_per_sec");
    reveal_strlit("retrans");
    reveal_strlit("read/s");
    reveal_strlit("read_per_sec");
    reveal_strlit("read");
    reveal_strlit("write/s");
    reveal_strlit("write_per_sec");
    reveal_strlit("write");
    reveal_strlit("access/s");
    reveal_strlit("access_per_sec");
    reveal_strlit("access");
    reveal_strlit("getatt/s");
    reveal_strlit("getatt_per_sec");
    reveal_strlit("getatt");
}

proof fn lemma_net_nfsd()
    ensures
        section_is_as_named(ActivityId::NET_NFSD, 0),
        table(ActivityId::NET_NFSD) matches Some(m) ==> m.sections.len() == 1,
{
    reveal(net_nfsd_model);
    reveal_with_fuel(named_fields, 12);
    reveal_strlit("scall/s");
    reveal_strlit("scall_per_sec");
    reveal_strlit("scall");
    reveal_strlit("badcall/s");
    reveal_strlit("badcall_per_sec");
    reveal_strlit("badcall");
    reveal_strlit("packet/s");
    reveal_strlit("packet_per_sec");
    reveal_strlit("packet");
    reveal_strlit("udp/s");
    reveal_strlit("udp_per_sec");
    reveal_strlit("udp");
    reveal_strlit("tcp/s");
    reveal_strlit("tcp_per_sec");
    reveal_strlit("tcp");
    reveal_strlit("hit/s");
    reveal_strlit("hit_per_sec");
    reveal_strlit("hit");
    reveal_strlit("miss/s");
    reveal_strlit("miss_per_sec");
    reveal_strlit("miss");
    reveal_strlit("sread/s");
    reveal_strlit("sread_per_sec");
    reveal_strlit("sread");
    reveal_strlit("swrite/s");
    reveal_strlit("swrite_per_sec");
    reveal_strlit("swrite");
    reveal_strlit("saccess/s");
    reveal_strlit("saccess_per_sec");
    reveal_strlit("saccess");
    reveal_strlit("sgetatt/s");
    reveal_strlit("sgetatt_per_sec");
    reveal_strlit("sgetatt");
}

proof fn lemma_net_sock()
    ensures
        section_is_as_named(ActivityId::NET_SOCK, 0),
        table(ActivityId::NET_SOCK) matches Some(m) ==> m.sections.len() == 1,
{
    reveal(net_sock_model);
    reveal_with_fuel(named_fields, 7);
    reveal_strlit("totsck");
    reveal_strlit("tcpsck");
    reveal_strlit("udpsck");
    reveal_strlit("rawsck");
    reveal_strlit("ip-frag");
    reveal_strlit("ip_frag");
    reveal_strlit("tcp-tw");
    reveal_strlit("tcp_tw");
}

proof fn lemma_net_ip()
    ensures
        section_is_as_named(ActivityId::NET_IP, 0),
        table(ActivityId::NET_IP) matches Some(m) ==> m.sections.len() == 1,
{
    reveal(net_ip_model);
    reveal_with_fuel(named_fields, 9);
    reveal_strlit("irec/s");
    reveal_strlit("irec_per_sec");
    reveal_strlit("irec");
    reveal_strlit("fwddgm/s");
    reveal_strlit("fwddgm_per_sec");
    reveal_strlit("fwddgm");
    reveal_strlit("idel/s");
    reveal_strlit("idel_per_sec");
    reveal_strlit("idel");
    reveal_strlit("orq/s");
    reveal_strlit("orq_per_sec");
    reveal_strlit("orq");
    reveal_strlit("asmrq/s");
    reveal_strlit("asmrq_per_sec");
    reveal_strlit("asmrq");
    reveal_strlit("asmok/s");
    reveal_strlit("asmok_per_sec");
    reveal_strlit("asmok");
    reveal_strlit("fragok/s");
    reveal_strlit("fragok_per_sec");
    reveal_strlit("fragok");
    reveal_strlit("fragcrt/s");
    reveal_strlit("fragcrt_per_sec");
    reveal_strlit("fragcrt");
}

proof fn lemma_net_eip()
    ensures
        section_is_as_named(ActivityId::NET_EIP, 0),
        table(ActivityId::NET_EIP) matches Some(m) ==> m.sections.len() == 1,
{
    reveal(net_eip_model);
    reveal_with_fuel(named_fields, 9);
    reveal_strlit("ihdrerr/s");
    reveal_strlit("ihdrerr_per_sec");
    reveal_strlit("ihdrerr");
    reveal_strlit("iadrerr/s");
    reveal_strlit("iadrerr_per_sec");
    reveal_strlit("iadrerr");
    reveal_strlit("iukwnpr/s");
    reveal_strlit("iukwnpr_per_sec");
    reveal_strlit("iukwnpr");
    reveal_strlit("idisc/s");
    reveal_strlit("idisc_per_sec");
    reveal_strlit("idisc");
    reveal_strlit("odisc/s");
    reveal_strlit("odisc_per_sec");
    reveal_strlit("odisc");
    reveal_strlit("onort/s");
    reveal_strlit("onort_per_sec");
    reveal_strlit("onort");
    reveal_strlit("asmf/s");
    reveal_strlit("asmf_per_sec");
    reveal_strlit("asmf");
    reveal_strlit("fragf/s");
    reveal_strlit("fragf_per_sec");
    reveal_strlit("fragf");
}

proof fn lemma_net_icmp()
    ensures
        section_is_as_named(ActivityId::NET_ICMP, 0),
        table(ActivityId::NET_ICMP) matches Some(m) ==> m.sections.len() == 1,
{
    reveal(net_icmp_model);
    reveal_with_fuel(named_fields, 15);
    reveal_strlit("imsg/s");
    reveal_strlit("imsg_per_sec");
    reveal_strlit("imsg");
    reveal_strlit("omsg/s");
    reveal_strlit("omsg_per_sec");
    reveal_strlit("omsg");
    reveal_strlit("iech/s");
    reveal_strlit("iech_per_sec");
    reveal_strlit("iech");
    reveal_strlit("iechr/s");
    reveal_strlit("iechr_per_sec");
    reveal_strlit("iechr");
    reveal_strlit("oech/s");
    reveal_strlit("oech_per_sec");
    reveal_strlit("oech");
    reveal_strlit("oechr/s");
    reveal_strlit("oechr_per_sec");
    reveal_strlit("oechr");
    reveal_strlit("itm/s");
    reveal_strlit("itm_per_sec");
    reveal_strlit("itm");
    reveal_strlit("itmr/s");
    reveal_strlit("itmr_per_sec");
    reveal_strlit("itmr");
    reveal_strlit("otm/s");
    reveal_strlit("otm_per_sec");
    reveal_strlit("otm");
    reveal_strlit("otmr/s");
    reveal_strlit("otmr_per_sec");
    reveal_strlit("otmr");
    reveal_strlit("iadrmk/s");
    reveal_strlit("iadrmk_per_sec");
    reveal_strlit("iadrmk");
    reveal_strlit("iadrmkr/s");
    reveal_strlit("iadrmkr_per_sec");
    reveal_strlit("iadrmkr");
    reveal_strlit("oadrmk/s");
    reveal_strlit("oadrmk_per_sec");
    reveal_strlit("oadrmk");
    reveal_strlit("oadrmkr/s");
    reveal_strlit("oadrmkr_per_sec");
    reveal_strlit("oadrmkr");
}

proof fn lemma_net_eicmp()
    ensures
        section_is_as_named(ActivityId::NET_EICMP, 0),
        table(ActivityId::NET_EICMP) matches Some(m) ==> m.sections.len() == 1,
{
    reveal(net_eicmp_model);
    reveal_with_fuel(named_fields, 13);
    reveal_strlit("ierr/s");
    reveal_strlit("ierr_per_sec");
    reveal_strlit("ierr");
    reveal_strlit("oerr/s");
    reveal_strlit("oerr_per_sec");
    reveal_strlit("oerr");
    reveal_strlit("idstunr/s");
    reveal_strlit("idstunr_per_sec");
    reveal_strlit("idstunr");
    reveal_strlit("odstunr/s");
    reveal_strlit("odstunr_per_sec");
    reveal_strlit("odstunr");
    reveal_strlit("itmex/s");
    reveal_strlit("itmex_per_sec");
    reveal_strlit("itmex");
    reveal_strlit("otmex/s");
    reveal_strlit("otmex_per_sec");
    reveal_strlit("otmex");
    reveal_strlit("iparmpb/s");
    reveal_strlit("iparmpb_per_sec");
    reveal_strlit("iparmpb");
    reveal_strlit("oparmpb/s");
    reveal_strlit("oparmpb_per_sec");
    reveal_strlit("oparmpb");
    reveal_strlit("isrcq/s");
    reveal_strlit("isrcq_per_sec");
    reveal_strlit("isrcq");
    reveal_strlit("osrcq/s");
    reveal_strlit("osrcq_per_sec");
    reveal_strlit("osrcq");
    reveal_strlit("iredir/s");
    reveal_strlit("iredir_per_sec");
    reveal_strlit("iredir");
    reveal_strlit("oredir/s");
    reveal_strlit("oredir_per_sec");
    reveal_strlit("oredir");
}

proof fn lemma_net_tcp()
    ensures
        section_is_as_named(ActivityId::NET_TCP, 0),
        table(ActivityId::NET_TCP) matches Some(m) ==> m.sections.len() == 1,
{
    reveal(net_tcp_model);
    reveal_with_fuel(named_fields, 5);
    reveal_strlit("active/s");
    reveal_strlit("active_per_sec");
    reveal_strlit("active");
    reveal_strlit("passive/s");
    reveal_strlit("passive_per_sec");
    reveal_strlit("passive");
    reveal_strlit("iseg/s");
    reveal_strlit("iseg_per_sec");
    reveal_strlit("iseg");
    reveal_strlit("oseg/s");
    reveal_strlit("oseg_per_sec");
    reveal_strlit("oseg");
}

proof fn lemma_net_etcp()
    ensures
        section_is_as_named(ActivityId::NET_ETCP, 0),
        table(ActivityId::NET_ETCP) matches Some(m) ==> m.sections.len() == 1,
{
    reveal(net_etcp_model);
    reveal_with_fuel(named_fields, 6);
    reveal_strlit("atmptf/s");
    reveal_strlit("atmptf_per_sec");
    reveal_strlit("atmptf");
    reveal_strlit("estres/s");
    reveal_strlit("estres_per_sec");
    reveal_strlit("estres");
    reveal_strlit("retrseg/s");
    reveal_strlit("retrseg_per_sec");
    reveal_strlit("retrseg");
    reveal_strlit("isegerr/s");
    reveal_strlit("isegerr_per_sec");
    reveal_strlit("isegerr");
    reveal_strlit("orsts/s");
    reveal_strlit("orsts_per_sec");
    reveal_strlit("orsts");
}

proof fn lemma_net_udp()
    ensures
        section_is_as_named(ActivityId::NET_UDP, 0),
        table(ActivityId::NET_UDP) matches Some(m) ==> m.sections.len() == 1,
{
    reveal(net_udp_model);
    reveal_with_fuel(named_fields, 5);
    reveal_strlit("idgm/s");
    reveal_strlit("idgm_per_sec");
    reveal_strlit("idgm");
    reveal_strlit("odgm/s");
    reveal_strlit("odgm_per_sec");
    reveal_strlit("odgm");
    reveal_strlit("noport/s");
    reveal_strlit("noport_per_sec");
    reveal_strlit("noport");
    reveal_strlit("idgmerr/s");
    reveal_strlit("idgmerr_per_sec");
    reveal_strlit("idgmerr");
}

proof fn lemma_net_sock6()
    ensures
        section_is_as_named(ActivityId::NET_SOCK6, 0),
        table(ActivityId::NET_SOCK6) matches Some(m) ==> m.sections.len() == 1,
{
    reveal(net_sock6_model);
    reveal_with_fuel(named_fields, 5);
    reveal_strlit("tcp6sck");
    reveal_strlit("udp6sck");
    reveal_strlit("raw6sck");
    reveal_strlit("ip6-frag");
    reveal_strlit("ip6_frag");
}

proof fn lemma_net_ip6()
    ensures
        section_is_as_named(ActivityId::NET_IP6, 0),
        table(ActivityId::NET_IP6) matches Some(m) ==> m.sections.len() == 1,
{
    reveal(net_ip6_model);
    reveal_with_fuel(named_fields, 11);
    reveal_strlit("irec6/s");
    reveal_strlit("irec6_per_sec");
    reveal_strlit("irec6");
    reveal_strlit("fwddgm6/s");
    reveal_strlit("fwddgm6_per_sec");
    reveal_strlit("fwddgm6");
    reveal_strlit("idel6/s");
    reveal_strlit("idel6_per_sec");
    reveal_strlit("idel6");
    reveal_strlit("orq6/s");
    reveal_strlit("orq6_per_sec");
    reveal_strlit("orq6");
    reveal_strlit("asmrq6/s");
    reveal_strlit("asmrq6_per_sec");
    reveal_strlit("asmrq6");
    reveal_strlit("asmok6/s");
    reveal_strlit("asmok6_per_sec");
    reveal_strlit("asmok6");
    reveal_strlit("imcpck6/s");
    reveal_strlit("imcpck6_per_sec");
    reveal_strlit("imcpck6");
    reveal_strlit("omcpck6/s");
    reveal_strlit("omcpck6_per_sec");
    reveal_strlit("omcpck6");
    reveal_strlit("fragok6/s");
    reveal_strlit("fragok6_per_sec");
    reveal_strlit("fragok6");
    reveal_strlit("fragcr6/s");
    reveal_strlit("fragcr6_per_sec");
    reveal_strlit("fragcr6");
}

proof fn lemma_net_eip6()
    ensures
        section_is_as_named(ActivityId::NET_EIP6, 0),
        table(ActivityId::NET_EIP6) matches Some(m) ==> m.sections.len() == 1,
{
    reveal(net_eip6_model);
    reveal_with_fuel(named_fields, 12);
    reveal_strlit("ihdrer6/s");
    reveal_strlit("ihdrer6_per_sec");
    reveal_strlit("ihdrer6");
    reveal_strlit("iadrer6/s");
    reveal_strlit("iadrer6_per_sec");
    reveal_strlit("iadrer6");
    reveal_strlit("iukwnp6/s");
    reveal_strlit("iukwnp6_per_sec");
    reveal_strlit("iukwnp6");
    reveal_strlit("i2big6/s");
    reveal_strlit("i2big6_per_sec");
    reveal_strlit("i2big6");
    reveal_strlit("idisc6/s");
    reveal_strlit("idisc6_per_sec");
    reveal_strlit("idisc6");
    reveal_strlit("odisc6/s");
    reveal_strlit("odisc6_per_sec");
    reveal_strlit("odisc6");
    reveal_strlit("inort6/s");
    reveal_strlit("inort6_per_sec");
    reveal_strlit("inort6");
    reveal_strlit("onort6/s");
    reveal_strlit("onort6_per_sec");
    reveal_strlit("onort6");
    reveal_strlit("asmf6/s");
    reveal_strlit("asmf6_per_sec");
    reveal_strlit("asmf6");
    reveal_strlit("fragf6/s");
    reveal_strlit("fragf6_per_sec");
    reveal_strlit("fragf6");
    reveal_strlit("itrpck6/s");
    reveal_strlit("itrpck6_per_sec");
    reveal_strlit("itrpck6");
}

proof fn lemma_net_icmp6()
    ensures
        section_is_as_named(ActivityId::NET_ICMP6, 0),
        table(ActivityId::NET_ICMP6) matches Some(m) ==> m.sections.len() == 1,
{
    reveal(net_icmp6_model);
    reveal_with_fuel(named_fields, 18);
    reveal_strlit("imsg6/s");
    reveal_strlit("imsg6_per_sec");
    reveal_strlit("imsg6");
    reveal_strlit("omsg6/s");
    reveal_strlit("omsg6_per_sec");
    reveal_strlit("omsg6");
    reveal_strlit("iech6/s");
    reveal_strlit("iech6_per_sec");
    reveal_strlit("iech6");
    reveal_strlit("iechr6/s");
    reveal_strlit("iechr6_per_sec");
    reveal_strlit("iechr6");
    reveal_strlit("oechr6/s");
    reveal_strlit("oechr6_per_sec");
    reveal_strlit("oechr6");
    reveal_strlit("igmbq6/s");
    reveal_strlit("igmbq6_per_sec");
    reveal_strlit("igmbq6");
    reveal_strlit("igmbr6/s");
    reveal_strlit("igmbr6_per_sec");
    reveal_strlit("igmbr6");
    reveal_strlit("ogmbr6/s");
    reveal_strlit("ogmbr6_per_sec");
    reveal_strlit("ogmbr6");
    reveal_strlit("igmbrd6/s");
    reveal_strlit("igmbrd6_per_sec");
    reveal_strlit("igmbrd6");
    reveal_strlit("ogmbrd6/s");
    reveal_strlit("ogmbrd6_per_sec");
    reveal_strlit("ogmbrd6");
    reveal_strlit("irtsol6/s");
    reveal_strlit("irtsol6_per_sec");
    reveal_strlit("irtsol6");
    reveal_strlit("ortsol6/s");
    reveal_strlit("ortsol6_per_sec");
    reveal_strlit("ortsol6");
    reveal_strlit("irtad6/s");
    reveal_strlit("irtad6_per_sec");
    reveal_strlit("irtad6");
    reveal_strlit("inbsol6/s");
    reveal_strlit("inbsol6_per_sec");
    reveal_strlit("inbsol6");
    reveal_strlit("onbsol6/s");
    reveal_strlit("onbsol6_per_sec");
    reveal_strlit("onbsol6");
    reveal_strlit("inbad6/s");
    reveal_strlit("inbad6_per_sec");
    reveal_strlit("inbad6");
    reveal_strlit("onbad6/s");
    reveal_strlit("onbad6_per_sec");
    reveal_strlit("onbad6");
}

proof fn lemma_net_eicmp6()
    ensures
        section_is_as_named(ActivityId::NET_EICMP6, 0),
        table(ActivityId::NET_EICMP6) matches Some(m) ==> m.sections.len() == 1,
{
    reveal(net_eicmp6_model);
    reveal_with_fuel(named_fields, 12);
    reveal_strlit("ierr6/s");
    reveal_strlit("ierr6_per_sec");
    reveal_strlit("ierr6");
    reveal_strlit("idtunr6/s");
    reveal_strlit("idtunr6_per_sec");
    reveal_strlit("idtunr6");
    reveal_strlit("odtunr6/s");
    reveal_strlit("odtunr6_per_sec");
    reveal_strlit("odtunr6");
    reveal_strlit("itmex6/s");
    reveal_strlit("itmex6_per_sec");
    reveal_strlit("itmex6");
    reveal_strlit("otmex6/s");
    reveal_strlit("otmex6_per_sec");
    reveal_strlit("otmex6");
    reveal_strlit("iprmpb6/s");
    reveal_strlit("iprmpb6_per_sec");
    reveal_strlit("iprmpb6");
    reveal_strlit("oprmpb6/s");
    reveal_strlit("oprmpb6_per_sec");
    reveal_strlit("oprmpb6");
    reveal_strlit("iredir6/s");
    reveal_strlit("iredir6_per_sec");
    reveal_strlit("iredir6");
    reveal_strlit("oredir6/s");
    reveal_strlit("oredir6_per_sec");
    reveal_strlit("oredir6");
    reveal_strlit("ipck2b6/s");
    reveal_strlit("ipck2b6_per_sec");
    reveal_strlit("ipck2b6");
    reveal_strlit("opck2b6/s");
    reveal_strlit("opck2b6_per_sec");
    reveal_strlit("opck2b6");
}

proof fn lemma_net_udp6()
    ensures
        section_is_as_named(ActivityId::NET_UDP6, 0),
        table(ActivityId::NET_UDP6) matches Some(m) ==> m.sections.len() == 1,
{
    reveal(net_udp6_model);
    reveal_with_fuel(named_fields, 5);
    reveal_strlit("idgm6/s");
    reveal_strlit("idgm6_per_sec");
    reveal_strlit("idgm6");
    reveal_strlit("odgm6/s");
    reveal_strlit("odgm6_per_sec");
    reveal_strlit("odgm6");
    reveal_strlit("noport6/s");
    reveal_strlit("noport6_per_sec");
    reveal_strlit("noport6");
    reveal_strlit("idgmer6/s");
    reveal_strlit("idgmer6_per_sec");
    reveal_strlit("idgmer6");
}

proof fn lemma_net_fc()
    ensures
        section_is_as_named(ActivityId::NET_FC, 0),
        table(ActivityId::NET_FC) matches Some(m) ==> m.sections.len() == 1,
{
    reveal(net_fc_model);
    reveal_with_fuel(named_fields, 6);
    reveal_strlit("");
    reveal_strlit("fchost");
    reveal_strlit("name");
    reveal_strlit("fch_rxf/s");
    reveal_strlit("fch_rxf_per_sec");
    reveal_strlit("fch_rxf");
    reveal_strlit("fch_txf/s");
    reveal_strlit("fch_txf_per_sec");
    reveal_strlit("fch_txf");
    reveal_strlit("fch_rxw/s");
    reveal_strlit("fch_rxw_per_sec");
    reveal_strlit("fch_rxw");
    reveal_strlit("fch_txw/s");
    reveal_strlit("fch_txw_per_sec");
    reveal_strlit("fch_txw");
}

proof fn lemma_net_soft()
    ensures
        section_is_as_named(ActivityId::NET_SOFT, 0),
        table(ActivityId::NET_SOFT) matches Some(m) ==> m.sections.len() == 1,
{
    reveal(net_soft_model);
    reveal_with_fuel(named_fields, 8);
    reveal_strlit("");
    reveal_strlit("cpu");
    reveal_strlit("total/s");
    reveal_strlit("total_per_sec");
    reveal_strlit("total");
    reveal_strlit("dropd/s");
    reveal_strlit("dropd_per_sec");
    reveal_strlit("dropd");
    reveal_strlit("squeezd/s");
    reveal_strlit("squeezd_per_sec");
    reveal_strlit("squeezd");
    reveal_strlit("rx_rps/s");
    reveal_strlit("rx_rps_per_sec");
    reveal_strlit("rx_rps");
    reveal_strlit("flw_lim/s");
    reveal_strlit("flw_lim_per_sec");
    reveal_strlit("flw_lim");
    reveal_strlit("blg_len");
}

proof fn lemma_pwr_cpu()
    ensures
        section_is_as_named(ActivityId::PWR_CPU, 0),
        table(ActivityId::PWR_CPU) matches Some(m) ==> m.sections.len() == 1,
{
    reveal(pwr_cpu_model);
    reveal_with_fuel(named_fields, 3);
    reveal_strlit("");
    reveal_strlit("number");
    reveal_strlit("MHz");
    reveal_strlit("mhz");
    reveal_strlit("frequency");
}

proof fn lemma_pwr_fan()
    ensures
        section_is_as_named(ActivityId::PWR_FAN, 0),
        table(ActivityId::PWR_FAN) matches Some(m) ==> m.sections.len() == 1,
{
    reveal(pwr_fan_model);
    reveal_with_fuel(named_fields, 5);
    reveal_strlit("");
    reveal_strlit("number");
    reveal_strlit("DEVICE");
    reveal_strlit("device");
    reveal_strlit("rpm");
    reveal_strlit("drpm");
    reveal_strlit("rpm_delta");
}

proof fn lemma_pwr_temp()
    ensures
        section_is_as_named(ActivityId::PWR_TEMP, 0),
        table(ActivityId::PWR_TEMP) matches Some(m) ==> m.sections.len() == 1,
{
    reveal(pwr_temp_model);
    reveal_with_fuel(named_fields, 5);
    reveal_strlit("");
    reveal_strlit("number");
    reveal_strlit("DEVICE");
    reveal_strlit("device");
    reveal_strlit("degC");
    reveal_strlit("temp_celsius");
    reveal_strlit("%temp");
    reveal_strlit("temp_pct");
    reveal_strlit("percent-temp");
}

proof fn lemma_pwr_in()
    ensures
        section_is_as_named(ActivityId::PWR_IN, 0),
        table(ActivityId::PWR_IN) matches Some(m) ==> m.sections.len() == 1,
{
    reveal(pwr_in_model);
    reveal_with_fuel(named_fields, 5);
    reveal_strlit("");
    reveal_strlit("number");
    reveal_strlit("DEVICE");
    reveal_strlit("device");
    reveal_strlit("inV");
    reveal_strlit("volts");
    reveal_strlit("%in");
    reveal_strlit("in_pct");
    reveal_strlit("percent-in");
}

proof fn lemma_pwr_freq()
    ensures
        section_is_as_named(ActivityId::PWR_FREQ, 0),
        table(ActivityId::PWR_FREQ) matches Some(m) ==> m.sections.len() == 1,
{
    reveal(pwr_freq_model);
    reveal_with_fuel(named_fields, 3);
    reveal_strlit("");
    reveal_strlit("number");
    reveal_strlit("wghMHz");
    reveal_strlit("weighted_mhz");
    reveal_strlit("weighted-frequency");
}

proof fn lemma_pwr_bat()
    ensures
        section_is_as_named(ActivityId::PWR_BAT, 0),
        table(ActivityId::PWR_BAT) matches Some(m) ==> m.sections.len() == 1,
{
    reveal(pwr_bat_model);
    reveal_with_fuel(named_fields, 5);
    reveal_strlit("");
    reveal_strlit("number");
    reveal_strlit("%cap");
    reveal_strlit("capacity_pct");
    reveal_strlit("percent-capacity");
    reveal_strlit("cap/min");
    reveal_strlit("capacity_per_min");
    reveal_strlit("variation");
    reveal_strlit("status");
}

proof fn lemma_pwr_usb()
    ensures
        section_is_as_named(ActivityId::PWR_USB, 0),
        table(ActivityId::PWR_USB) matches Some(m) ==> m.sections.len() == 1,
{
    reveal(pwr_usb_model);
    reveal_with_fuel(named_fields, 7);
    reveal_strlit("");
    reveal_strlit("bus_number");
    reveal_strlit("idvendor");
    reveal_strlit("vendor_id");
    reveal_strlit("idprod");
    reveal_strlit("product_id");
    reveal_strlit("maxpower");
    reveal_strlit("max_power");
    reveal_strlit("manufact");
    reveal_strlit("manufacturer");
    reveal_strlit("product");
}

proof fn lemma_fs()
    ensures
        section_is_as_named(ActivityId::FS, 0),
        section_is_as_named(ActivityId::FS, 1),
        table(ActivityId::FS) matches Some(m) ==> m.sections.len() == 2,
{
    reveal(fs_model);
    reveal_with_fuel(named_fields, 9);
    reveal_strlit("");
    reveal_strlit("filesystem");
    reveal_strlit("fsname");
    reveal_strlit("MBfsfree");
    reveal_strlit("fs_free");
    reveal_strlit("MBfsused");
    reveal_strlit("fs_used");
    reveal_strlit("%fsused");
    reveal_strlit("fs_used_pct");
    reveal_strlit("fsused-percent");
    reveal_strlit("%ufsused");
    reveal_strlit("fs_used_pct_unpriv");
    reveal_strlit("ufsused-percent");
    reveal_strlit("Ifree");
    reveal_strlit("inodes_free");
    reveal_strlit("Iused");
    reveal_strlit("inodes_used");
    reveal_strlit("%Iused");
    reveal_strlit("inodes_used_pct");
    reveal_strlit("Iused-percent");
    reveal_strlit("mountpoint");
    reveal_strlit("mountp");
}

proof fn lemma_psi_cpu()
    ensures
        section_is_as_named(ActivityId::PSI_CPU, 0),
        table(ActivityId::PSI_CPU) matches Some(m) ==> m.sections.len() == 1,
{
    reveal(psi_cpu_model);
    reveal_with_fuel(named_fields, 5);
    reveal_strlit("%scpu-10");
    reveal_strlit("scpu_10");
    reveal_strlit("some_avg10");
    reveal_strlit("%scpu-60");
    reveal_strlit("scpu_60");
    reveal_strlit("some_avg60");
    reveal_strlit("%scpu-300");
    reveal_strlit("scpu_300");
    reveal_strlit("some_avg300");
    reveal_strlit("%scpu");
    reveal_strlit("scpu");
    reveal_strlit("some_avg");
}

proof fn lemma_psi_io()
    ensures
        section_is_as_named(ActivityId::PSI_IO, 0),
        table(ActivityId::PSI_IO) matches Some(m) ==> m.sections.len() == 1,
{
    reveal(psi_io_model);
    reveal_with_fuel(named_fields, 9);
    reveal_strlit("%sio-10");
    reveal_strlit("sio_10");
    reveal_strlit("some_avg10");
    reveal_strlit("%sio-60");
    reveal_strlit("sio_60");
    reveal_strlit("some_avg60");
    reveal_strlit("%sio-300");
    reveal_strlit("sio_300");
    reveal_strlit("some_avg300");
    reveal_strlit("%sio");
    reveal_strlit("sio");
    reveal_strlit("some_avg");
    reveal_strlit("%fio-10");
    reveal_strlit("fio_10");
    reveal_strlit("full_avg10");
    reveal_strlit("%fio-60");
    reveal_strlit("fio_60");
    reveal_strlit("full_avg60");
    reveal_strlit("%fio-300");
    reveal_strlit("fio_300");
    reveal_strlit("full_avg300");
    reveal_strlit("%fio");
    reveal_strlit("fio");
    reveal_strlit("full_avg");
}

proof fn lemma_psi_mem()
    ensures
        section_is_as_named(ActivityId::PSI_MEM, 0),
        table(ActivityId::PSI_MEM) matches Some(m) ==> m.sections.len() == 1,
{
    reveal(psi_mem_model);
    reveal_with_fuel(named_fields, 9);
    reveal_strlit("%smem-10");
    reveal_strlit("smem_10");
    reveal_strlit("some_avg10");
    reveal_strlit("%smem-60");
    reveal_strlit("smem_60");
    reveal_strlit("some_avg60");
    reveal_strlit("%smem-300");
    reveal_strlit("smem_300");
    reveal_strlit("some_avg300");
    reveal_strlit("%smem");
    reveal_strlit("smem");
    reveal_strlit("some_avg");
    reveal_strlit("%fmem-10");
    reveal_strlit("fmem_10");
    reveal_strlit("full_avg10");
    reveal_strlit("%fmem-60");
    reveal_strlit("fmem_60");
    reveal_strlit("full_avg60");
    reveal_strlit("%fmem-300");
    reveal_strlit("fmem_300");
    reveal_strlit("full_avg300");
    reveal_strlit("%fmem");
    reveal_strlit("fmem");
    reveal_strlit("full_avg");
}

/// The number of the sections of an activity.
pub(crate) proof fn lemma_section_counts(id: ActivityId)
    ensures
        table(id) matches Some(m) ==> 1 <= m.sections.len() <= 2,
        table(id) matches Some(m) ==> m.sections.len() == 2 ==> id == ActivityId::CPU || id
            == ActivityId::MEMORY || id == ActivityId::FS,
{
    match id {
        ActivityId::CPU => lemma_cpu(),
        ActivityId::PCSW => lemma_pcsw(),
        ActivityId::IRQ => lemma_irq(),
        ActivityId::SWAP => lemma_swap(),
        ActivityId::PAGE => lemma_page(),
        ActivityId::IO => lemma_io(),
        ActivityId::MEMORY => lemma_memory(),
        ActivityId::HUGE => lemma_huge(),
        ActivityId::KTABLES => lemma_ktables(),
        ActivityId::QUEUE => lemma_queue(),
        ActivityId::SERIAL => lemma_serial(),
        ActivityId::DISK => lemma_disk(),
        ActivityId::NET_DEV => lemma_net_dev(),
        ActivityId::NET_EDEV => lemma_net_edev(),
        ActivityId::NET_NFS => lemma_net_nfs(),
        ActivityId::NET_NFSD => lemma_net_nfsd(),
        ActivityId::NET_SOCK => lemma_net_sock(),
        ActivityId::NET_IP => lemma_net_ip(),
        ActivityId::NET_EIP => lemma_net_eip(),
        ActivityId::NET_ICMP => lemma_net_icmp(),
        ActivityId::NET_EICMP => lemma_net_eicmp(),
        ActivityId::NET_TCP => lemma_net_tcp(),
        ActivityId::NET_ETCP => lemma_net_etcp(),
        ActivityId::NET_UDP => lemma_net_udp(),
        ActivityId::NET_SOCK6 => lemma_net_sock6(),
        ActivityId::NET_IP6 => lemma_net_ip6(),
        ActivityId::NET_EIP6 => lemma_net_eip6(),
        ActivityId::NET_ICMP6 => lemma_net_icmp6(),
        ActivityId::NET_EICMP6 => lemma_net_eicmp6(),
        ActivityId::NET_UDP6 => lemma_net_udp6(),
        ActivityId::NET_FC => lemma_net_fc(),
        ActivityId::NET_SOFT => lemma_net_soft(),
        ActivityId::PWR_CPU => lemma_pwr_cpu(),
        ActivityId::PWR_FAN => lemma_pwr_fan(),
        ActivityId::PWR_TEMP => lemma_pwr_temp(),
        ActivityId::PWR_IN => lemma_pwr_in(),
        ActivityId::PWR_FREQ => lemma_pwr_freq(),
        ActivityId::PWR_BAT => lemma_pwr_bat(),
        ActivityId::PWR_USB => lemma_pwr_usb(),
        ActivityId::FS => lemma_fs(),
        ActivityId::PSI_CPU => lemma_psi_cpu(),
        ActivityId::PSI_IO => lemma_psi_io(),
        ActivityId::PSI_MEM => lemma_psi_mem(),
        _ => {},
    }
}

/// Each name of the flat formats, each member of JSON and XML and each name of the raw format
/// shows the column that it stands for, in its place and in its form, and no other name is shown.
/// The interrupts have no such names.
pub proof fn law_names_show_their_columns(id: ActivityId, k: int)
    ensures
        section_is_as_named(id, k),
{
    match id {
        ActivityId::CPU => lemma_cpu(),
        ActivityId::PCSW => lemma_pcsw(),
        ActivityId::IRQ => lemma_irq(),
        ActivityId::SWAP => lemma_swap(),
        ActivityId::PAGE => lemma_page(),
        ActivityId::IO => lemma_io(),
        ActivityId::MEMORY => lemma_memory(),
        ActivityId::HUGE => lemma_huge(),
        ActivityId::KTABLES => lemma_ktables(),
        ActivityId::QUEUE => lemma_queue(),
        ActivityId::SERIAL => lemma_serial(),
        ActivityId::DISK => lemma_disk(),
        ActivityId::NET_DEV => lemma_net_dev(),
        ActivityId::NET_EDEV => lemma_net_edev(),
        ActivityId::NET_NFS => lemma_net_nfs(),
        ActivityId::NET_NFSD => lemma_net_nfsd(),
        ActivityId::NET_SOCK => lemma_net_sock(),
        ActivityId::NET_IP => lemma_net_ip(),
        ActivityId::NET_EIP => lemma_net_eip(),
        ActivityId::NET_ICMP => lemma_net_icmp(),
        ActivityId::NET_EICMP => lemma_net_eicmp(),
        ActivityId::NET_TCP => lemma_net_tcp(),
        ActivityId::NET_ETCP => lemma_net_etcp(),
        ActivityId::NET_UDP => lemma_net_udp(),
        ActivityId::NET_SOCK6 => lemma_net_sock6(),
        ActivityId::NET_IP6 => lemma_net_ip6(),
        ActivityId::NET_EIP6 => lemma_net_eip6(),
        ActivityId::NET_ICMP6 => lemma_net_icmp6(),
        ActivityId::NET_EICMP6 => lemma_net_eicmp6(),
        ActivityId::NET_UDP6 => lemma_net_udp6(),
        ActivityId::NET_FC => lemma_net_fc(),
        ActivityId::NET_SOFT => lemma_net_soft(),
        ActivityId::PWR_CPU => lemma_pwr_cpu(),
        ActivityId::PWR_FAN => lemma_pwr_fan(),
        ActivityId::PWR_TEMP => lemma_pwr_temp(),
        ActivityId::PWR_IN => lemma_pwr_in(),
        ActivityId::PWR_FREQ => lemma_pwr_freq(),
        ActivityId::PWR_BAT => lemma_pwr_bat(),
        ActivityId::PWR_USB => lemma_pwr_usb(),
        ActivityId::FS => lemma_fs(),
        ActivityId::PSI_CPU => lemma_psi_cpu(),
        ActivityId::PSI_IO => lemma_psi_io(),
        ActivityId::PSI_MEM => lemma_psi_mem(),
        _ => {},
    }
}

}
