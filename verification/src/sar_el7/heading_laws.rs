//! What the headings of the older report stand above.

use vstd::prelude::*;

use crate::doc::{chars, Glyph};
use crate::model::ActivityId;
use crate::sar_el7::rows::{
    cell_glyphs, cells_glyphs, heading, label_text, row_glyphs, tail_text, Cell, Label, MemOutput,
    Row, MANUFACTURER_WIDTH, PRODUCT_WIDTH, SENSOR_WIDTH, STAMP_WIDTH,
};
use crate::sar_text::cell::{columns_taken, lemma_columns_of_text};
use crate::text::{byte_len, dec, hex, left_padded, right_padded};
use crate::text_laws::aligned;
use crate::within::{around, lemma_columns_add, lemma_stands_in, line_shows};

verus! {

/// The columns of a report: what heads the items and how wide that is, the names of the values
/// from left to right, and what heads the end of a line.
pub struct Columns {
    pub item: &'static str,
    pub item_width: nat,
    pub names: Seq<&'static str>,
    pub tail: Seq<char>,
}

/// Columns of values only.
pub open spec fn values_only(names: Seq<&'static str>) -> Columns {
    Columns { item: "", item_width: 0, names, tail: Seq::empty() }
}

/// Columns of values behind an item.
pub open spec fn behind(item: &'static str, item_width: nat, names: Seq<&'static str>) -> Columns {
    Columns { item, item_width, names, tail: Seq::empty() }
}

pub open spec fn cpu_full_columns() -> Columns {
    behind("CPU", 8, seq![
            "%usr",
            "%nice",
            "%sys",
            "%iowait",
            "%steal",
            "%irq",
            "%soft",
            "%guest",
            "%gnice",
            "%idle",
        ])
}

pub open spec fn cpu_brief_columns() -> Columns {
    behind("CPU", 8, seq!["%user", "%nice", "%system", "%iowait", "%steal", "%idle"])
}

pub open spec fn memory_changes_columns() -> Columns {
    values_only(seq!["frmpg/s", "bufpg/s", "campg/s"])
}

pub open spec fn memory_columns() -> Columns {
    values_only(seq![
            "kbmemfree",
            "kbmemused",
            "%memused",
            "kbbuffers",
            "kbcached",
            "kbcommit",
            "%commit",
            "kbactive",
            "kbinact",
            "kbdirty",
        ])
}

pub open spec fn swap_space_columns() -> Columns {
    values_only(seq!["kbswpfree", "kbswpused", "%swpused", "kbswpcad", "%swpcad"])
}

pub open spec fn pcsw_columns() -> Columns {
    values_only(seq!["proc/s", "cswch/s"])
}

pub open spec fn irq_columns() -> Columns {
    behind("INTR", 10, seq!["intr/s"])
}

pub open spec fn swap_columns() -> Columns {
    values_only(seq!["pswpin/s", "pswpout/s"])
}

pub open spec fn page_columns() -> Columns {
    values_only(seq![
            "pgpgin/s",
            "pgpgout/s",
            "fault/s",
            "majflt/s",
            "pgfree/s",
            "pgscank/s",
            "pgscand/s",
            "pgsteal/s",
            "%vmeff",
        ])
}

pub open spec fn io_columns() -> Columns {
    values_only(seq!["tps", "rtps", "wtps", "bread/s", "bwrtn/s"])
}

pub open spec fn ktables_columns() -> Columns {
    values_only(seq!["dentunusd", "file-nr", "inode-nr", "pty-nr"])
}

pub open spec fn queue_columns() -> Columns {
    values_only(seq!["runq-sz", "plist-sz", "ldavg-1", "ldavg-5", "ldavg-15", "blocked"])
}

pub open spec fn serial_columns() -> Columns {
    behind("TTY", 10, seq!["rcvin/s", "xmtin/s", "framerr/s", "prtyerr/s", "brk/s", "ovrun/s"])
}

pub open spec fn disk_columns() -> Columns {
    behind("DEV", 10, seq![
            "tps",
            "rd_sec/s",
            "wr_sec/s",
            "avgrq-sz",
            "avgqu-sz",
            "await",
            "svctm",
            "%util",
        ])
}

pub open spec fn net_dev_columns() -> Columns {
    behind("IFACE", 10, seq!["rxpck/s", "txpck/s", "rxkB/s", "txkB/s", "rxcmp/s", "txcmp/s", "rxmcst/s"])
}

pub open spec fn net_edev_columns() -> Columns {
    behind("IFACE", 10, seq![
            "rxerr/s",
            "txerr/s",
            "coll/s",
            "rxdrop/s",
            "txdrop/s",
            "txcarr/s",
            "rxfram/s",
            "rxfifo/s",
            "txfifo/s",
        ])
}

pub open spec fn net_nfs_columns() -> Columns {
    values_only(seq!["call/s", "retrans/s", "read/s", "write/s", "access/s", "getatt/s"])
}

pub open spec fn net_nfsd_columns() -> Columns {
    values_only(seq![
            "scall/s",
            "badcall/s",
            "packet/s",
            "udp/s",
            "tcp/s",
            "hit/s",
            "miss/s",
            "sread/s",
            "swrite/s",
            "saccess/s",
            "sgetatt/s",
        ])
}

pub open spec fn net_sock_columns() -> Columns {
    values_only(seq!["totsck", "tcpsck", "udpsck", "rawsck", "ip-frag", "tcp-tw"])
}

pub open spec fn net_ip_columns() -> Columns {
    values_only(seq![
            "irec/s",
            "fwddgm/s",
            "idel/s",
            "orq/s",
            "asmrq/s",
            "asmok/s",
            "fragok/s",
            "fragcrt/s",
        ])
}

pub open spec fn net_eip_columns() -> Columns {
    values_only(seq![
            "ihdrerr/s",
            "iadrerr/s",
            "iukwnpr/s",
            "idisc/s",
            "odisc/s",
            "onort/s",
            "asmf/s",
            "fragf/s",
        ])
}

pub open spec fn net_icmp_columns() -> Columns {
    values_only(seq![
            "imsg/s",
            "omsg/s",
            "iech/s",
            "iechr/s",
            "oech/s",
            "oechr/s",
            "itm/s",
            "itmr/s",
            "otm/s",
            "otmr/s",
            "iadrmk/s",
            "iadrmkr/s",
            "oadrmk/s",
            "oadrmkr/s",
        ])
}

pub open spec fn net_eicmp_columns() -> Columns {
    values_only(seq![
            "ierr/s",
            "oerr/s",
            "idstunr/s",
            "odstunr/s",
            "itmex/s",
            "otmex/s",
            "iparmpb/s",
            "oparmpb/s",
            "isrcq/s",
            "osrcq/s",
            "iredir/s",
            "oredir/s",
        ])
}

pub open spec fn net_tcp_columns() -> Columns {
    values_only(seq!["active/s", "passive/s", "iseg/s", "oseg/s"])
}

pub open spec fn net_etcp_columns() -> Columns {
    values_only(seq!["atmptf/s", "estres/s", "retrans/s", "isegerr/s", "orsts/s"])
}

pub open spec fn net_udp_columns() -> Columns {
    values_only(seq!["idgm/s", "odgm/s", "noport/s", "idgmerr/s"])
}

pub open spec fn net_sock6_columns() -> Columns {
    values_only(seq!["tcp6sck", "udp6sck", "raw6sck", "ip6-frag"])
}

pub open spec fn net_ip6_columns() -> Columns {
    values_only(seq![
            "irec6/s",
            "fwddgm6/s",
            "idel6/s",
            "orq6/s",
            "asmrq6/s",
            "asmok6/s",
            "imcpck6/s",
            "omcpck6/s",
            "fragok6/s",
            "fragcr6/s",
        ])
}

pub open spec fn net_eip6_columns() -> Columns {
    values_only(seq![
            "ihdrer6/s",
            "iadrer6/s",
            "iukwnp6/s",
            "i2big6/s",
            "idisc6/s",
            "odisc6/s",
            "inort6/s",
            "onort6/s",
            "asmf6/s",
            "fragf6/s",
            "itrpck6/s",
        ])
}

pub open spec fn net_icmp6_columns() -> Columns {
    values_only(seq![
            "imsg6/s",
            "omsg6/s",
            "iech6/s",
            "iechr6/s",
            "oechr6/s",
            "igmbq6/s",
            "igmbr6/s",
            "ogmbr6/s",
            "igmbrd6/s",
            "ogmbrd6/s",
            "irtsol6/s",
            "ortsol6/s",
            "irtad6/s",
            "inbsol6/s",
            "onbsol6/s",
            "inbad6/s",
            "onbad6/s",
        ])
}

pub open spec fn net_eicmp6_columns() -> Columns {
    values_only(seq![
            "ierr6/s",
            "idtunr6/s",
            "odtunr6/s",
            "itmex6/s",
            "otmex6/s",
            "iprmpb6/s",
            "oprmpb6/s",
            "iredir6/s",
            "oredir6/s",
            "ipck2b6/s",
            "opck2b6/s",
        ])
}

pub open spec fn net_udp6_columns() -> Columns {
    values_only(seq!["idgm6/s", "odgm6/s", "noport6/s", "idgmer6/s"])
}

pub open spec fn pwr_cpu_columns() -> Columns {
    behind("CPU", 8, seq!["MHz"])
}

pub open spec fn huge_columns() -> Columns {
    values_only(seq!["kbhugfree", "kbhugused", "%hugused"])
}

pub open spec fn pwr_freq_columns() -> Columns {
    behind("CPU", 8, seq!["wghMHz"])
}

pub open spec fn pwr_fan_columns() -> Columns {
    Columns {
        item: "FAN",
        item_width: 8,
        names: seq!["rpm", "drpm"],
        tail: aligned("DEVICE"@, 21),
    }
}

pub open spec fn pwr_temp_columns() -> Columns {
    Columns {
        item: "TEMP",
        item_width: 8,
        names: seq!["degC", "%temp"],
        tail: aligned("DEVICE"@, 21),
    }
}

pub open spec fn pwr_in_columns() -> Columns {
    Columns {
        item: "IN",
        item_width: 8,
        names: seq!["inV", "%in"],
        tail: aligned("DEVICE"@, 21),
    }
}

pub open spec fn pwr_usb_columns() -> Columns {
    Columns {
        item: "BUS",
        item_width: 8,
        names: seq!["idvendor", "idprod", "maxpower"],
        tail: aligned("manufact"@, 24) + aligned("product"@, 48),
    }
}

pub open spec fn fs_columns(fs_mount: bool) -> Columns {
    Columns {
        item: "",
        item_width: 0,
        names: seq!["MBfsfree", "MBfsused", "%fsused", "%ufsused", "Ifree", "Iused", "%Iused"],
        tail: if fs_mount {
            " MOUNTPOINT"@
        } else {
            " FILESYSTEM"@
        },
    }
}

/// The columns of the report of an activity.
pub open spec fn columns_of(id: ActivityId, mem: MemOutput, cpu_all: bool, fs_mount: bool) -> Columns {
    match id {
        ActivityId::CPU => if cpu_all {
            cpu_full_columns()
        } else {
            cpu_brief_columns()
        },
        ActivityId::MEMORY => match mem {
            MemOutput::Dia => memory_changes_columns(),
            MemOutput::Amt => memory_columns(),
            MemOutput::Swap => swap_space_columns(),
        },
        ActivityId::FS => fs_columns(fs_mount),
        ActivityId::PCSW => pcsw_columns(),
        ActivityId::IRQ => irq_columns(),
        ActivityId::SWAP => swap_columns(),
        ActivityId::PAGE => page_columns(),
        ActivityId::IO => io_columns(),
        ActivityId::KTABLES => ktables_columns(),
        ActivityId::QUEUE => queue_columns(),
        ActivityId::SERIAL => serial_columns(),
        ActivityId::DISK => disk_columns(),
        ActivityId::NET_DEV => net_dev_columns(),
        ActivityId::NET_EDEV => net_edev_columns(),
        ActivityId::NET_NFS => net_nfs_columns(),
        ActivityId::NET_NFSD => net_nfsd_columns(),
        ActivityId::NET_SOCK => net_sock_columns(),
        ActivityId::NET_IP => net_ip_columns(),
        ActivityId::NET_EIP => net_eip_columns(),
        ActivityId::NET_ICMP => net_icmp_columns(),
        ActivityId::NET_EICMP => net_eicmp_columns(),
        ActivityId::NET_TCP => net_tcp_columns(),
        ActivityId::NET_ETCP => net_etcp_columns(),
        ActivityId::NET_UDP => net_udp_columns(),
        ActivityId::NET_SOCK6 => net_sock6_columns(),
        ActivityId::NET_IP6 => net_ip6_columns(),
        ActivityId::NET_EIP6 => net_eip6_columns(),
        ActivityId::NET_ICMP6 => net_icmp6_columns(),
        ActivityId::NET_EICMP6 => net_eicmp6_columns(),
        ActivityId::NET_UDP6 => net_udp6_columns(),
        ActivityId::PWR_CPU => pwr_cpu_columns(),
        ActivityId::HUGE => huge_columns(),
        ActivityId::PWR_FREQ => pwr_freq_columns(),
        ActivityId::PWR_FAN => pwr_fan_columns(),
        ActivityId::PWR_TEMP => pwr_temp_columns(),
        ActivityId::PWR_IN => pwr_in_columns(),
        ActivityId::PWR_USB => pwr_usb_columns(),
        _ => values_only(Seq::empty()),
    }
}

/// The first `n` names, each at the right end of ten columns.
pub open spec fn name_columns(names: Seq<&'static str>, n: int) -> Seq<char>
    decreases n,
{
    if n <= 0 {
        Seq::empty()
    } else {
        name_columns(names, n - 1) + aligned(names[n - 1]@, 10)
    }
}

/// The headings of columns: what heads the items, the names, and what heads the end of a line.
pub open spec fn heads(c: Columns) -> Seq<char> {
    aligned(c.item@, c.item_width) + name_columns(c.names, c.names.len() as int) + c.tail
}

proof fn lemma_padded(s: Seq<char>, width: nat)
    requires
        vstd::utf8::is_ascii_chars(s),
        s.len() <= width,
    ensures
        seq![' '] + left_padded(s, width) == aligned(s, width + 1),
{
    vstd::utf8::is_ascii_chars_encode_utf8(s);
    assert(seq![' '] + left_padded(s, width) =~= aligned(s, width + 1));
}

proof fn lemma_cpu_full_columns()
    ensures
        heading(ActivityId::CPU, MemOutput::Dia, true, false) == heads(cpu_full_columns()),
{
    let c = cpu_full_columns();
    reveal_with_fuel(name_columns, 11);
    reveal_strlit("     CPU      %usr     %nice      %sys   %iowait    %steal      %irq     %soft    %guest    %gnice     %idle");
    reveal_strlit("CPU");
    reveal_strlit("%usr");
    reveal_strlit("%nice");
    reveal_strlit("%sys");
    reveal_strlit("%iowait");
    reveal_strlit("%steal");
    reveal_strlit("%irq");
    reveal_strlit("%soft");
    reveal_strlit("%guest");
    reveal_strlit("%gnice");
    reveal_strlit("%idle");
    let names = aligned("CPU"@, 8) + name_columns(c.names, 10);
    assert("     CPU      %usr     %nice      %sys   %iowait    %steal      %irq     %soft    %guest    %gnice     %idle"@ =~= names);
    assert(names + Seq::<char>::empty() =~= names);
}

proof fn lemma_cpu_brief_columns()
    ensures
        heading(ActivityId::CPU, MemOutput::Dia, false, false) == heads(cpu_brief_columns()),
{
    let c = cpu_brief_columns();
    reveal_with_fuel(name_columns, 7);
    reveal_strlit("     CPU     %user     %nice   %system   %iowait    %steal     %idle");
    reveal_strlit("CPU");
    reveal_strlit("%user");
    reveal_strlit("%nice");
    reveal_strlit("%system");
    reveal_strlit("%iowait");
    reveal_strlit("%steal");
    reveal_strlit("%idle");
    let names = aligned("CPU"@, 8) + name_columns(c.names, 6);
    assert("     CPU     %user     %nice   %system   %iowait    %steal     %idle"@ =~= names);
    assert(names + Seq::<char>::empty() =~= names);
}

proof fn lemma_memory_changes_columns()
    ensures
        heading(ActivityId::MEMORY, MemOutput::Dia, false, false) == heads(memory_changes_columns()),
{
    let c = memory_changes_columns();
    reveal_with_fuel(name_columns, 4);
    reveal_strlit("   frmpg/s   bufpg/s   campg/s");
    reveal_strlit("");
    reveal_strlit("frmpg/s");
    reveal_strlit("bufpg/s");
    reveal_strlit("campg/s");
    let names = aligned(""@, 0) + name_columns(c.names, 3);
    assert("   frmpg/s   bufpg/s   campg/s"@ =~= names);
    assert(names + Seq::<char>::empty() =~= names);
}

proof fn lemma_memory_columns()
    ensures
        heading(ActivityId::MEMORY, MemOutput::Amt, false, false) == heads(memory_columns()),
{
    let c = memory_columns();
    reveal_with_fuel(name_columns, 11);
    reveal_strlit(" kbmemfree kbmemused  %memused kbbuffers  kbcached  kbcommit   %commit  kbactive   kbinact   kbdirty");
    reveal_strlit("");
    reveal_strlit("kbmemfree");
    reveal_strlit("kbmemused");
    reveal_strlit("%memused");
    reveal_strlit("kbbuffers");
    reveal_strlit("kbcached");
    reveal_strlit("kbcommit");
    reveal_strlit("%commit");
    reveal_strlit("kbactive");
    reveal_strlit("kbinact");
    reveal_strlit("kbdirty");
    let names = aligned(""@, 0) + name_columns(c.names, 10);
    assert(" kbmemfree kbmemused  %memused kbbuffers  kbcached  kbcommit   %commit  kbactive   kbinact   kbdirty"@ =~= names);
    assert(names + Seq::<char>::empty() =~= names);
}

proof fn lemma_swap_space_columns()
    ensures
        heading(ActivityId::MEMORY, MemOutput::Swap, false, false) == heads(swap_space_columns()),
{
    let c = swap_space_columns();
    reveal_with_fuel(name_columns, 6);
    reveal_strlit(" kbswpfree kbswpused  %swpused  kbswpcad   %swpcad");
    reveal_strlit("");
    reveal_strlit("kbswpfree");
    reveal_strlit("kbswpused");
    reveal_strlit("%swpused");
    reveal_strlit("kbswpcad");
    reveal_strlit("%swpcad");
    let names = aligned(""@, 0) + name_columns(c.names, 5);
    assert(" kbswpfree kbswpused  %swpused  kbswpcad   %swpcad"@ =~= names);
    assert(names + Seq::<char>::empty() =~= names);
}

proof fn lemma_pcsw_columns()
    ensures
        heading(ActivityId::PCSW, MemOutput::Dia, false, false) == heads(pcsw_columns()),
{
    let c = pcsw_columns();
    reveal_with_fuel(name_columns, 3);
    reveal_strlit("    proc/s   cswch/s");
    reveal_strlit("");
    reveal_strlit("proc/s");
    reveal_strlit("cswch/s");
    let names = aligned(""@, 0) + name_columns(c.names, 2);
    assert("    proc/s   cswch/s"@ =~= names);
    assert(names + Seq::<char>::empty() =~= names);
}

proof fn lemma_irq_columns()
    ensures
        heading(ActivityId::IRQ, MemOutput::Dia, false, false) == heads(irq_columns()),
{
    let c = irq_columns();
    reveal_with_fuel(name_columns, 2);
    reveal_strlit("      INTR    intr/s");
    reveal_strlit("INTR");
    reveal_strlit("intr/s");
    let names = aligned("INTR"@, 10) + name_columns(c.names, 1);
    assert("      INTR    intr/s"@ =~= names);
    assert(names + Seq::<char>::empty() =~= names);
}

proof fn lemma_swap_columns()
    ensures
        heading(ActivityId::SWAP, MemOutput::Dia, false, false) == heads(swap_columns()),
{
    let c = swap_columns();
    reveal_with_fuel(name_columns, 3);
    reveal_strlit("  pswpin/s pswpout/s");
    reveal_strlit("");
    reveal_strlit("pswpin/s");
    reveal_strlit("pswpout/s");
    let names = aligned(""@, 0) + name_columns(c.names, 2);
    assert("  pswpin/s pswpout/s"@ =~= names);
    assert(names + Seq::<char>::empty() =~= names);
}

proof fn lemma_page_columns()
    ensures
        heading(ActivityId::PAGE, MemOutput::Dia, false, false) == heads(page_columns()),
{
    let c = page_columns();
    reveal_with_fuel(name_columns, 10);
    reveal_strlit("  pgpgin/s pgpgout/s   fault/s  majflt/s  pgfree/s pgscank/s pgscand/s pgsteal/s    %vmeff");
    reveal_strlit("");
    reveal_strlit("pgpgin/s");
    reveal_strlit("pgpgout/s");
    reveal_strlit("fault/s");
    reveal_strlit("majflt/s");
    reveal_strlit("pgfree/s");
    reveal_strlit("pgscank/s");
    reveal_strlit("pgscand/s");
    reveal_strlit("pgsteal/s");
    reveal_strlit("%vmeff");
    let names = aligned(""@, 0) + name_columns(c.names, 9);
    assert("  pgpgin/s pgpgout/s   fault/s  majflt/s  pgfree/s pgscank/s pgscand/s pgsteal/s    %vmeff"@ =~= names);
    assert(names + Seq::<char>::empty() =~= names);
}

proof fn lemma_io_columns()
    ensures
        heading(ActivityId::IO, MemOutput::Dia, false, false) == heads(io_columns()),
{
    let c = io_columns();
    reveal_with_fuel(name_columns, 6);
    reveal_strlit("       tps      rtps      wtps   bread/s   bwrtn/s");
    reveal_strlit("");
    reveal_strlit("tps");
    reveal_strlit("rtps");
    reveal_strlit("wtps");
    reveal_strlit("bread/s");
    reveal_strlit("bwrtn/s");
    let names = aligned(""@, 0) + name_columns(c.names, 5);
    assert("       tps      rtps      wtps   bread/s   bwrtn/s"@ =~= names);
    assert(names + Seq::<char>::empty() =~= names);
}

proof fn lemma_ktables_columns()
    ensures
        heading(ActivityId::KTABLES, MemOutput::Dia, false, false) == heads(ktables_columns()),
{
    let c = ktables_columns();
    reveal_with_fuel(name_columns, 5);
    reveal_strlit(" dentunusd   file-nr  inode-nr    pty-nr");
    reveal_strlit("");
    reveal_strlit("dentunusd");
    reveal_strlit("file-nr");
    reveal_strlit("inode-nr");
    reveal_strlit("pty-nr");
    let names = aligned(""@, 0) + name_columns(c.names, 4);
    assert(" dentunusd   file-nr  inode-nr    pty-nr"@ =~= names);
    assert(names + Seq::<char>::empty() =~= names);
}

proof fn lemma_queue_columns()
    ensures
        heading(ActivityId::QUEUE, MemOutput::Dia, false, false) == heads(queue_columns()),
{
    let c = queue_columns();
    reveal_with_fuel(name_columns, 7);
    reveal_strlit("   runq-sz  plist-sz   ldavg-1   ldavg-5  ldavg-15   blocked");
    reveal_strlit("");
    reveal_strlit("runq-sz");
    reveal_strlit("plist-sz");
    reveal_strlit("ldavg-1");
    reveal_strlit("ldavg-5");
    reveal_strlit("ldavg-15");
    reveal_strlit("blocked");
    let names = aligned(""@, 0) + name_columns(c.names, 6);
    assert("   runq-sz  plist-sz   ldavg-1   ldavg-5  ldavg-15   blocked"@ =~= names);
    assert(names + Seq::<char>::empty() =~= names);
}

proof fn lemma_serial_columns()
    ensures
        heading(ActivityId::SERIAL, MemOutput::Dia, false, false) == heads(serial_columns()),
{
    let c = serial_columns();
    reveal_with_fuel(name_columns, 7);
    reveal_strlit("       TTY   rcvin/s   xmtin/s framerr/s prtyerr/s     brk/s   ovrun/s");
    reveal_strlit("TTY");
    reveal_strlit("rcvin/s");
    reveal_strlit("xmtin/s");
    reveal_strlit("framerr/s");
    reveal_strlit("prtyerr/s");
    reveal_strlit("brk/s");
    reveal_strlit("ovrun/s");
    let names = aligned("TTY"@, 10) + name_columns(c.names, 6);
    assert("       TTY   rcvin/s   xmtin/s framerr/s prtyerr/s     brk/s   ovrun/s"@ =~= names);
    assert(names + Seq::<char>::empty() =~= names);
}

proof fn lemma_disk_columns()
    ensures
        heading(ActivityId::DISK, MemOutput::Dia, false, false) == heads(disk_columns()),
{
    let c = disk_columns();
    reveal_with_fuel(name_columns, 9);
    reveal_strlit("       DEV       tps  rd_sec/s  wr_sec/s  avgrq-sz  avgqu-sz     await     svctm     %util");
    reveal_strlit("DEV");
    reveal_strlit("tps");
    reveal_strlit("rd_sec/s");
    reveal_strlit("wr_sec/s");
    reveal_strlit("avgrq-sz");
    reveal_strlit("avgqu-sz");
    reveal_strlit("await");
    reveal_strlit("svctm");
    reveal_strlit("%util");
    let names = aligned("DEV"@, 10) + name_columns(c.names, 8);
    assert("       DEV       tps  rd_sec/s  wr_sec/s  avgrq-sz  avgqu-sz     await     svctm     %util"@ =~= names);
    assert(names + Seq::<char>::empty() =~= names);
}

proof fn lemma_net_dev_columns()
    ensures
        heading(ActivityId::NET_DEV, MemOutput::Dia, false, false) == heads(net_dev_columns()),
{
    let c = net_dev_columns();
    reveal_with_fuel(name_columns, 8);
    reveal_strlit("     IFACE   rxpck/s   txpck/s    rxkB/s    txkB/s   rxcmp/s   txcmp/s  rxmcst/s");
    reveal_strlit("IFACE");
    reveal_strlit("rxpck/s");
    reveal_strlit("txpck/s");
    reveal_strlit("rxkB/s");
    reveal_strlit("txkB/s");
    reveal_strlit("rxcmp/s");
    reveal_strlit("txcmp/s");
    reveal_strlit("rxmcst/s");
    let names = aligned("IFACE"@, 10) + name_columns(c.names, 7);
    assert("     IFACE   rxpck/s   txpck/s    rxkB/s    txkB/s   rxcmp/s   txcmp/s  rxmcst/s"@ =~= names);
    assert(names + Seq::<char>::empty() =~= names);
}

proof fn lemma_net_edev_columns()
    ensures
        heading(ActivityId::NET_EDEV, MemOutput::Dia, false, false) == heads(net_edev_columns()),
{
    let c = net_edev_columns();
    reveal_with_fuel(name_columns, 10);
    reveal_strlit("     IFACE   rxerr/s   txerr/s    coll/s  rxdrop/s  txdrop/s  txcarr/s  rxfram/s  rxfifo/s  txfifo/s");
    reveal_strlit("IFACE");
    reveal_strlit("rxerr/s");
    reveal_strlit("txerr/s");
    reveal_strlit("coll/s");
    reveal_strlit("rxdrop/s");
    reveal_strlit("txdrop/s");
    reveal_strlit("txcarr/s");
    reveal_strlit("rxfram/s");
    reveal_strlit("rxfifo/s");
    reveal_strlit("txfifo/s");
    let names = aligned("IFACE"@, 10) + name_columns(c.names, 9);
    assert("     IFACE   rxerr/s   txerr/s    coll/s  rxdrop/s  txdrop/s  txcarr/s  rxfram/s  rxfifo/s  txfifo/s"@ =~= names);
    assert(names + Seq::<char>::empty() =~= names);
}

proof fn lemma_net_nfs_columns()
    ensures
        heading(ActivityId::NET_NFS, MemOutput::Dia, false, false) == heads(net_nfs_columns()),
{
    let c = net_nfs_columns();
    reveal_with_fuel(name_columns, 7);
    reveal_strlit("    call/s retrans/s    read/s   write/s  access/s  getatt/s");
    reveal_strlit("");
    reveal_strlit("call/s");
    reveal_strlit("retrans/s");
    reveal_strlit("read/s");
    reveal_strlit("write/s");
    reveal_strlit("access/s");
    reveal_strlit("getatt/s");
    let names = aligned(""@, 0) + name_columns(c.names, 6);
    assert("    call/s retrans/s    read/s   write/s  access/s  getatt/s"@ =~= names);
    assert(names + Seq::<char>::empty() =~= names);
}

proof fn lemma_net_nfsd_columns()
    ensures
        heading(ActivityId::NET_NFSD, MemOutput::Dia, false, false) == heads(net_nfsd_columns()),
{
    let c = net_nfsd_columns();
    reveal_with_fuel(name_columns, 12);
    reveal_strlit("   scall/s badcall/s  packet/s     udp/s     tcp/s     hit/s    miss/s   sread/s  swrite/s saccess/s sgetatt/s");
    reveal_strlit("");
    reveal_strlit("scall/s");
    reveal_strlit("badcall/s");
    reveal_strlit("packet/s");
    reveal_strlit("udp/s");
    reveal_strlit("tcp/s");
    reveal_strlit("hit/s");
    reveal_strlit("miss/s");
    reveal_strlit("sread/s");
    reveal_strlit("swrite/s");
    reveal_strlit("saccess/s");
    reveal_strlit("sgetatt/s");
    let names = aligned(""@, 0) + name_columns(c.names, 11);
    assert("   scall/s badcall/s  packet/s     udp/s     tcp/s     hit/s    miss/s   sread/s  swrite/s saccess/s sgetatt/s"@ =~= names);
    assert(names + Seq::<char>::empty() =~= names);
}

proof fn lemma_net_sock_columns()
    ensures
        heading(ActivityId::NET_SOCK, MemOutput::Dia, false, false) == heads(net_sock_columns()),
{
    let c = net_sock_columns();
    reveal_with_fuel(name_columns, 7);
    reveal_strlit("    totsck    tcpsck    udpsck    rawsck   ip-frag    tcp-tw");
    reveal_strlit("");
    reveal_strlit("totsck");
    reveal_strlit("tcpsck");
    reveal_strlit("udpsck");
    reveal_strlit("rawsck");
    reveal_strlit("ip-frag");
    reveal_strlit("tcp-tw");
    let names = aligned(""@, 0) + name_columns(c.names, 6);
    assert("    totsck    tcpsck    udpsck    rawsck   ip-frag    tcp-tw"@ =~= names);
    assert(names + Seq::<char>::empty() =~= names);
}

proof fn lemma_net_ip_columns()
    ensures
        heading(ActivityId::NET_IP, MemOutput::Dia, false, false) == heads(net_ip_columns()),
{
    let c = net_ip_columns();
    reveal_with_fuel(name_columns, 9);
    reveal_strlit("    irec/s  fwddgm/s    idel/s     orq/s   asmrq/s   asmok/s  fragok/s fragcrt/s");
    reveal_strlit("");
    reveal_strlit("irec/s");
    reveal_strlit("fwddgm/s");
    reveal_strlit("idel/s");
    reveal_strlit("orq/s");
    reveal_strlit("asmrq/s");
    reveal_strlit("asmok/s");
    reveal_strlit("fragok/s");
    reveal_strlit("fragcrt/s");
    let names = aligned(""@, 0) + name_columns(c.names, 8);
    assert("    irec/s  fwddgm/s    idel/s     orq/s   asmrq/s   asmok/s  fragok/s fragcrt/s"@ =~= names);
    assert(names + Seq::<char>::empty() =~= names);
}

proof fn lemma_net_eip_columns()
    ensures
        heading(ActivityId::NET_EIP, MemOutput::Dia, false, false) == heads(net_eip_columns()),
{
    let c = net_eip_columns();
    reveal_with_fuel(name_columns, 9);
    reveal_strlit(" ihdrerr/s iadrerr/s iukwnpr/s   idisc/s   odisc/s   onort/s    asmf/s   fragf/s");
    reveal_strlit("");
    reveal_strlit("ihdrerr/s");
    reveal_strlit("iadrerr/s");
    reveal_strlit("iukwnpr/s");
    reveal_strlit("idisc/s");
    reveal_strlit("odisc/s");
    reveal_strlit("onort/s");
    reveal_strlit("asmf/s");
    reveal_strlit("fragf/s");
    let names = aligned(""@, 0) + name_columns(c.names, 8);
    assert(" ihdrerr/s iadrerr/s iukwnpr/s   idisc/s   odisc/s   onort/s    asmf/s   fragf/s"@ =~= names);
    assert(names + Seq::<char>::empty() =~= names);
}

proof fn lemma_net_icmp_columns()
    ensures
        heading(ActivityId::NET_ICMP, MemOutput::Dia, false, false) == heads(net_icmp_columns()),
{
    let c = net_icmp_columns();
    reveal_with_fuel(name_columns, 15);
    reveal_strlit("    imsg/s    omsg/s    iech/s   iechr/s    oech/s   oechr/s     itm/s    itmr/s     otm/s    otmr/s  iadrmk/s iadrmkr/s  oadrmk/s oadrmkr/s");
    reveal_strlit("");
    reveal_strlit("imsg/s");
    reveal_strlit("omsg/s");
    reveal_strlit("iech/s");
    reveal_strlit("iechr/s");
    reveal_strlit("oech/s");
    reveal_strlit("oechr/s");
    reveal_strlit("itm/s");
    reveal_strlit("itmr/s");
    reveal_strlit("otm/s");
    reveal_strlit("otmr/s");
    reveal_strlit("iadrmk/s");
    reveal_strlit("iadrmkr/s");
    reveal_strlit("oadrmk/s");
    reveal_strlit("oadrmkr/s");
    let names = aligned(""@, 0) + name_columns(c.names, 14);
    assert("    imsg/s    omsg/s    iech/s   iechr/s    oech/s   oechr/s     itm/s    itmr/s     otm/s    otmr/s  iadrmk/s iadrmkr/s  oadrmk/s oadrmkr/s"@ =~= names);
    assert(names + Seq::<char>::empty() =~= names);
}

proof fn lemma_net_eicmp_columns()
    ensures
        heading(ActivityId::NET_EICMP, MemOutput::Dia, false, false) == heads(net_eicmp_columns()),
{
    let c = net_eicmp_columns();
    reveal_with_fuel(name_columns, 13);
    reveal_strlit("    ierr/s    oerr/s idstunr/s odstunr/s   itmex/s   otmex/s iparmpb/s oparmpb/s   isrcq/s   osrcq/s  iredir/s  oredir/s");
    reveal_strlit("");
    reveal_strlit("ierr/s");
    reveal_strlit("oerr/s");
    reveal_strlit("idstunr/s");
    reveal_strlit("odstunr/s");
    reveal_strlit("itmex/s");
    reveal_strlit("otmex/s");
    reveal_strlit("iparmpb/s");
    reveal_strlit("oparmpb/s");
    reveal_strlit("isrcq/s");
    reveal_strlit("osrcq/s");
    reveal_strlit("iredir/s");
    reveal_strlit("oredir/s");
    let names = aligned(""@, 0) + name_columns(c.names, 12);
    assert("    ierr/s    oerr/s idstunr/s odstunr/s   itmex/s   otmex/s iparmpb/s oparmpb/s   isrcq/s   osrcq/s  iredir/s  oredir/s"@ =~= names);
    assert(names + Seq::<char>::empty() =~= names);
}

proof fn lemma_net_tcp_columns()
    ensures
        heading(ActivityId::NET_TCP, MemOutput::Dia, false, false) == heads(net_tcp_columns()),
{
    let c = net_tcp_columns();
    reveal_with_fuel(name_columns, 5);
    reveal_strlit("  active/s passive/s    iseg/s    oseg/s");
    reveal_strlit("");
    reveal_strlit("active/s");
    reveal_strlit("passive/s");
    reveal_strlit("iseg/s");
    reveal_strlit("oseg/s");
    let names = aligned(""@, 0) + name_columns(c.names, 4);
    assert("  active/s passive/s    iseg/s    oseg/s"@ =~= names);
    assert(names + Seq::<char>::empty() =~= names);
}

proof fn lemma_net_etcp_columns()
    ensures
        heading(ActivityId::NET_ETCP, MemOutput::Dia, false, false) == heads(net_etcp_columns()),
{
    let c = net_etcp_columns();
    reveal_with_fuel(name_columns, 6);
    reveal_strlit("  atmptf/s  estres/s retrans/s isegerr/s   orsts/s");
    reveal_strlit("");
    reveal_strlit("atmptf/s");
    reveal_strlit("estres/s");
    reveal_strlit("retrans/s");
    reveal_strlit("isegerr/s");
    reveal_strlit("orsts/s");
    let names = aligned(""@, 0) + name_columns(c.names, 5);
    assert("  atmptf/s  estres/s retrans/s isegerr/s   orsts/s"@ =~= names);
    assert(names + Seq::<char>::empty() =~= names);
}

proof fn lemma_net_udp_columns()
    ensures
        heading(ActivityId::NET_UDP, MemOutput::Dia, false, false) == heads(net_udp_columns()),
{
    let c = net_udp_columns();
    reveal_with_fuel(name_columns, 5);
    reveal_strlit("    idgm/s    odgm/s  noport/s idgmerr/s");
    reveal_strlit("");
    reveal_strlit("idgm/s");
    reveal_strlit("odgm/s");
    reveal_strlit("noport/s");
    reveal_strlit("idgmerr/s");
    let names = aligned(""@, 0) + name_columns(c.names, 4);
    assert("    idgm/s    odgm/s  noport/s idgmerr/s"@ =~= names);
    assert(names + Seq::<char>::empty() =~= names);
}

proof fn lemma_net_sock6_columns()
    ensures
        heading(ActivityId::NET_SOCK6, MemOutput::Dia, false, false) == heads(net_sock6_columns()),
{
    let c = net_sock6_columns();
    reveal_with_fuel(name_columns, 5);
    reveal_strlit("   tcp6sck   udp6sck   raw6sck  ip6-frag");
    reveal_strlit("");
    reveal_strlit("tcp6sck");
    reveal_strlit("udp6sck");
    reveal_strlit("raw6sck");
    reveal_strlit("ip6-frag");
    let names = aligned(""@, 0) + name_columns(c.names, 4);
    assert("   tcp6sck   udp6sck   raw6sck  ip6-frag"@ =~= names);
    assert(names + Seq::<char>::empty() =~= names);
}

proof fn lemma_net_ip6_columns()
    ensures
        heading(ActivityId::NET_IP6, MemOutput::Dia, false, false) == heads(net_ip6_columns()),
{
    let c = net_ip6_columns();
    reveal_with_fuel(name_columns, 11);
    reveal_strlit("   irec6/s fwddgm6/s   idel6/s    orq6/s  asmrq6/s  asmok6/s imcpck6/s omcpck6/s fragok6/s fragcr6/s");
    reveal_strlit("");
    reveal_strlit("irec6/s");
    reveal_strlit("fwddgm6/s");
    reveal_strlit("idel6/s");
    reveal_strlit("orq6/s");
    reveal_strlit("asmrq6/s");
    reveal_strlit("asmok6/s");
    reveal_strlit("imcpck6/s");
    reveal_strlit("omcpck6/s");
    reveal_strlit("fragok6/s");
    reveal_strlit("fragcr6/s");
    let names = aligned(""@, 0) + name_columns(c.names, 10);
    assert("   irec6/s fwddgm6/s   idel6/s    orq6/s  asmrq6/s  asmok6/s imcpck6/s omcpck6/s fragok6/s fragcr6/s"@ =~= names);
    assert(names + Seq::<char>::empty() =~= names);
}

proof fn lemma_net_eip6_columns()
    ensures
        heading(ActivityId::NET_EIP6, MemOutput::Dia, false, false) == heads(net_eip6_columns()),
{
    let c = net_eip6_columns();
    reveal_with_fuel(name_columns, 12);
    reveal_strlit(" ihdrer6/s iadrer6/s iukwnp6/s  i2big6/s  idisc6/s  odisc6/s  inort6/s  onort6/s   asmf6/s  fragf6/s itrpck6/s");
    reveal_strlit("");
    reveal_strlit("ihdrer6/s");
    reveal_strlit("iadrer6/s");
    reveal_strlit("iukwnp6/s");
    reveal_strlit("i2big6/s");
    reveal_strlit("idisc6/s");
    reveal_strlit("odisc6/s");
    reveal_strlit("inort6/s");
    reveal_strlit("onort6/s");
    reveal_strlit("asmf6/s");
    reveal_strlit("fragf6/s");
    reveal_strlit("itrpck6/s");
    let names = aligned(""@, 0) + name_columns(c.names, 11);
    assert(" ihdrer6/s iadrer6/s iukwnp6/s  i2big6/s  idisc6/s  odisc6/s  inort6/s  onort6/s   asmf6/s  fragf6/s itrpck6/s"@ =~= names);
    assert(names + Seq::<char>::empty() =~= names);
}

proof fn lemma_net_icmp6_columns()
    ensures
        heading(ActivityId::NET_ICMP6, MemOutput::Dia, false, false) == heads(net_icmp6_columns()),
{
    let c = net_icmp6_columns();
    reveal_with_fuel(name_columns, 18);
    reveal_strlit("   imsg6/s   omsg6/s   iech6/s  iechr6/s  oechr6/s  igmbq6/s  igmbr6/s  ogmbr6/s igmbrd6/s ogmbrd6/s irtsol6/s ortsol6/s  irtad6/s inbsol6/s onbsol6/s  inbad6/s  onbad6/s");
    reveal_strlit("");
    reveal_strlit("imsg6/s");
    reveal_strlit("omsg6/s");
    reveal_strlit("iech6/s");
    reveal_strlit("iechr6/s");
    reveal_strlit("oechr6/s");
    reveal_strlit("igmbq6/s");
    reveal_strlit("igmbr6/s");
    reveal_strlit("ogmbr6/s");
    reveal_strlit("igmbrd6/s");
    reveal_strlit("ogmbrd6/s");
    reveal_strlit("irtsol6/s");
    reveal_strlit("ortsol6/s");
    reveal_strlit("irtad6/s");
    reveal_strlit("inbsol6/s");
    reveal_strlit("onbsol6/s");
    reveal_strlit("inbad6/s");
    reveal_strlit("onbad6/s");
    let names = aligned(""@, 0) + name_columns(c.names, 17);
    assert("   imsg6/s   omsg6/s   iech6/s  iechr6/s  oechr6/s  igmbq6/s  igmbr6/s  ogmbr6/s igmbrd6/s ogmbrd6/s irtsol6/s ortsol6/s  irtad6/s inbsol6/s onbsol6/s  inbad6/s  onbad6/s"@ =~= names);
    assert(names + Seq::<char>::empty() =~= names);
}

proof fn lemma_net_eicmp6_columns()
    ensures
        heading(ActivityId::NET_EICMP6, MemOutput::Dia, false, false) == heads(net_eicmp6_columns()),
{
    let c = net_eicmp6_columns();
    reveal_with_fuel(name_columns, 12);
    reveal_strlit("   ierr6/s idtunr6/s odtunr6/s  itmex6/s  otmex6/s iprmpb6/s oprmpb6/s iredir6/s oredir6/s ipck2b6/s opck2b6/s");
    reveal_strlit("");
    reveal_strlit("ierr6/s");
    reveal_strlit("idtunr6/s");
    reveal_strlit("odtunr6/s");
    reveal_strlit("itmex6/s");
    reveal_strlit("otmex6/s");
    reveal_strlit("iprmpb6/s");
    reveal_strlit("oprmpb6/s");
    reveal_strlit("iredir6/s");
    reveal_strlit("oredir6/s");
    reveal_strlit("ipck2b6/s");
    reveal_strlit("opck2b6/s");
    let names = aligned(""@, 0) + name_columns(c.names, 11);
    assert("   ierr6/s idtunr6/s odtunr6/s  itmex6/s  otmex6/s iprmpb6/s oprmpb6/s iredir6/s oredir6/s ipck2b6/s opck2b6/s"@ =~= names);
    assert(names + Seq::<char>::empty() =~= names);
}

proof fn lemma_net_udp6_columns()
    ensures
        heading(ActivityId::NET_UDP6, MemOutput::Dia, false, false) == heads(net_udp6_columns()),
{
    let c = net_udp6_columns();
    reveal_with_fuel(name_columns, 5);
    reveal_strlit("   idgm6/s   odgm6/s noport6/s idgmer6/s");
    reveal_strlit("");
    reveal_strlit("idgm6/s");
    reveal_strlit("odgm6/s");
    reveal_strlit("noport6/s");
    reveal_strlit("idgmer6/s");
    let names = aligned(""@, 0) + name_columns(c.names, 4);
    assert("   idgm6/s   odgm6/s noport6/s idgmer6/s"@ =~= names);
    assert(names + Seq::<char>::empty() =~= names);
}

proof fn lemma_pwr_cpu_columns()
    ensures
        heading(ActivityId::PWR_CPU, MemOutput::Dia, false, false) == heads(pwr_cpu_columns()),
{
    let c = pwr_cpu_columns();
    reveal_with_fuel(name_columns, 2);
    reveal_strlit("     CPU       MHz");
    reveal_strlit("CPU");
    reveal_strlit("MHz");
    let names = aligned("CPU"@, 8) + name_columns(c.names, 1);
    assert("     CPU       MHz"@ =~= names);
    assert(names + Seq::<char>::empty() =~= names);
}

proof fn lemma_huge_columns()
    ensures
        heading(ActivityId::HUGE, MemOutput::Dia, false, false) == heads(huge_columns()),
{
    let c = huge_columns();
    reveal_with_fuel(name_columns, 4);
    reveal_strlit(" kbhugfree kbhugused  %hugused");
    reveal_strlit("");
    reveal_strlit("kbhugfree");
    reveal_strlit("kbhugused");
    reveal_strlit("%hugused");
    let names = aligned(""@, 0) + name_columns(c.names, 3);
    assert(" kbhugfree kbhugused  %hugused"@ =~= names);
    assert(names + Seq::<char>::empty() =~= names);
}

proof fn lemma_pwr_freq_columns()
    ensures
        heading(ActivityId::PWR_FREQ, MemOutput::Dia, false, false) == heads(pwr_freq_columns()),
{
    let c = pwr_freq_columns();
    reveal_with_fuel(name_columns, 2);
    reveal_strlit("     CPU    wghMHz");
    reveal_strlit("CPU");
    reveal_strlit("wghMHz");
    let names = aligned("CPU"@, 8) + name_columns(c.names, 1);
    assert("     CPU    wghMHz"@ =~= names);
    assert(names + Seq::<char>::empty() =~= names);
}

proof fn lemma_pwr_fan_columns()
    ensures
        heading(ActivityId::PWR_FAN, MemOutput::Dia, false, false) == heads(pwr_fan_columns()),
{
    let c = pwr_fan_columns();
    reveal_with_fuel(name_columns, 3);
    reveal_strlit("     FAN       rpm      drpm ");
    reveal_strlit("FAN");
    reveal_strlit("rpm");
    reveal_strlit("drpm");
    let names = aligned("FAN"@, 8) + name_columns(c.names, 2);
    reveal_strlit("DEVICE");
    lemma_padded("DEVICE"@, SENSOR_WIDTH as nat);
    assert("     FAN       rpm      drpm "@ =~= names + seq![' ']);
    assert(names + seq![' '] + left_padded("DEVICE"@, 20) =~= names + (seq![' '] + left_padded("DEVICE"@, 20)));
}

proof fn lemma_pwr_temp_columns()
    ensures
        heading(ActivityId::PWR_TEMP, MemOutput::Dia, false, false) == heads(pwr_temp_columns()),
{
    let c = pwr_temp_columns();
    reveal_with_fuel(name_columns, 3);
    reveal_strlit("    TEMP      degC     %temp ");
    reveal_strlit("TEMP");
    reveal_strlit("degC");
    reveal_strlit("%temp");
    let names = aligned("TEMP"@, 8) + name_columns(c.names, 2);
    reveal_strlit("DEVICE");
    lemma_padded("DEVICE"@, SENSOR_WIDTH as nat);
    assert("    TEMP      degC     %temp "@ =~= names + seq![' ']);
    assert(names + seq![' '] + left_padded("DEVICE"@, 20) =~= names + (seq![' '] + left_padded("DEVICE"@, 20)));
}

proof fn lemma_pwr_in_columns()
    ensures
        heading(ActivityId::PWR_IN, MemOutput::Dia, false, false) == heads(pwr_in_columns()),
{
    let c = pwr_in_columns();
    reveal_with_fuel(name_columns, 3);
    reveal_strlit("      IN       inV       %in ");
    reveal_strlit("IN");
    reveal_strlit("inV");
    reveal_strlit("%in");
    let names = aligned("IN"@, 8) + name_columns(c.names, 2);
    reveal_strlit("DEVICE");
    lemma_padded("DEVICE"@, SENSOR_WIDTH as nat);
    assert("      IN       inV       %in "@ =~= names + seq![' ']);
    assert(names + seq![' '] + left_padded("DEVICE"@, 20) =~= names + (seq![' '] + left_padded("DEVICE"@, 20)));
}

proof fn lemma_pwr_usb_columns()
    ensures
        heading(ActivityId::PWR_USB, MemOutput::Dia, false, false) == heads(pwr_usb_columns()),
{
    let c = pwr_usb_columns();
    reveal_with_fuel(name_columns, 4);
    reveal_strlit("     BUS  idvendor    idprod  maxpower ");
    reveal_strlit("BUS");
    reveal_strlit("idvendor");
    reveal_strlit("idprod");
    reveal_strlit("maxpower");
    let names = aligned("BUS"@, 8) + name_columns(c.names, 3);
    reveal_strlit("manufact");
    reveal_strlit("product");
    reveal_strlit(" ");
    lemma_padded("manufact"@, MANUFACTURER_WIDTH as nat);
    lemma_padded("product"@, PRODUCT_WIDTH as nat);
    assert("     BUS  idvendor    idprod  maxpower "@ =~= names + seq![' ']);
    assert(" "@ =~= seq![' ']);
    let a = left_padded("manufact"@, 23);
    let b = left_padded("product"@, 47);
    assert(names + seq![' '] + a + seq![' '] + b =~= names + ((seq![' '] + a) + (seq![' '] + b)));
}

proof fn lemma_fs_columns(fs_mount: bool)
    ensures
        heading(ActivityId::FS, MemOutput::Dia, false, fs_mount) == heads(fs_columns(fs_mount)),
{
    let c = fs_columns(fs_mount);
    reveal_with_fuel(name_columns, 8);
    reveal_strlit("  MBfsfree  MBfsused   %fsused  %ufsused     Ifree     Iused    %Iused ");
    reveal_strlit("");
    reveal_strlit("MBfsfree");
    reveal_strlit("MBfsused");
    reveal_strlit("%fsused");
    reveal_strlit("%ufsused");
    reveal_strlit("Ifree");
    reveal_strlit("Iused");
    reveal_strlit("%Iused");
    let names = aligned(""@, 0) + name_columns(c.names, 7);
    reveal_strlit("MOUNTPOINT");
    reveal_strlit("FILESYSTEM");
    reveal_strlit(" MOUNTPOINT");
    reveal_strlit(" FILESYSTEM");
    assert("  MBfsfree  MBfsused   %fsused  %ufsused     Ifree     Iused    %Iused "@ =~= names + seq![' ']);
    assert(" MOUNTPOINT"@ =~= seq![' '] + "MOUNTPOINT"@);
    assert(" FILESYSTEM"@ =~= seq![' '] + "FILESYSTEM"@);
    let end = if fs_mount {
        "MOUNTPOINT"@
    } else {
        "FILESYSTEM"@
    };
    assert(names + seq![' '] + end =~= names + (seq![' '] + end));
}

/// The headings of an activity are the names of its columns from left to right, each at the
/// right end of its ten columns, behind what heads the items and before what heads the end of a
/// line.
pub proof fn law_headings_are_the_names_of_the_columns(
    id: ActivityId,
    mem: MemOutput,
    cpu_all: bool,
    fs_mount: bool,
)
    ensures
        heading(id, mem, cpu_all, fs_mount) == heads(columns_of(id, mem, cpu_all, fs_mount)),
{
    match id {
        ActivityId::CPU => {
            lemma_cpu_full_columns();
            lemma_cpu_brief_columns();
        },
        ActivityId::MEMORY => {
            lemma_memory_changes_columns();
            lemma_memory_columns();
            lemma_swap_space_columns();
        },
        ActivityId::FS => lemma_fs_columns(fs_mount),
        ActivityId::PCSW => lemma_pcsw_columns(),
        ActivityId::IRQ => lemma_irq_columns(),
        ActivityId::SWAP => lemma_swap_columns(),
        ActivityId::PAGE => lemma_page_columns(),
        ActivityId::IO => lemma_io_columns(),
        ActivityId::KTABLES => lemma_ktables_columns(),
        ActivityId::QUEUE => lemma_queue_columns(),
        ActivityId::SERIAL => lemma_serial_columns(),
        ActivityId::DISK => lemma_disk_columns(),
        ActivityId::NET_DEV => lemma_net_dev_columns(),
        ActivityId::NET_EDEV => lemma_net_edev_columns(),
        ActivityId::NET_NFS => lemma_net_nfs_columns(),
        ActivityId::NET_NFSD => lemma_net_nfsd_columns(),
        ActivityId::NET_SOCK => lemma_net_sock_columns(),
        ActivityId::NET_IP => lemma_net_ip_columns(),
        ActivityId::NET_EIP => lemma_net_eip_columns(),
        ActivityId::NET_ICMP => lemma_net_icmp_columns(),
        ActivityId::NET_EICMP => lemma_net_eicmp_columns(),
        ActivityId::NET_TCP => lemma_net_tcp_columns(),
        ActivityId::NET_ETCP => lemma_net_etcp_columns(),
        ActivityId::NET_UDP => lemma_net_udp_columns(),
        ActivityId::NET_SOCK6 => lemma_net_sock6_columns(),
        ActivityId::NET_IP6 => lemma_net_ip6_columns(),
        ActivityId::NET_EIP6 => lemma_net_eip6_columns(),
        ActivityId::NET_ICMP6 => lemma_net_icmp6_columns(),
        ActivityId::NET_EICMP6 => lemma_net_eicmp6_columns(),
        ActivityId::NET_UDP6 => lemma_net_udp6_columns(),
        ActivityId::PWR_CPU => lemma_pwr_cpu_columns(),
        ActivityId::HUGE => lemma_huge_columns(),
        ActivityId::PWR_FREQ => lemma_pwr_freq_columns(),
        ActivityId::PWR_FAN => lemma_pwr_fan_columns(),
        ActivityId::PWR_TEMP => lemma_pwr_temp_columns(),
        ActivityId::PWR_IN => lemma_pwr_in_columns(),
        ActivityId::PWR_USB => lemma_pwr_usb_columns(),
        _ => {
            reveal_strlit("");
            assert(""@ =~= heads(values_only(Seq::empty())));
        },
    }
}

proof fn lemma_name_columns(names: Seq<&'static str>, n: int, k: int)
    requires
        0 <= k < n <= names.len(),
        forall|i: int| 0 <= i < names.len() ==> (#[trigger] names[i])@.len() <= 10,
    ensures
        name_columns(names, n).len() == 10 * n,
        name_columns(names, n).subrange(10 * k, 10 * k + 10) == aligned(names[k]@, 10),
    decreases n,
{
    let all = name_columns(names, n);
    let before = name_columns(names, n - 1);
    assert(names[n - 1]@.len() <= 10);
    if k < n - 1 {
        lemma_name_columns(names, n - 1, k);
        assert(all.subrange(10 * k, 10 * k + 10) =~= before.subrange(10 * k, 10 * k + 10));
    } else {
        if n - 1 > 0 {
            lemma_name_columns(names, n - 1, 0);
        }
        assert(before.len() == 10 * (n - 1));
        assert(all.subrange(10 * k, 10 * k + 10) =~= aligned(names[k]@, 10));
    }
}

/// Whether the names of columns fit them, with a blank before each.
pub open spec fn names_fit(c: Columns) -> bool {
    &&& c.item@.len() <= c.item_width
    &&& forall|i: int| 0 <= i < c.names.len() ==> (#[trigger] c.names[i])@.len() < 10
}

proof fn cpu_full_names_fit()
    ensures
        names_fit(cpu_full_columns()),
{
    reveal_strlit("CPU");
    reveal_strlit("%usr");
    reveal_strlit("%nice");
    reveal_strlit("%sys");
    reveal_strlit("%iowait");
    reveal_strlit("%steal");
    reveal_strlit("%irq");
    reveal_strlit("%soft");
    reveal_strlit("%guest");
    reveal_strlit("%gnice");
    reveal_strlit("%idle");
}

proof fn cpu_brief_names_fit()
    ensures
        names_fit(cpu_brief_columns()),
{
    reveal_strlit("CPU");
    reveal_strlit("%user");
    reveal_strlit("%nice");
    reveal_strlit("%system");
    reveal_strlit("%iowait");
    reveal_strlit("%steal");
    reveal_strlit("%idle");
}

proof fn memory_changes_names_fit()
    ensures
        names_fit(memory_changes_columns()),
{
    reveal_strlit("");
    reveal_strlit("frmpg/s");
    reveal_strlit("bufpg/s");
    reveal_strlit("campg/s");
}

proof fn memory_names_fit()
    ensures
        names_fit(memory_columns()),
{
    reveal_strlit("");
    reveal_strlit("kbmemfree");
    reveal_strlit("kbmemused");
    reveal_strlit("%memused");
    reveal_strlit("kbbuffers");
    reveal_strlit("kbcached");
    reveal_strlit("kbcommit");
    reveal_strlit("%commit");
    reveal_strlit("kbactive");
    reveal_strlit("kbinact");
    reveal_strlit("kbdirty");
}

proof fn swap_space_names_fit()
    ensures
        names_fit(swap_space_columns()),
{
    reveal_strlit("");
    reveal_strlit("kbswpfree");
    reveal_strlit("kbswpused");
    reveal_strlit("%swpused");
    reveal_strlit("kbswpcad");
    reveal_strlit("%swpcad");
}

proof fn pcsw_names_fit()
    ensures
        names_fit(pcsw_columns()),
{
    reveal_strlit("");
    reveal_strlit("proc/s");
    reveal_strlit("cswch/s");
}

proof fn irq_names_fit()
    ensures
        names_fit(irq_columns()),
{
    reveal_strlit("INTR");
    reveal_strlit("intr/s");
}

proof fn swap_names_fit()
    ensures
        names_fit(swap_columns()),
{
    reveal_strlit("");
    reveal_strlit("pswpin/s");
    reveal_strlit("pswpout/s");
}

proof fn page_names_fit()
    ensures
        names_fit(page_columns()),
{
    reveal_strlit("");
    reveal_strlit("pgpgin/s");
    reveal_strlit("pgpgout/s");
    reveal_strlit("fault/s");
    reveal_strlit("majflt/s");
    reveal_strlit("pgfree/s");
    reveal_strlit("pgscank/s");
    reveal_strlit("pgscand/s");
    reveal_strlit("pgsteal/s");
    reveal_strlit("%vmeff");
}

proof fn io_names_fit()
    ensures
        names_fit(io_columns()),
{
    reveal_strlit("");
    reveal_strlit("tps");
    reveal_strlit("rtps");
    reveal_strlit("wtps");
    reveal_strlit("bread/s");
    reveal_strlit("bwrtn/s");
}

proof fn ktables_names_fit()
    ensures
        names_fit(ktables_columns()),
{
    reveal_strlit("");
    reveal_strlit("dentunusd");
    reveal_strlit("file-nr");
    reveal_strlit("inode-nr");
    reveal_strlit("pty-nr");
}

proof fn queue_names_fit()
    ensures
        names_fit(queue_columns()),
{
    reveal_strlit("");
    reveal_strlit("runq-sz");
    reveal_strlit("plist-sz");
    reveal_strlit("ldavg-1");
    reveal_strlit("ldavg-5");
    reveal_strlit("ldavg-15");
    reveal_strlit("blocked");
}

proof fn serial_names_fit()
    ensures
        names_fit(serial_columns()),
{
    reveal_strlit("TTY");
    reveal_strlit("rcvin/s");
    reveal_strlit("xmtin/s");
    reveal_strlit("framerr/s");
    reveal_strlit("prtyerr/s");
    reveal_strlit("brk/s");
    reveal_strlit("ovrun/s");
}

proof fn disk_names_fit()
    ensures
        names_fit(disk_columns()),
{
    reveal_strlit("DEV");
    reveal_strlit("tps");
    reveal_strlit("rd_sec/s");
    reveal_strlit("wr_sec/s");
    reveal_strlit("avgrq-sz");
    reveal_strlit("avgqu-sz");
    reveal_strlit("await");
    reveal_strlit("svctm");
    reveal_strlit("%util");
}

proof fn net_dev_names_fit()
    ensures
        names_fit(net_dev_columns()),
{
    reveal_strlit("IFACE");
    reveal_strlit("rxpck/s");
    reveal_strlit("txpck/s");
    reveal_strlit("rxkB/s");
    reveal_strlit("txkB/s");
    reveal_strlit("rxcmp/s");
    reveal_strlit("txcmp/s");
    reveal_strlit("rxmcst/s");
}

proof fn net_edev_names_fit()
    ensures
        names_fit(net_edev_columns()),
{
    reveal_strlit("IFACE");
    reveal_strlit("rxerr/s");
    reveal_strlit("txerr/s");
    reveal_strlit("coll/s");
    reveal_strlit("rxdrop/s");
    reveal_strlit("txdrop/s");
    reveal_strlit("txcarr/s");
    reveal_strlit("rxfram/s");
    reveal_strlit("rxfifo/s");
    reveal_strlit("txfifo/s");
}

proof fn net_nfs_names_fit()
    ensures
        names_fit(net_nfs_columns()),
{
    reveal_strlit("");
    reveal_strlit("call/s");
    reveal_strlit("retrans/s");
    reveal_strlit("read/s");
    reveal_strlit("write/s");
    reveal_strlit("access/s");
    reveal_strlit("getatt/s");
}

proof fn net_nfsd_names_fit()
    ensures
        names_fit(net_nfsd_columns()),
{
    reveal_strlit("");
    reveal_strlit("scall/s");
    reveal_strlit("badcall/s");
    reveal_strlit("packet/s");
    reveal_strlit("udp/s");
    reveal_strlit("tcp/s");
    reveal_strlit("hit/s");
    reveal_strlit("miss/s");
    reveal_strlit("sread/s");
    reveal_strlit("swrite/s");
    reveal_strlit("saccess/s");
    reveal_strlit("sgetatt/s");
}

proof fn net_sock_names_fit()
    ensures
        names_fit(net_sock_columns()),
{
    reveal_strlit("");
    reveal_strlit("totsck");
    reveal_strlit("tcpsck");
    reveal_strlit("udpsck");
    reveal_strlit("rawsck");
    reveal_strlit("ip-frag");
    reveal_strlit("tcp-tw");
}

proof fn net_ip_names_fit()
    ensures
        names_fit(net_ip_columns()),
{
    reveal_strlit("");
    reveal_strlit("irec/s");
    reveal_strlit("fwddgm/s");
    reveal_strlit("idel/s");
    reveal_strlit("orq/s");
    reveal_strlit("asmrq/s");
    reveal_strlit("asmok/s");
    reveal_strlit("fragok/s");
    reveal_strlit("fragcrt/s");
}

proof fn net_eip_names_fit()
    ensures
        names_fit(net_eip_columns()),
{
    reveal_strlit("");
    reveal_strlit("ihdrerr/s");
    reveal_strlit("iadrerr/s");
    reveal_strlit("iukwnpr/s");
    reveal_strlit("idisc/s");
    reveal_strlit("odisc/s");
    reveal_strlit("onort/s");
    reveal_strlit("asmf/s");
    reveal_strlit("fragf/s");
}

proof fn net_icmp_names_fit()
    ensures
        names_fit(net_icmp_columns()),
{
    reveal_strlit("");
    reveal_strlit("imsg/s");
    reveal_strlit("omsg/s");
    reveal_strlit("iech/s");
    reveal_strlit("iechr/s");
    reveal_strlit("oech/s");
    reveal_strlit("oechr/s");
    reveal_strlit("itm/s");
    reveal_strlit("itmr/s");
    reveal_strlit("otm/s");
    reveal_strlit("otmr/s");
    reveal_strlit("iadrmk/s");
    reveal_strlit("iadrmkr/s");
    reveal_strlit("oadrmk/s");
    reveal_strlit("oadrmkr/s");
}

proof fn net_eicmp_names_fit()
    ensures
        names_fit(net_eicmp_columns()),
{
    reveal_strlit("");
    reveal_strlit("ierr/s");
    reveal_strlit("oerr/s");
    reveal_strlit("idstunr/s");
    reveal_strlit("odstunr/s");
    reveal_strlit("itmex/s");
    reveal_strlit("otmex/s");
    reveal_strlit("iparmpb/s");
    reveal_strlit("oparmpb/s");
    reveal_strlit("isrcq/s");
    reveal_strlit("osrcq/s");
    reveal_strlit("iredir/s");
    reveal_strlit("oredir/s");
}

proof fn net_tcp_names_fit()
    ensures
        names_fit(net_tcp_columns()),
{
    reveal_strlit("");
    reveal_strlit("active/s");
    reveal_strlit("passive/s");
    reveal_strlit("iseg/s");
    reveal_strlit("oseg/s");
}

proof fn net_etcp_names_fit()
    ensures
        names_fit(net_etcp_columns()),
{
    reveal_strlit("");
    reveal_strlit("atmptf/s");
    reveal_strlit("estres/s");
    reveal_strlit("retrans/s");
    reveal_strlit("isegerr/s");
    reveal_strlit("orsts/s");
}

proof fn net_udp_names_fit()
    ensures
        names_fit(net_udp_columns()),
{
    reveal_strlit("");
    reveal_strlit("idgm/s");
    reveal_strlit("odgm/s");
    reveal_strlit("noport/s");
    reveal_strlit("idgmerr/s");
}

proof fn net_sock6_names_fit()
    ensures
        names_fit(net_sock6_columns()),
{
    reveal_strlit("");
    reveal_strlit("tcp6sck");
    reveal_strlit("udp6sck");
    reveal_strlit("raw6sck");
    reveal_strlit("ip6-frag");
}

proof fn net_ip6_names_fit()
    ensures
        names_fit(net_ip6_columns()),
{
    reveal_strlit("");
    reveal_strlit("irec6/s");
    reveal_strlit("fwddgm6/s");
    reveal_strlit("idel6/s");
    reveal_strlit("orq6/s");
    reveal_strlit("asmrq6/s");
    reveal_strlit("asmok6/s");
    reveal_strlit("imcpck6/s");
    reveal_strlit("omcpck6/s");
    reveal_strlit("fragok6/s");
    reveal_strlit("fragcr6/s");
}

proof fn net_eip6_names_fit()
    ensures
        names_fit(net_eip6_columns()),
{
    reveal_strlit("");
    reveal_strlit("ihdrer6/s");
    reveal_strlit("iadrer6/s");
    reveal_strlit("iukwnp6/s");
    reveal_strlit("i2big6/s");
    reveal_strlit("idisc6/s");
    reveal_strlit("odisc6/s");
    reveal_strlit("inort6/s");
    reveal_strlit("onort6/s");
    reveal_strlit("asmf6/s");
    reveal_strlit("fragf6/s");
    reveal_strlit("itrpck6/s");
}

proof fn net_icmp6_names_fit()
    ensures
        names_fit(net_icmp6_columns()),
{
    reveal_strlit("");
    reveal_strlit("imsg6/s");
    reveal_strlit("omsg6/s");
    reveal_strlit("iech6/s");
    reveal_strlit("iechr6/s");
    reveal_strlit("oechr6/s");
    reveal_strlit("igmbq6/s");
    reveal_strlit("igmbr6/s");
    reveal_strlit("ogmbr6/s");
    reveal_strlit("igmbrd6/s");
    reveal_strlit("ogmbrd6/s");
    reveal_strlit("irtsol6/s");
    reveal_strlit("ortsol6/s");
    reveal_strlit("irtad6/s");
    reveal_strlit("inbsol6/s");
    reveal_strlit("onbsol6/s");
    reveal_strlit("inbad6/s");
    reveal_strlit("onbad6/s");
}

proof fn net_eicmp6_names_fit()
    ensures
        names_fit(net_eicmp6_columns()),
{
    reveal_strlit("");
    reveal_strlit("ierr6/s");
    reveal_strlit("idtunr6/s");
    reveal_strlit("odtunr6/s");
    reveal_strlit("itmex6/s");
    reveal_strlit("otmex6/s");
    reveal_strlit("iprmpb6/s");
    reveal_strlit("oprmpb6/s");
    reveal_strlit("iredir6/s");
    reveal_strlit("oredir6/s");
    reveal_strlit("ipck2b6/s");
    reveal_strlit("opck2b6/s");
}

proof fn net_udp6_names_fit()
    ensures
        names_fit(net_udp6_columns()),
{
    reveal_strlit("");
    reveal_strlit("idgm6/s");
    reveal_strlit("odgm6/s");
    reveal_strlit("noport6/s");
    reveal_strlit("idgmer6/s");
}

proof fn pwr_cpu_names_fit()
    ensures
        names_fit(pwr_cpu_columns()),
{
    reveal_strlit("CPU");
    reveal_strlit("MHz");
}

proof fn huge_names_fit()
    ensures
        names_fit(huge_columns()),
{
    reveal_strlit("");
    reveal_strlit("kbhugfree");
    reveal_strlit("kbhugused");
    reveal_strlit("%hugused");
}

proof fn pwr_freq_names_fit()
    ensures
        names_fit(pwr_freq_columns()),
{
    reveal_strlit("CPU");
    reveal_strlit("wghMHz");
}

proof fn pwr_fan_names_fit()
    ensures
        names_fit(pwr_fan_columns()),
{
    reveal_strlit("FAN");
    reveal_strlit("rpm");
    reveal_strlit("drpm");
}

proof fn pwr_temp_names_fit()
    ensures
        names_fit(pwr_temp_columns()),
{
    reveal_strlit("TEMP");
    reveal_strlit("degC");
    reveal_strlit("%temp");
}

proof fn pwr_in_names_fit()
    ensures
        names_fit(pwr_in_columns()),
{
    reveal_strlit("IN");
    reveal_strlit("inV");
    reveal_strlit("%in");
}

proof fn pwr_usb_names_fit()
    ensures
        names_fit(pwr_usb_columns()),
{
    reveal_strlit("BUS");
    reveal_strlit("idvendor");
    reveal_strlit("idprod");
    reveal_strlit("maxpower");
}

proof fn fs_names_fit(fs_mount: bool)
    ensures
        names_fit(fs_columns(fs_mount)),
{
    reveal_strlit("");
    reveal_strlit("MBfsfree");
    reveal_strlit("MBfsused");
    reveal_strlit("%fsused");
    reveal_strlit("%ufsused");
    reveal_strlit("Ifree");
    reveal_strlit("Iused");
    reveal_strlit("%Iused");
}

proof fn lemma_names_fit(id: ActivityId, mem: MemOutput, cpu_all: bool, fs_mount: bool)
    ensures
        names_fit(columns_of(id, mem, cpu_all, fs_mount)),
{
    match id {
        ActivityId::CPU => {
            cpu_full_names_fit();
            cpu_brief_names_fit();
        },
        ActivityId::MEMORY => {
            memory_changes_names_fit();
            memory_names_fit();
            swap_space_names_fit();
        },
        ActivityId::FS => fs_names_fit(fs_mount),
        ActivityId::PCSW => pcsw_names_fit(),
        ActivityId::IRQ => irq_names_fit(),
        ActivityId::SWAP => swap_names_fit(),
        ActivityId::PAGE => page_names_fit(),
        ActivityId::IO => io_names_fit(),
        ActivityId::KTABLES => ktables_names_fit(),
        ActivityId::QUEUE => queue_names_fit(),
        ActivityId::SERIAL => serial_names_fit(),
        ActivityId::DISK => disk_names_fit(),
        ActivityId::NET_DEV => net_dev_names_fit(),
        ActivityId::NET_EDEV => net_edev_names_fit(),
        ActivityId::NET_NFS => net_nfs_names_fit(),
        ActivityId::NET_NFSD => net_nfsd_names_fit(),
        ActivityId::NET_SOCK => net_sock_names_fit(),
        ActivityId::NET_IP => net_ip_names_fit(),
        ActivityId::NET_EIP => net_eip_names_fit(),
        ActivityId::NET_ICMP => net_icmp_names_fit(),
        ActivityId::NET_EICMP => net_eicmp_names_fit(),
        ActivityId::NET_TCP => net_tcp_names_fit(),
        ActivityId::NET_ETCP => net_etcp_names_fit(),
        ActivityId::NET_UDP => net_udp_names_fit(),
        ActivityId::NET_SOCK6 => net_sock6_names_fit(),
        ActivityId::NET_IP6 => net_ip6_names_fit(),
        ActivityId::NET_EIP6 => net_eip6_names_fit(),
        ActivityId::NET_ICMP6 => net_icmp6_names_fit(),
        ActivityId::NET_EICMP6 => net_eicmp6_names_fit(),
        ActivityId::NET_UDP6 => net_udp6_names_fit(),
        ActivityId::PWR_CPU => pwr_cpu_names_fit(),
        ActivityId::HUGE => huge_names_fit(),
        ActivityId::PWR_FREQ => pwr_freq_names_fit(),
        ActivityId::PWR_FAN => pwr_fan_names_fit(),
        ActivityId::PWR_TEMP => pwr_temp_names_fit(),
        ActivityId::PWR_IN => pwr_in_names_fit(),
        ActivityId::PWR_USB => pwr_usb_names_fit(),
        _ => {
            reveal_strlit("");
        },
    }
}

/// Whether a value fits its column.
pub open spec fn cell_fits(c: Cell) -> bool {
    match c {
        Cell::U9(v) => byte_len(dec(v as nat)) <= 9 && byte_len(dec(v as nat)) == dec(
            v as nat,
        ).len(),
        Cell::X9(v) => byte_len(hex(v as nat)) <= 9 && byte_len(hex(v as nat)) == hex(
            v as nat,
        ).len(),
        _ => true,
    }
}

proof fn lemma_number_width(lead: &'static str, g: Glyph)
    requires
        g is Num,
    ensures
        columns_taken(chars(lead@) + seq![g]) == lead@.len() + g->Num_0.width,
{
    lemma_columns_add(chars(lead@), seq![g]);
    lemma_columns_of_text(lead@);
    assert(seq![g].drop_last() =~= Seq::<Glyph>::empty());
    reveal_with_fuel(columns_taken, 2);
}

/// A value takes ten columns, as the name above it does.
pub proof fn law_a_cell_takes_ten_columns(c: Cell)
    requires
        cell_fits(c),
    ensures
        columns_taken(cell_glyphs(c)) == 10,
{
    reveal_strlit(" ");
    reveal_strlit("    ");
    reveal_strlit("   ");
    reveal_strlit("       N/A");
    lemma_columns_of_text("       N/A"@);
    match c {
        Cell::F92(_) | Cell::F90(_) => {
            lemma_number_width(" ", cell_glyphs(c).last());
            assert(cell_glyphs(c) =~= chars(" "@) + seq![cell_glyphs(c).last()]);
        },
        Cell::P62(_) => {
            lemma_number_width("    ", cell_glyphs(c).last());
            assert(cell_glyphs(c) =~= chars("    "@) + seq![cell_glyphs(c).last()]);
        },
        Cell::P72(_) => {
            lemma_number_width("   ", cell_glyphs(c).last());
            assert(cell_glyphs(c) =~= chars("   "@) + seq![cell_glyphs(c).last()]);
        },
        Cell::U9(v) => {
            lemma_columns_of_text(" "@);
            lemma_columns_of_text(left_padded(dec(v as nat), 9));
            lemma_columns_add(chars(" "@), chars(left_padded(dec(v as nat), 9)));
        },
        Cell::X9(v) => {
            lemma_columns_of_text(" "@);
            lemma_columns_of_text(left_padded(hex(v as nat), 9));
            lemma_columns_add(chars(" "@), chars(left_padded(hex(v as nat), 9)));
        },
        Cell::Na => {},
    }
}

proof fn lemma_cells(cells: Seq<Cell>, n: int, k: int)
    requires
        0 <= k < n <= cells.len(),
        forall|i: int| 0 <= i < cells.len() ==> cell_fits(#[trigger] cells[i]),
    ensures
        columns_taken(cells_glyphs(cells, k)) == 10 * k,
        exists|after: Seq<Glyph>| #[trigger]
            around(cells_glyphs(cells, k), cell_glyphs(cells[k]), after) == cells_glyphs(cells, n),
    decreases n,
{
    let lead = cells_glyphs(cells, k);
    let here = cell_glyphs(cells[k]);
    if k < n - 1 {
        lemma_cells(cells, n - 1, k);
        let after = choose|after: Seq<Glyph>| #[trigger]
            around(lead, here, after) == cells_glyphs(cells, n - 1);
        assert(around(lead, here, after + cell_glyphs(cells[n - 1])) =~= cells_glyphs(cells, n));
    } else {
        assert(around(lead, here, Seq::empty()) =~= cells_glyphs(cells, n));
        if k > 0 {
            lemma_cells(cells, k, k - 1);
            law_a_cell_takes_ten_columns(cells[k - 1]);
            lemma_columns_add(cells_glyphs(cells, k - 1), cell_glyphs(cells[k - 1]));
        }
    }
}

/// Values stand below their names: where what tells the item is as wide as what heads it, the
/// value `k` of a line takes the very columns in which the name `k` stands, at the right end of
/// them and behind a blank.
pub proof fn law_values_stand_below_their_names(
    ts: Seq<char>,
    id: ActivityId,
    mem: MemOutput,
    cpu_all: bool,
    fs_mount: bool,
    row: Row,
    k: int,
)
    requires
        label_text(row.label).len() == columns_of(id, mem, cpu_all, fs_mount).item_width,
        0 <= k < row.cells@.len(),
        row.cells@.len() <= columns_of(id, mem, cpu_all, fs_mount).names.len(),
        forall|i: int| 0 <= i < row.cells@.len() ==> cell_fits(#[trigger] row.cells@[i]),
    ensures
        ({
            let c = columns_of(id, mem, cpu_all, fs_mount);
            let at = c.item_width + 10 * k;
            &&& heading(id, mem, cpu_all, fs_mount).len() >= at + 10
            &&& heading(id, mem, cpu_all, fs_mount).subrange(at as int, at + 10) == aligned(
                c.names[k]@,
                10,
            )
            &&& c.names[k]@.len() < 10
            &&& line_shows(
                row_glyphs(ts, row),
                chars(right_padded(ts, STAMP_WIDTH as nat)) + chars(label_text(row.label)),
                (10 * k) as nat,
                cell_glyphs(row.cells@[k]),
            )
        }),
{
    let c = columns_of(id, mem, cpu_all, fs_mount);
    let n = c.names.len() as int;
    law_headings_are_the_names_of_the_columns(id, mem, cpu_all, fs_mount);
    lemma_names_fit(id, mem, cpu_all, fs_mount);
    assert(c.names[k]@.len() < 10);
    lemma_name_columns(c.names, n, k);
    let names = name_columns(c.names, n);
    let lead = aligned(c.item@, c.item_width);
    let at = c.item_width + 10 * k;
    assert(heads(c).subrange(at as int, at + 10) =~= names.subrange(10 * k, 10 * k + 10));
    let cells = row.cells@;
    lemma_cells(cells, cells.len() as int, k);
    let mid = cells_glyphs(cells, k);
    let here = cell_glyphs(cells[k]);
    let after = choose|after: Seq<Glyph>| #[trigger]
        around(mid, here, after) == cells_glyphs(cells, cells.len() as int);
    let start = chars(right_padded(ts, STAMP_WIDTH as nat)) + chars(label_text(row.label));
    let rest = after + chars(tail_text(row.tail)) + chars("\n"@);
    assert(row_glyphs(ts, row) =~= Seq::<Glyph>::empty() + (start + mid + here) + rest);
    lemma_stands_in(Seq::empty(), start + mid + here, rest, row_glyphs(ts, row));
    assert(columns_taken(mid) == (10 * k) as nat);
}

/// What tells an item is as wide as what heads it: ten columns for names, sums and the numbers
/// of lines, eight for CPUs, sensors and buses.
pub proof fn law_labels_are_as_wide_as_their_headings(label: Label)
    requires
        match label {
            Label::Name(s) => vstd::utf8::is_ascii_chars(s@) && s@.len() <= 9,
            Label::Num3(n) => 0 <= n <= 999,
            Label::Num3Wide(n) => 0 <= n <= 999,
            Label::Bus(n) => 0 <= n <= 999,
            _ => true,
        },
    ensures
        label_text(label).len() == (match label {
            Label::Nothing => 0nat,
            Label::All | Label::Num3(_) | Label::Bus(_) => 8nat,
            Label::Sum | Label::Num3Wide(_) | Label::Name(_) => 10nat,
        }),
{
    reveal_strlit("");
    reveal_strlit("     all");
    reveal_strlit("     ");
    reveal_strlit("       sum");
    reveal_strlit("       ");
    reveal_strlit(" ");
    reveal_strlit("  ");
    match label {
        Label::Name(s) => vstd::utf8::is_ascii_chars_encode_utf8(s@),
        Label::Num3(n) | Label::Num3Wide(n) | Label::Bus(n) => {
            reveal_with_fuel(dec, 4);
            assert(dec(n as nat).len() <= 3);
            assert(vstd::utf8::is_ascii_chars(dec(n as nat)));
            vstd::utf8::is_ascii_chars_encode_utf8(dec(n as nat));
        },
        _ => {},
    }
}

}
