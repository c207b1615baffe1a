//! What stands below each name in the flat formats.

use vstd::prelude::*;

use crate::doc::{chars, Glyph};
use crate::model::ActivityId;
use crate::sadf::access::ItemModel;
use crate::sadf::activities::{
    cpu_model, disk_model, fs_model, huge_model, io_model, ktables_model, memory_model,
    net_dev_model, net_edev_model, net_eicmp6_model, net_eicmp_model, net_eip6_model,
    net_eip_model, net_etcp_model, net_fc_model, net_icmp6_model, net_icmp_model, net_ip6_model,
    net_ip_model, net_nfs_model, net_nfsd_model, net_sock6_model, net_sock_model, net_soft_model,
    net_tcp_model, net_udp6_model, net_udp_model, page_model, pcsw_model, psi_cpu_model,
    psi_io_model, psi_mem_model, pwr_bat_model, pwr_cpu_model, pwr_fan_model, pwr_freq_model,
    pwr_in_model, pwr_temp_model, queue_model, serial_model, swap_model,
};
use crate::sadf::column_laws::{
    flat_names, is_detail, law_names_show_their_columns, named_fields, shows_named, Named,
};
use crate::sadf::config::SadfConfig;
use crate::sadf::dbppc::{db_item, db_values, field_list_text, flat_field, flat_value, ppc_values};
use crate::sadf::render::{label_in, text_of};
use crate::sadf::table::{law_table_is_of_its_activity, table, Field, Fmt};
use crate::sadf::value::{value_shown, LabelModel};
use crate::text_laws::{lacks, law_find_is_the_first_place, lemma_find_none};

verus! {

/// Whether a name is shown.
pub open spec fn is_open(cfg: SadfConfig, e: Named) -> bool {
    !e.detail || cfg.section.mem_all
}

/// What is shown of the column that a name stands for: its text, or its value. What is not known
/// is left out.
pub open spec fn column_shown(id: ActivityId, item: ItemModel, e: Named) -> Seq<Glyph> {
    if e.fmt == Fmt::Str {
        match text_of(id, item, e.column@) {
            Some(t) => chars(t),
            None => Seq::empty(),
        }
    } else {
        value_shown(item.computed_by_name(e.column@), e.fmt, ""@).glyphs()
    }
}

/// The heading of a name in a database output. One name differs from that of the lines with one
/// value each.
pub open spec fn title(id: ActivityId, e: Named) -> Seq<char> {
    if id == ActivityId::MEMORY && e.name@ == "kbshared"@ {
        "kbshmem"@
    } else {
        e.name@
    }
}

/// The headings of the first `n` names that are shown, each behind a semicolon.
pub open spec fn titles(cfg: SadfConfig, id: ActivityId, list: Seq<Named>, n: int) -> Seq<char>
    decreases n,
{
    if n <= 0 {
        Seq::empty()
    } else if is_open(cfg, list[n - 1]) {
        titles(cfg, id, list, n - 1) + ";"@ + title(id, list[n - 1])
    } else {
        titles(cfg, id, list, n - 1)
    }
}

/// The values of the first `n` names that are shown, each behind a semicolon.
pub open spec fn values_below(
    cfg: SadfConfig,
    id: ActivityId,
    item: ItemModel,
    list: Seq<Named>,
    n: int,
) -> Seq<Glyph>
    decreases n,
{
    if n <= 0 {
        Seq::empty()
    } else if is_open(cfg, list[n - 1]) {
        values_below(cfg, id, item, list, n - 1) + chars(";"@) + column_shown(
            id,
            item,
            list[n - 1],
        )
    } else {
        values_below(cfg, id, item, list, n - 1)
    }
}

/// The lines of the first `n` names that are shown: what comes first, what tells the item, the
/// name and the value, with tabs between them.
pub open spec fn values_beside(
    cfg: SadfConfig,
    id: ActivityId,
    item: ItemModel,
    list: Seq<Named>,
    pre: Seq<char>,
    told: Seq<char>,
    n: int,
) -> Seq<Glyph>
    decreases n,
{
    if n <= 0 {
        Seq::empty()
    } else if is_open(cfg, list[n - 1]) {
        values_beside(cfg, id, item, list, pre, told, n - 1) + chars(
            pre + "\t"@ + told + "\t"@ + list[n - 1].name@ + "\t"@,
        ) + column_shown(id, item, list[n - 1]) + chars("\n"@)
    } else {
        values_beside(cfg, id, item, list, pre, told, n - 1)
    }
}

/// What heads the column that tells the items of an activity; nothing where it has none.
pub open spec fn item_title(id: ActivityId, k: int) -> Seq<char> {
    match id {
        ActivityId::CPU => ";CPU"@,
        ActivityId::NET_SOFT => ";CPU"@,
        ActivityId::PWR_CPU => ";CPU"@,
        ActivityId::PWR_FREQ => ";CPU"@,
        ActivityId::SERIAL => ";TTY"@,
        ActivityId::DISK => ";DEV"@,
        ActivityId::NET_DEV => ";IFACE"@,
        ActivityId::NET_EDEV => ";IFACE"@,
        ActivityId::NET_FC => ";FCHOST"@,
        ActivityId::PWR_FAN => ";FAN"@,
        ActivityId::PWR_TEMP => ";TEMP"@,
        ActivityId::PWR_IN => ";IN"@,
        ActivityId::PWR_BAT => ";BAT"@,
        ActivityId::FS => if k == 0 {
            ";FILESYSTEM"@
        } else {
            ";MOUNTPOINT"@
        },
        _ => ""@,
    }
}

/// Whether the names that head a section are those of a list: nothing is shown in part.
spec fn headed_by(hdr: Seq<char>, lead: Seq<char>, cfg: SadfConfig, id: ActivityId, list: Seq<Named>) -> bool {
    ";"@ + hdr == lead + titles(cfg, id, list, list.len() as int)
}

/// Whether no name of a list is a detail or holds the mark of the details.
spec fn plain_list(id: ActivityId, list: Seq<Named>) -> bool {
    forall|i: int|
        0 <= i < list.len() ==> !(#[trigger] list[i]).detail && lacks(title(id, list[i]), '&')
}

proof fn lemma_titles_lack(cfg: SadfConfig, id: ActivityId, list: Seq<Named>, n: int)
    requires
        plain_list(id, list),
        0 <= n <= list.len(),
    ensures
        lacks(titles(cfg, id, list, n), '&'),
    decreases n,
{
    if n > 0 {
        lemma_titles_lack(cfg, id, list, n - 1);
        reveal_strlit(";");
        assert(lacks(title(id, list[n - 1]), '&'));
    }
}

proof fn lemma_plain_heading(
    hdr: Seq<char>,
    lead: Seq<char>,
    cfg: SadfConfig,
    id: ActivityId,
    list: Seq<Named>,
)
    requires
        headed_by(hdr, lead, cfg, id, list),
        plain_list(id, list),
        lacks(lead, '&'),
    ensures
        ";"@ + cfg.section.expanded(hdr) == lead + titles(cfg, id, list, list.len() as int),
{
    lemma_titles_lack(cfg, id, list, list.len() as int);
    let all = lead + titles(cfg, id, list, list.len() as int);
    reveal_strlit(";");
    assert forall|i: int| 0 <= i < hdr.len() implies #[trigger] hdr[i] != '&' by {
        assert(all == ";"@ + hdr);
        assert(all.len() == hdr.len() + 1);
        assert(all[i + 1] == hdr[i]);
        if i + 1 < lead.len() {
            assert(all[i + 1] == lead[i + 1]);
        } else {
            assert(all[i + 1] == titles(cfg, id, list, list.len() as int)[i + 1 - lead.len()]);
        }
    }
    lemma_find_none(hdr, '&');
}

proof fn lemma_cpu_0(cfg: SadfConfig)
    ensures
        is_headed(cfg, ActivityId::CPU, 0),
{
    reveal(cpu_model);
    let id = ActivityId::CPU;
    let list = flat_names(id, 0);
    reveal_with_fuel(titles, 7);
    reveal_strlit(";");
    reveal_strlit(";CPU");
    reveal_strlit("CPU;%user;%nice;%system;%iowait;%steal;%idle");
    reveal_strlit("%user");
    reveal_strlit("%nice");
    reveal_strlit("%system");
    reveal_strlit("%iowait");
    reveal_strlit("%steal");
    reveal_strlit("%idle");
    let hdr = "CPU;%user;%nice;%system;%iowait;%steal;%idle"@;
    assert(";"@ + hdr =~= ";CPU"@ + titles(cfg, id, list, 6));
    assert(plain_list(id, list));
    assert(lacks(";CPU"@, '&'));
    lemma_plain_heading(hdr, ";CPU"@, cfg, id, list);
}

proof fn lemma_cpu_1(cfg: SadfConfig)
    ensures
        is_headed(cfg, ActivityId::CPU, 1),
{
    reveal(cpu_model);
    let id = ActivityId::CPU;
    let list = flat_names(id, 1);
    reveal_with_fuel(titles, 11);
    reveal_strlit(";");
    reveal_strlit(";CPU");
    reveal_strlit("CPU;%usr;%nice;%sys;%iowait;%steal;%irq;%soft;%guest;%gnice;%idle");
    reveal_strlit("%usr");
    reveal_strlit("%nice");
    reveal_strlit("%sys");
    reveal_strlit("%iowait");
    reveal_strlit("%steal");
    reveal_strlit("%irq");
    reveal_strlit("%soft");
    reveal_strlit("%guest");
    reveal_strlit("%gnice");
    reveal_strlit("%idle");
    let hdr = "CPU;%usr;%nice;%sys;%iowait;%steal;%irq;%soft;%guest;%gnice;%idle"@;
    assert(";"@ + hdr =~= ";CPU"@ + titles(cfg, id, list, 10));
    assert(plain_list(id, list));
    assert(lacks(";CPU"@, '&'));
    lemma_plain_heading(hdr, ";CPU"@, cfg, id, list);
}

proof fn lemma_pcsw_0(cfg: SadfConfig)
    ensures
        is_headed(cfg, ActivityId::PCSW, 0),
{
    reveal(pcsw_model);
    let id = ActivityId::PCSW;
    let list = flat_names(id, 0);
    reveal_with_fuel(titles, 3);
    reveal_strlit(";");
    reveal_strlit("");
    reveal_strlit("proc/s;cswch/s");
    reveal_strlit("proc/s");
    reveal_strlit("cswch/s");
    let hdr = "proc/s;cswch/s"@;
    assert(";"@ + hdr =~= ""@ + titles(cfg, id, list, 2));
    assert(plain_list(id, list));
    assert(lacks(""@, '&'));
    lemma_plain_heading(hdr, ""@, cfg, id, list);
}

proof fn lemma_swap_0(cfg: SadfConfig)
    ensures
        is_headed(cfg, ActivityId::SWAP, 0),
{
    reveal(swap_model);
    let id = ActivityId::SWAP;
    let list = flat_names(id, 0);
    reveal_with_fuel(titles, 3);
    reveal_strlit(";");
    reveal_strlit("");
    reveal_strlit("pswpin/s;pswpout/s");
    reveal_strlit("pswpin/s");
    reveal_strlit("pswpout/s");
    let hdr = "pswpin/s;pswpout/s"@;
    assert(";"@ + hdr =~= ""@ + titles(cfg, id, list, 2));
    assert(plain_list(id, list));
    assert(lacks(""@, '&'));
    lemma_plain_heading(hdr, ""@, cfg, id, list);
}

proof fn lemma_page_0(cfg: SadfConfig)
    ensures
        is_headed(cfg, ActivityId::PAGE, 0),
{
    reveal(page_model);
    let id = ActivityId::PAGE;
    let list = flat_names(id, 0);
    reveal_with_fuel(titles, 11);
    reveal_strlit(";");
    reveal_strlit("");
    reveal_strlit("pgpgin/s;pgpgout/s;fault/s;majflt/s;pgfree/s;pgscank/s;pgscand/s;pgsteal/s;pgprom/s;pgdem/s");
    reveal_strlit("pgpgin/s");
    reveal_strlit("pgpgout/s");
    reveal_strlit("fault/s");
    reveal_strlit("majflt/s");
    reveal_strlit("pgfree/s");
    reveal_strlit("pgscank/s");
    reveal_strlit("pgscand/s");
    reveal_strlit("pgsteal/s");
    reveal_strlit("pgprom/s");
    reveal_strlit("pgdem/s");
    let hdr = "pgpgin/s;pgpgout/s;fault/s;majflt/s;pgfree/s;pgscank/s;pgscand/s;pgsteal/s;pgprom/s;pgdem/s"@;
    assert(";"@ + hdr =~= ""@ + titles(cfg, id, list, 10));
    assert(plain_list(id, list));
    assert(lacks(""@, '&'));
    lemma_plain_heading(hdr, ""@, cfg, id, list);
}

proof fn lemma_io_0(cfg: SadfConfig)
    ensures
        is_headed(cfg, ActivityId::IO, 0),
{
    reveal(io_model);
    let id = ActivityId::IO;
    let list = flat_names(id, 0);
    reveal_with_fuel(titles, 8);
    reveal_strlit(";");
    reveal_strlit("");
    reveal_strlit("tps;rtps;wtps;dtps;bread/s;bwrtn/s;bdscd/s");
    reveal_strlit("tps");
    reveal_strlit("rtps");
    reveal_strlit("wtps");
    reveal_strlit("dtps");
    reveal_strlit("bread/s");
    reveal_strlit("bwrtn/s");
    reveal_strlit("bdscd/s");
    let hdr = "tps;rtps;wtps;dtps;bread/s;bwrtn/s;bdscd/s"@;
    assert(";"@ + hdr =~= ""@ + titles(cfg, id, list, 7));
    assert(plain_list(id, list));
    assert(lacks(""@, '&'));
    lemma_plain_heading(hdr, ""@, cfg, id, list);
}

proof fn lemma_memory_1(cfg: SadfConfig)
    ensures
        is_headed(cfg, ActivityId::MEMORY, 1),
{
    reveal(memory_model);
    let id = ActivityId::MEMORY;
    let list = flat_names(id, 1);
    reveal_with_fuel(titles, 6);
    reveal_strlit(";");
    reveal_strlit("");
    reveal_strlit("kbswpfree;kbswpused;%swpused;kbswpcad;%swpcad");
    reveal_strlit("kbswpfree");
    reveal_strlit("kbswpused");
    reveal_strlit("%swpused");
    reveal_strlit("kbswpcad");
    reveal_strlit("%swpcad");
    reveal_strlit("kbshared");
    assert("kbswpfree"@.len() != "kbshared"@.len());
    assert("kbswpused"@.len() != "kbshared"@.len());
    assert("%swpused"@[0] != "kbshared"@[0]);
    assert("kbswpcad"@[3] != "kbshared"@[3]);
    assert("%swpcad"@.len() != "kbshared"@.len());
    let hdr = "kbswpfree;kbswpused;%swpused;kbswpcad;%swpcad"@;
    assert(";"@ + hdr =~= ""@ + titles(cfg, id, list, 5));
    assert(plain_list(id, list));
    assert(lacks(""@, '&'));
    lemma_plain_heading(hdr, ""@, cfg, id, list);
}

proof fn lemma_huge_0(cfg: SadfConfig)
    ensures
        is_headed(cfg, ActivityId::HUGE, 0),
{
    reveal(huge_model);
    let id = ActivityId::HUGE;
    let list = flat_names(id, 0);
    reveal_with_fuel(titles, 6);
    reveal_strlit(";");
    reveal_strlit("");
    reveal_strlit("kbhugfree;kbhugused;%hugused;kbhugrsvd;kbhugsurp");
    reveal_strlit("kbhugfree");
    reveal_strlit("kbhugused");
    reveal_strlit("%hugused");
    reveal_strlit("kbhugrsvd");
    reveal_strlit("kbhugsurp");
    let hdr = "kbhugfree;kbhugused;%hugused;kbhugrsvd;kbhugsurp"@;
    assert(";"@ + hdr =~= ""@ + titles(cfg, id, list, 5));
    assert(plain_list(id, list));
    assert(lacks(""@, '&'));
    lemma_plain_heading(hdr, ""@, cfg, id, list);
}

proof fn lemma_ktables_0(cfg: SadfConfig)
    ensures
        is_headed(cfg, ActivityId::KTABLES, 0),
{
    reveal(ktables_model);
    let id = ActivityId::KTABLES;
    let list = flat_names(id, 0);
    reveal_with_fuel(titles, 5);
    reveal_strlit(";");
    reveal_strlit("");
    reveal_strlit("dentunusd;file-nr;inode-nr;pty-nr");
    reveal_strlit("dentunusd");
    reveal_strlit("file-nr");
    reveal_strlit("inode-nr");
    reveal_strlit("pty-nr");
    let hdr = "dentunusd;file-nr;inode-nr;pty-nr"@;
    assert(";"@ + hdr =~= ""@ + titles(cfg, id, list, 4));
    assert(plain_list(id, list));
    assert(lacks(""@, '&'));
    lemma_plain_heading(hdr, ""@, cfg, id, list);
}

proof fn lemma_queue_0(cfg: SadfConfig)
    ensures
        is_headed(cfg, ActivityId::QUEUE, 0),
{
    reveal(queue_model);
    let id = ActivityId::QUEUE;
    let list = flat_names(id, 0);
    reveal_with_fuel(titles, 7);
    reveal_strlit(";");
    reveal_strlit("");
    reveal_strlit("runq-sz;plist-sz;ldavg-1;ldavg-5;ldavg-15;blocked");
    reveal_strlit("runq-sz");
    reveal_strlit("plist-sz");
    reveal_strlit("ldavg-1");
    reveal_strlit("ldavg-5");
    reveal_strlit("ldavg-15");
    reveal_strlit("blocked");
    let hdr = "runq-sz;plist-sz;ldavg-1;ldavg-5;ldavg-15;blocked"@;
    assert(";"@ + hdr =~= ""@ + titles(cfg, id, list, 6));
    assert(plain_list(id, list));
    assert(lacks(""@, '&'));
    lemma_plain_heading(hdr, ""@, cfg, id, list);
}

proof fn lemma_serial_0(cfg: SadfConfig)
    ensures
        is_headed(cfg, ActivityId::SERIAL, 0),
{
    reveal(serial_model);
    let id = ActivityId::SERIAL;
    let list = flat_names(id, 0);
    reveal_with_fuel(titles, 7);
    reveal_strlit(";");
    reveal_strlit(";TTY");
    reveal_strlit("TTY;rcvin/s;xmtin/s;framerr/s;prtyerr/s;brk/s;ovrun/s");
    reveal_strlit("rcvin/s");
    reveal_strlit("xmtin/s");
    reveal_strlit("framerr/s");
    reveal_strlit("prtyerr/s");
    reveal_strlit("brk/s");
    reveal_strlit("ovrun/s");
    let hdr = "TTY;rcvin/s;xmtin/s;framerr/s;prtyerr/s;brk/s;ovrun/s"@;
    assert(";"@ + hdr =~= ";TTY"@ + titles(cfg, id, list, 6));
    assert(plain_list(id, list));
    assert(lacks(";TTY"@, '&'));
    lemma_plain_heading(hdr, ";TTY"@, cfg, id, list);
}

proof fn lemma_disk_0(cfg: SadfConfig)
    ensures
        is_headed(cfg, ActivityId::DISK, 0),
{
    reveal(disk_model);
    let id = ActivityId::DISK;
    let list = flat_names(id, 0);
    reveal_with_fuel(titles, 9);
    reveal_strlit(";");
    reveal_strlit(";DEV");
    reveal_strlit("DEV;tps;rkB/s;wkB/s;dkB/s;areq-sz;aqu-sz;await;%util");
    reveal_strlit("tps");
    reveal_strlit("rkB/s");
    reveal_strlit("wkB/s");
    reveal_strlit("dkB/s");
    reveal_strlit("areq-sz");
    reveal_strlit("aqu-sz");
    reveal_strlit("await");
    reveal_strlit("%util");
    let hdr = "DEV;tps;rkB/s;wkB/s;dkB/s;areq-sz;aqu-sz;await;%util"@;
    assert(";"@ + hdr =~= ";DEV"@ + titles(cfg, id, list, 8));
    assert(plain_list(id, list));
    assert(lacks(";DEV"@, '&'));
    lemma_plain_heading(hdr, ";DEV"@, cfg, id, list);
}

proof fn lemma_net_dev_0(cfg: SadfConfig)
    ensures
        is_headed(cfg, ActivityId::NET_DEV, 0),
{
    reveal(net_dev_model);
    let id = ActivityId::NET_DEV;
    let list = flat_names(id, 0);
    reveal_with_fuel(titles, 9);
    reveal_strlit(";");
    reveal_strlit(";IFACE");
    reveal_strlit("IFACE;rxpck/s;txpck/s;rxkB/s;txkB/s;rxcmp/s;txcmp/s;rxmcst/s;%ifutil");
    reveal_strlit("rxpck/s");
    reveal_strlit("txpck/s");
    reveal_strlit("rxkB/s");
    reveal_strlit("txkB/s");
    reveal_strlit("rxcmp/s");
    reveal_strlit("txcmp/s");
    reveal_strlit("rxmcst/s");
    reveal_strlit("%ifutil");
    let hdr = "IFACE;rxpck/s;txpck/s;rxkB/s;txkB/s;rxcmp/s;txcmp/s;rxmcst/s;%ifutil"@;
    assert(";"@ + hdr =~= ";IFACE"@ + titles(cfg, id, list, 8));
    assert(plain_list(id, list));
    assert(lacks(";IFACE"@, '&'));
    lemma_plain_heading(hdr, ";IFACE"@, cfg, id, list);
}

proof fn lemma_net_edev_0(cfg: SadfConfig)
    ensures
        is_headed(cfg, ActivityId::NET_EDEV, 0),
{
    reveal(net_edev_model);
    let id = ActivityId::NET_EDEV;
    let list = flat_names(id, 0);
    reveal_with_fuel(titles, 10);
    reveal_strlit(";");
    reveal_strlit(";IFACE");
    reveal_strlit("IFACE;rxerr/s;txerr/s;coll/s;rxdrop/s;txdrop/s;txcarr/s;rxfram/s;rxfifo/s;txfifo/s");
    reveal_strlit("rxerr/s");
    reveal_strlit("txerr/s");
    reveal_strlit("coll/s");
    reveal_strlit("rxdrop/s");
    reveal_strlit("txdrop/s");
    reveal_strlit("txcarr/s");
    reveal_strlit("rxfram/s");
    reveal_strlit("rxfifo/s");
    reveal_strlit("txfifo/s");
    let hdr = "IFACE;rxerr/s;txerr/s;coll/s;rxdrop/s;txdrop/s;txcarr/s;rxfram/s;rxfifo/s;txfifo/s"@;
    assert(";"@ + hdr =~= ";IFACE"@ + titles(cfg, id, list, 9));
    assert(plain_list(id, list));
    assert(lacks(";IFACE"@, '&'));
    lemma_plain_heading(hdr, ";IFACE"@, cfg, id, list);
}

proof fn lemma_net_nfs_0(cfg: SadfConfig)
    ensures
        is_headed(cfg, ActivityId::NET_NFS, 0),
{
    reveal(net_nfs_model);
    let id = ActivityId::NET_NFS;
    let list = flat_names(id, 0);
    reveal_with_fuel(titles, 7);
    reveal_strlit(";");
    reveal_strlit("");
    reveal_strlit("call/s;retrans/s;read/s;write/s;access/s;getatt/s");
    reveal_strlit("call/s");
    reveal_strlit("retrans/s");
    reveal_strlit("read/s");
    reveal_strlit("write/s");
    reveal_strlit("access/s");
    reveal_strlit("getatt/s");
    let hdr = "call/s;retrans/s;read/s;write/s;access/s;getatt/s"@;
    assert(";"@ + hdr =~= ""@ + titles(cfg, id, list, 6));
    assert(plain_list(id, list));
    assert(lacks(""@, '&'));
    lemma_plain_heading(hdr, ""@, cfg, id, list);
}

proof fn lemma_net_nfsd_0(cfg: SadfConfig)
    ensures
        is_headed(cfg, ActivityId::NET_NFSD, 0),
{
    reveal(net_nfsd_model);
    let id = ActivityId::NET_NFSD;
    let list = flat_names(id, 0);
    reveal_with_fuel(titles, 12);
    reveal_strlit(";");
    reveal_strlit("");
    reveal_strlit("scall/s;badcall/s;packet/s;udp/s;tcp/s;hit/s;miss/s;sread/s;swrite/s;saccess/s;sgetatt/s");
    reveal_strlit("scall/s");
    reveal_strlit("badcall/s");
    reveal_strlit("packet/s");
    reveal_strlit("udp/s");
    reveal_strlit("tcp/s");
    reveal_strlit("hit/s");
    reveal_strlit("miss/s");
    reveal_strlit("sread/s");
    reveal_strlit("swrite/s");
    reveal_strlit("saccess/s");
    reveal_strlit("sgetatt/s");
    let hdr = "scall/s;badcall/s;packet/s;udp/s;tcp/s;hit/s;miss/s;sread/s;swrite/s;saccess/s;sgetatt/s"@;
    assert(";"@ + hdr =~= ""@ + titles(cfg, id, list, 11));
    assert(plain_list(id, list));
    assert(lacks(""@, '&'));
    lemma_plain_heading(hdr, ""@, cfg, id, list);
}

proof fn lemma_net_sock_0(cfg: SadfConfig)
    ensures
        is_headed(cfg, ActivityId::NET_SOCK, 0),
{
    reveal(net_sock_model);
    let id = ActivityId::NET_SOCK;
    let list = flat_names(id, 0);
    reveal_with_fuel(titles, 7);
    reveal_strlit(";");
    reveal_strlit("");
    reveal_strlit("totsck;tcpsck;udpsck;rawsck;ip-frag;tcp-tw");
    reveal_strlit("totsck");
    reveal_strlit("tcpsck");
    reveal_strlit("udpsck");
    reveal_strlit("rawsck");
    reveal_strlit("ip-frag");
    reveal_strlit("tcp-tw");
    let hdr = "totsck;tcpsck;udpsck;rawsck;ip-frag;tcp-tw"@;
    assert(";"@ + hdr =~= ""@ + titles(cfg, id, list, 6));
    assert(plain_list(id, list));
    assert(lacks(""@, '&'));
    lemma_plain_heading(hdr, ""@, cfg, id, list);
}

proof fn lemma_net_ip_0(cfg: SadfConfig)
    ensures
        is_headed(cfg, ActivityId::NET_IP, 0),
{
    reveal(net_ip_model);
    let id = ActivityId::NET_IP;
    let list = flat_names(id, 0);
    reveal_with_fuel(titles, 9);
    reveal_strlit(";");
    reveal_strlit("");
    reveal_strlit("irec/s;fwddgm/s;idel/s;orq/s;asmrq/s;asmok/s;fragok/s;fragcrt/s");
    reveal_strlit("irec/s");
    reveal_strlit("fwddgm/s");
    reveal_strlit("idel/s");
    reveal_strlit("orq/s");
    reveal_strlit("asmrq/s");
    reveal_strlit("asmok/s");
    reveal_strlit("fragok/s");
    reveal_strlit("fragcrt/s");
    let hdr = "irec/s;fwddgm/s;idel/s;orq/s;asmrq/s;asmok/s;fragok/s;fragcrt/s"@;
    assert(";"@ + hdr =~= ""@ + titles(cfg, id, list, 8));
    assert(plain_list(id, list));
    assert(lacks(""@, '&'));
    lemma_plain_heading(hdr, ""@, cfg, id, list);
}

proof fn lemma_net_eip_0(cfg: SadfConfig)
    ensures
        is_headed(cfg, ActivityId::NET_EIP, 0),
{
    reveal(net_eip_model);
    let id = ActivityId::NET_EIP;
    let list = flat_names(id, 0);
    reveal_with_fuel(titles, 9);
    reveal_strlit(";");
    reveal_strlit("");
    reveal_strlit("ihdrerr/s;iadrerr/s;iukwnpr/s;idisc/s;odisc/s;onort/s;asmf/s;fragf/s");
    reveal_strlit("ihdrerr/s");
    reveal_strlit("iadrerr/s");
    reveal_strlit("iukwnpr/s");
    reveal_strlit("idisc/s");
    reveal_strlit("odisc/s");
    reveal_strlit("onort/s");
    reveal_strlit("asmf/s");
    reveal_strlit("fragf/s");
    let hdr = "ihdrerr/s;iadrerr/s;iukwnpr/s;idisc/s;odisc/s;onort/s;asmf/s;fragf/s"@;
    assert(";"@ + hdr =~= ""@ + titles(cfg, id, list, 8));
    assert(plain_list(id, list));
    assert(lacks(""@, '&'));
    lemma_plain_heading(hdr, ""@, cfg, id, list);
}

proof fn lemma_net_icmp_0(cfg: SadfConfig)
    ensures
        is_headed(cfg, ActivityId::NET_ICMP, 0),
{
    reveal(net_icmp_model);
    let id = ActivityId::NET_ICMP;
    let list = flat_names(id, 0);
    reveal_with_fuel(titles, 15);
    reveal_strlit(";");
    reveal_strlit("");
    reveal_strlit("imsg/s;omsg/s;iech/s;iechr/s;oech/s;oechr/s;itm/s;itmr/s;otm/s;otmr/s;iadrmk/s;iadrmkr/s;oadrmk/s;oadrmkr/s");
    reveal_strlit("imsg/s");
    reveal_strlit("omsg/s");
    reveal_strlit("iech/s");
    reveal_strlit("iechr/s");
    reveal_strlit("oech/s");
    reveal_strlit("oechr/s");
    reveal_strlit("itm/s");
    reveal_strlit("itmr/s");
    reveal_strlit("otm/s");
    reveal_strlit("otmr/s");
    reveal_strlit("iadrmk/s");
    reveal_strlit("iadrmkr/s");
    reveal_strlit("oadrmk/s");
    reveal_strlit("oadrmkr/s");
    let hdr = "imsg/s;omsg/s;iech/s;iechr/s;oech/s;oechr/s;itm/s;itmr/s;otm/s;otmr/s;iadrmk/s;iadrmkr/s;oadrmk/s;oadrmkr/s"@;
    assert(";"@ + hdr =~= ""@ + titles(cfg, id, list, 14));
    assert(plain_list(id, list));
    assert(lacks(""@, '&'));
    lemma_plain_heading(hdr, ""@, cfg, id, list);
}

proof fn lemma_net_eicmp_0(cfg: SadfConfig)
    ensures
        is_headed(cfg, ActivityId::NET_EICMP, 0),
{
    reveal(net_eicmp_model);
    let id = ActivityId::NET_EICMP;
    let list = flat_names(id, 0);
    reveal_with_fuel(titles, 13);
    reveal_strlit(";");
    reveal_strlit("");
    reveal_strlit("ierr/s;oerr/s;idstunr/s;odstunr/s;itmex/s;otmex/s;iparmpb/s;oparmpb/s;isrcq/s;osrcq/s;iredir/s;oredir/s");
    reveal_strlit("ierr/s");
    reveal_strlit("oerr/s");
    reveal_strlit("idstunr/s");
    reveal_strlit("odstunr/s");
    reveal_strlit("itmex/s");
    reveal_strlit("otmex/s");
    reveal_strlit("iparmpb/s");
    reveal_strlit("oparmpb/s");
    reveal_strlit("isrcq/s");
    reveal_strlit("osrcq/s");
    reveal_strlit("iredir/s");
    reveal_strlit("oredir/s");
    let hdr = "ierr/s;oerr/s;idstunr/s;odstunr/s;itmex/s;otmex/s;iparmpb/s;oparmpb/s;isrcq/s;osrcq/s;iredir/s;oredir/s"@;
    assert(";"@ + hdr =~= ""@ + titles(cfg, id, list, 12));
    assert(plain_list(id, list));
    assert(lacks(""@, '&'));
    lemma_plain_heading(hdr, ""@, cfg, id, list);
}

proof fn lemma_net_tcp_0(cfg: SadfConfig)
    ensures
        is_headed(cfg, ActivityId::NET_TCP, 0),
{
    reveal(net_tcp_model);
    let id = ActivityId::NET_TCP;
    let list = flat_names(id, 0);
    reveal_with_fuel(titles, 5);
    reveal_strlit(";");
    reveal_strlit("");
    reveal_strlit("active/s;passive/s;iseg/s;oseg/s");
    reveal_strlit("active/s");
    reveal_strlit("passive/s");
    reveal_strlit("iseg/s");
    reveal_strlit("oseg/s");
    let hdr = "active/s;passive/s;iseg/s;oseg/s"@;
    assert(";"@ + hdr =~= ""@ + titles(cfg, id, list, 4));
    assert(plain_list(id, list));
    assert(lacks(""@, '&'));
    lemma_plain_heading(hdr, ""@, cfg, id, list);
}

proof fn lemma_net_etcp_0(cfg: SadfConfig)
    ensures
        is_headed(cfg, ActivityId::NET_ETCP, 0),
{
    reveal(net_etcp_model);
    let id = ActivityId::NET_ETCP;
    let list = flat_names(id, 0);
    reveal_with_fuel(titles, 6);
    reveal_strlit(";");
    reveal_strlit("");
    reveal_strlit("atmptf/s;estres/s;retrseg/s;isegerr/s;orsts/s");
    reveal_strlit("atmptf/s");
    reveal_strlit("estres/s");
    reveal_strlit("retrseg/s");
    reveal_strlit("isegerr/s");
    reveal_strlit("orsts/s");
    let hdr = "atmptf/s;estres/s;retrseg/s;isegerr/s;orsts/s"@;
    assert(";"@ + hdr =~= ""@ + titles(cfg, id, list, 5));
    assert(plain_list(id, list));
    assert(lacks(""@, '&'));
    lemma_plain_heading(hdr, ""@, cfg, id, list);
}

proof fn lemma_net_udp_0(cfg: SadfConfig)
    ensures
        is_headed(cfg, ActivityId::NET_UDP, 0),
{
    reveal(net_udp_model);
    let id = ActivityId::NET_UDP;
    let list = flat_names(id, 0);
    reveal_with_fuel(titles, 5);
    reveal_strlit(";");
    reveal_strlit("");
    reveal_strlit("idgm/s;odgm/s;noport/s;idgmerr/s");
    reveal_strlit("idgm/s");
    reveal_strlit("odgm/s");
    reveal_strlit("noport/s");
    reveal_strlit("idgmerr/s");
    let hdr = "idgm/s;odgm/s;noport/s;idgmerr/s"@;
    assert(";"@ + hdr =~= ""@ + titles(cfg, id, list, 4));
    assert(plain_list(id, list));
    assert(lacks(""@, '&'));
    lemma_plain_heading(hdr, ""@, cfg, id, list);
}

proof fn lemma_net_sock6_0(cfg: SadfConfig)
    ensures
        is_headed(cfg, ActivityId::NET_SOCK6, 0),
{
    reveal(net_sock6_model);
    let id = ActivityId::NET_SOCK6;
    let list = flat_names(id, 0);
    reveal_with_fuel(titles, 5);
    reveal_strlit(";");
    reveal_strlit("");
    reveal_strlit("tcp6sck;udp6sck;raw6sck;ip6-frag");
    reveal_strlit("tcp6sck");
    reveal_strlit("udp6sck");
    reveal_strlit("raw6sck");
    reveal_strlit("ip6-frag");
    let hdr = "tcp6sck;udp6sck;raw6sck;ip6-frag"@;
    assert(";"@ + hdr =~= ""@ + titles(cfg, id, list, 4));
    assert(plain_list(id, list));
    assert(lacks(""@, '&'));
    lemma_plain_heading(hdr, ""@, cfg, id, list);
}

proof fn lemma_net_ip6_0(cfg: SadfConfig)
    ensures
        is_headed(cfg, ActivityId::NET_IP6, 0),
{
    reveal(net_ip6_model);
    let id = ActivityId::NET_IP6;
    let list = flat_names(id, 0);
    reveal_with_fuel(titles, 11);
    reveal_strlit(";");
    reveal_strlit("");
    reveal_strlit("irec6/s;fwddgm6/s;idel6/s;orq6/s;asmrq6/s;asmok6/s;imcpck6/s;omcpck6/s;fragok6/s;fragcr6/s");
    reveal_strlit("irec6/s");
    reveal_strlit("fwddgm6/s");
    reveal_strlit("idel6/s");
    reveal_strlit("orq6/s");
    reveal_strlit("asmrq6/s");
    reveal_strlit("asmok6/s");
    reveal_strlit("imcpck6/s");
    reveal_strlit("omcpck6/s");
    reveal_strlit("fragok6/s");
    reveal_strlit("fragcr6/s");
    let hdr = "irec6/s;fwddgm6/s;idel6/s;orq6/s;asmrq6/s;asmok6/s;imcpck6/s;omcpck6/s;fragok6/s;fragcr6/s"@;
    assert(";"@ + hdr =~= ""@ + titles(cfg, id, list, 10));
    assert(plain_list(id, list));
    assert(lacks(""@, '&'));
    lemma_plain_heading(hdr, ""@, cfg, id, list);
}

proof fn lemma_net_eip6_0(cfg: SadfConfig)
    ensures
        is_headed(cfg, ActivityId::NET_EIP6, 0),
{
    reveal(net_eip6_model);
    let id = ActivityId::NET_EIP6;
    let list = flat_names(id, 0);
    reveal_with_fuel(titles, 12);
    reveal_strlit(";");
    reveal_strlit("");
    reveal_strlit("ihdrer6/s;iadrer6/s;iukwnp6/s;i2big6/s;idisc6/s;odisc6/s;inort6/s;onort6/s;asmf6/s;fragf6/s;itrpck6/s");
    reveal_strlit("ihdrer6/s");
    reveal_strlit("iadrer6/s");
    reveal_strlit("iukwnp6/s");
    reveal_strlit("i2big6/s");
    reveal_strlit("idisc6/s");
    reveal_strlit("odisc6/s");
    reveal_strlit("inort6/s");
    reveal_strlit("onort6/s");
    reveal_strlit("asmf6/s");
    reveal_strlit("fragf6/s");
    reveal_strlit("itrpck6/s");
    let hdr = "ihdrer6/s;iadrer6/s;iukwnp6/s;i2big6/s;idisc6/s;odisc6/s;inort6/s;onort6/s;asmf6/s;fragf6/s;itrpck6/s"@;
    assert(";"@ + hdr =~= ""@ + titles(cfg, id, list, 11));
    assert(plain_list(id, list));
    assert(lacks(""@, '&'));
    lemma_plain_heading(hdr, ""@, cfg, id, list);
}

proof fn lemma_net_icmp6_0(cfg: SadfConfig)
    ensures
        is_headed(cfg, ActivityId::NET_ICMP6, 0),
{
    reveal(net_icmp6_model);
    let id = ActivityId::NET_ICMP6;
    let list = flat_names(id, 0);
    reveal_with_fuel(titles, 18);
    reveal_strlit(";");
    reveal_strlit("");
    reveal_strlit("imsg6/s;omsg6/s;iech6/s;iechr6/s;oechr6/s;igmbq6/s;igmbr6/s;ogmbr6/s;igmbrd6/s;ogmbrd6/s;irtsol6/s;ortsol6/s;irtad6/s;inbsol6/s;onbsol6/s;inbad6/s;onbad6/s");
    reveal_strlit("imsg6/s");
    reveal_strlit("omsg6/s");
    reveal_strlit("iech6/s");
    reveal_strlit("iechr6/s");
    reveal_strlit("oechr6/s");
    reveal_strlit("igmbq6/s");
    reveal_strlit("igmbr6/s");
    reveal_strlit("ogmbr6/s");
    reveal_strlit("igmbrd6/s");
    reveal_strlit("ogmbrd6/s");
    reveal_strlit("irtsol6/s");
    reveal_strlit("ortsol6/s");
    reveal_strlit("irtad6/s");
    reveal_strlit("inbsol6/s");
    reveal_strlit("onbsol6/s");
    reveal_strlit("inbad6/s");
    reveal_strlit("onbad6/s");
    let hdr = "imsg6/s;omsg6/s;iech6/s;iechr6/s;oechr6/s;igmbq6/s;igmbr6/s;ogmbr6/s;igmbrd6/s;ogmbrd6/s;irtsol6/s;ortsol6/s;irtad6/s;inbsol6/s;onbsol6/s;inbad6/s;onbad6/s"@;
    assert(";"@ + hdr =~= ""@ + titles(cfg, id, list, 17));
    assert(plain_list(id, list));
    assert(lacks(""@, '&'));
    lemma_plain_heading(hdr, ""@, cfg, id, list);
}

proof fn lemma_net_eicmp6_0(cfg: SadfConfig)
    ensures
        is_headed(cfg, ActivityId::NET_EICMP6, 0),
{
    reveal(net_eicmp6_model);
    let id = ActivityId::NET_EICMP6;
    let list = flat_names(id, 0);
    reveal_with_fuel(titles, 12);
    reveal_strlit(";");
    reveal_strlit("");
    reveal_strlit("ierr6/s;idtunr6/s;odtunr6/s;itmex6/s;otmex6/s;iprmpb6/s;oprmpb6/s;iredir6/s;oredir6/s;ipck2b6/s;opck2b6/s");
    reveal_strlit("ierr6/s");
    reveal_strlit("idtunr6/s");
    reveal_strlit("odtunr6/s");
    reveal_strlit("itmex6/s");
    reveal_strlit("otmex6/s");
    reveal_strlit("iprmpb6/s");
    reveal_strlit("oprmpb6/s");
    reveal_strlit("iredir6/s");
    reveal_strlit("oredir6/s");
    reveal_strlit("ipck2b6/s");
    reveal_strlit("opck2b6/s");
    let hdr = "ierr6/s;idtunr6/s;odtunr6/s;itmex6/s;otmex6/s;iprmpb6/s;oprmpb6/s;iredir6/s;oredir6/s;ipck2b6/s;opck2b6/s"@;
    assert(";"@ + hdr =~= ""@ + titles(cfg, id, list, 11));
    assert(plain_list(id, list));
    assert(lacks(""@, '&'));
    lemma_plain_heading(hdr, ""@, cfg, id, list);
}

proof fn lemma_net_udp6_0(cfg: SadfConfig)
    ensures
        is_headed(cfg, ActivityId::NET_UDP6, 0),
{
    reveal(net_udp6_model);
    let id = ActivityId::NET_UDP6;
    let list = flat_names(id, 0);
    reveal_with_fuel(titles, 5);
    reveal_strlit(";");
    reveal_strlit("");
    reveal_strlit("idgm6/s;odgm6/s;noport6/s;idgmer6/s");
    reveal_strlit("idgm6/s");
    reveal_strlit("odgm6/s");
    reveal_strlit("noport6/s");
    reveal_strlit("idgmer6/s");
    let hdr = "idgm6/s;odgm6/s;noport6/s;idgmer6/s"@;
    assert(";"@ + hdr =~= ""@ + titles(cfg, id, list, 4));
    assert(plain_list(id, list));
    assert(lacks(""@, '&'));
    lemma_plain_heading(hdr, ""@, cfg, id, list);
}

proof fn lemma_net_fc_0(cfg: SadfConfig)
    ensures
        is_headed(cfg, ActivityId::NET_FC, 0),
{
    reveal(net_fc_model);
    let id = ActivityId::NET_FC;
    let list = flat_names(id, 0);
    reveal_with_fuel(titles, 5);
    reveal_strlit(";");
    reveal_strlit(";FCHOST");
    reveal_strlit("FCHOST;fch_rxf/s;fch_txf/s;fch_rxw/s;fch_txw/s");
    reveal_strlit("fch_rxf/s");
    reveal_strlit("fch_txf/s");
    reveal_strlit("fch_rxw/s");
    reveal_strlit("fch_txw/s");
    let hdr = "FCHOST;fch_rxf/s;fch_txf/s;fch_rxw/s;fch_txw/s"@;
    assert(";"@ + hdr =~= ";FCHOST"@ + titles(cfg, id, list, 4));
    assert(plain_list(id, list));
    assert(lacks(";FCHOST"@, '&'));
    lemma_plain_heading(hdr, ";FCHOST"@, cfg, id, list);
}

proof fn lemma_net_soft_0(cfg: SadfConfig)
    ensures
        is_headed(cfg, ActivityId::NET_SOFT, 0),
{
    reveal(net_soft_model);
    let id = ActivityId::NET_SOFT;
    let list = flat_names(id, 0);
    reveal_with_fuel(titles, 7);
    reveal_strlit(";");
    reveal_strlit(";CPU");
    reveal_strlit("CPU;total/s;dropd/s;squeezd/s;rx_rps/s;flw_lim/s;blg_len");
    reveal_strlit("total/s");
    reveal_strlit("dropd/s");
    reveal_strlit("squeezd/s");
    reveal_strlit("rx_rps/s");
    reveal_strlit("flw_lim/s");
    reveal_strlit("blg_len");
    let hdr = "CPU;total/s;dropd/s;squeezd/s;rx_rps/s;flw_lim/s;blg_len"@;
    assert(";"@ + hdr =~= ";CPU"@ + titles(cfg, id, list, 6));
    assert(plain_list(id, list));
    assert(lacks(";CPU"@, '&'));
    lemma_plain_heading(hdr, ";CPU"@, cfg, id, list);
}

proof fn lemma_pwr_cpu_0(cfg: SadfConfig)
    ensures
        is_headed(cfg, ActivityId::PWR_CPU, 0),
{
    reveal(pwr_cpu_model);
    let id = ActivityId::PWR_CPU;
    let list = flat_names(id, 0);
    reveal_with_fuel(titles, 2);
    reveal_strlit(";");
    reveal_strlit(";CPU");
    reveal_strlit("CPU;MHz");
    reveal_strlit("MHz");
    let hdr = "CPU;MHz"@;
    assert(";"@ + hdr =~= ";CPU"@ + titles(cfg, id, list, 1));
    assert(plain_list(id, list));
    assert(lacks(";CPU"@, '&'));
    lemma_plain_heading(hdr, ";CPU"@, cfg, id, list);
}

proof fn lemma_pwr_fan_0(cfg: SadfConfig)
    ensures
        is_headed(cfg, ActivityId::PWR_FAN, 0),
{
    reveal(pwr_fan_model);
    let id = ActivityId::PWR_FAN;
    let list = flat_names(id, 0);
    reveal_with_fuel(titles, 4);
    reveal_strlit(";");
    reveal_strlit(";FAN");
    reveal_strlit("FAN;DEVICE;rpm;drpm");
    reveal_strlit("DEVICE");
    reveal_strlit("rpm");
    reveal_strlit("drpm");
    let hdr = "FAN;DEVICE;rpm;drpm"@;
    assert(";"@ + hdr =~= ";FAN"@ + titles(cfg, id, list, 3));
    assert(plain_list(id, list));
    assert(lacks(";FAN"@, '&'));
    lemma_plain_heading(hdr, ";FAN"@, cfg, id, list);
}

proof fn lemma_pwr_temp_0(cfg: SadfConfig)
    ensures
        is_headed(cfg, ActivityId::PWR_TEMP, 0),
{
    reveal(pwr_temp_model);
    let id = ActivityId::PWR_TEMP;
    let list = flat_names(id, 0);
    reveal_with_fuel(titles, 4);
    reveal_strlit(";");
    reveal_strlit(";TEMP");
    reveal_strlit("TEMP;DEVICE;degC;%temp");
    reveal_strlit("DEVICE");
    reveal_strlit("degC");
    reveal_strlit("%temp");
    let hdr = "TEMP;DEVICE;degC;%temp"@;
    assert(";"@ + hdr =~= ";TEMP"@ + titles(cfg, id, list, 3));
    assert(plain_list(id, list));
    assert(lacks(";TEMP"@, '&'));
    lemma_plain_heading(hdr, ";TEMP"@, cfg, id, list);
}

proof fn lemma_pwr_in_0(cfg: SadfConfig)
    ensures
        is_headed(cfg, ActivityId::PWR_IN, 0),
{
    reveal(pwr_in_model);
    let id = ActivityId::PWR_IN;
    let list = flat_names(id, 0);
    reveal_with_fuel(titles, 4);
    reveal_strlit(";");
    reveal_strlit(";IN");
    reveal_strlit("IN;DEVICE;inV;%in");
    reveal_strlit("DEVICE");
    reveal_strlit("inV");
    reveal_strlit("%in");
    let hdr = "IN;DEVICE;inV;%in"@;
    assert(";"@ + hdr =~= ";IN"@ + titles(cfg, id, list, 3));
    assert(plain_list(id, list));
    assert(lacks(";IN"@, '&'));
    lemma_plain_heading(hdr, ";IN"@, cfg, id, list);
}

proof fn lemma_pwr_freq_0(cfg: SadfConfig)
    ensures
        is_headed(cfg, ActivityId::PWR_FREQ, 0),
{
    reveal(pwr_freq_model);
    let id = ActivityId::PWR_FREQ;
    let list = flat_names(id, 0);
    reveal_with_fuel(titles, 2);
    reveal_strlit(";");
    reveal_strlit(";CPU");
    reveal_strlit("CPU;wghMHz");
    reveal_strlit("wghMHz");
    let hdr = "CPU;wghMHz"@;
    assert(";"@ + hdr =~= ";CPU"@ + titles(cfg, id, list, 1));
    assert(plain_list(id, list));
    assert(lacks(";CPU"@, '&'));
    lemma_plain_heading(hdr, ";CPU"@, cfg, id, list);
}

proof fn lemma_pwr_bat_0(cfg: SadfConfig)
    ensures
        is_headed(cfg, ActivityId::PWR_BAT, 0),
{
    reveal(pwr_bat_model);
    let id = ActivityId::PWR_BAT;
    let list = flat_names(id, 0);
    reveal_with_fuel(titles, 4);
    reveal_strlit(";");
    reveal_strlit(";BAT");
    reveal_strlit("BAT;%cap;cap/min;status");
    reveal_strlit("%cap");
    reveal_strlit("cap/min");
    reveal_strlit("status");
    let hdr = "BAT;%cap;cap/min;status"@;
    assert(";"@ + hdr =~= ";BAT"@ + titles(cfg, id, list, 3));
    assert(plain_list(id, list));
    assert(lacks(";BAT"@, '&'));
    lemma_plain_heading(hdr, ";BAT"@, cfg, id, list);
}

proof fn lemma_fs_0(cfg: SadfConfig)
    ensures
        is_headed(cfg, ActivityId::FS, 0),
{
    reveal(fs_model);
    let id = ActivityId::FS;
    let list = flat_names(id, 0);
    reveal_with_fuel(titles, 8);
    reveal_strlit(";");
    reveal_strlit(";FILESYSTEM");
    reveal_strlit("FILESYSTEM;MBfsfree;MBfsused;%fsused;%ufsused;Ifree;Iused;%Iused");
    reveal_strlit("MBfsfree");
    reveal_strlit("MBfsused");
    reveal_strlit("%fsused");
    reveal_strlit("%ufsused");
    reveal_strlit("Ifree");
    reveal_strlit("Iused");
    reveal_strlit("%Iused");
    let hdr = "FILESYSTEM;MBfsfree;MBfsused;%fsused;%ufsused;Ifree;Iused;%Iused"@;
    assert(";"@ + hdr =~= ";FILESYSTEM"@ + titles(cfg, id, list, 7));
    assert(plain_list(id, list));
    assert(lacks(";FILESYSTEM"@, '&'));
    lemma_plain_heading(hdr, ";FILESYSTEM"@, cfg, id, list);
}

proof fn lemma_fs_1(cfg: SadfConfig)
    ensures
        is_headed(cfg, ActivityId::FS, 1),
{
    reveal(fs_model);
    let id = ActivityId::FS;
    let list = flat_names(id, 1);
    reveal_with_fuel(titles, 8);
    reveal_strlit(";");
    reveal_strlit(";MOUNTPOINT");
    reveal_strlit("MOUNTPOINT;MBfsfree;MBfsused;%fsused;%ufsused;Ifree;Iused;%Iused");
    reveal_strlit("MBfsfree");
    reveal_strlit("MBfsused");
    reveal_strlit("%fsused");
    reveal_strlit("%ufsused");
    reveal_strlit("Ifree");
    reveal_strlit("Iused");
    reveal_strlit("%Iused");
    let hdr = "MOUNTPOINT;MBfsfree;MBfsused;%fsused;%ufsused;Ifree;Iused;%Iused"@;
    assert(";"@ + hdr =~= ";MOUNTPOINT"@ + titles(cfg, id, list, 7));
    assert(plain_list(id, list));
    assert(lacks(";MOUNTPOINT"@, '&'));
    lemma_plain_heading(hdr, ";MOUNTPOINT"@, cfg, id, list);
}

proof fn lemma_psi_cpu_0(cfg: SadfConfig)
    ensures
        is_headed(cfg, ActivityId::PSI_CPU, 0),
{
    reveal(psi_cpu_model);
    let id = ActivityId::PSI_CPU;
    let list = flat_names(id, 0);
    reveal_with_fuel(titles, 5);
    reveal_strlit(";");
    reveal_strlit("");
    reveal_strlit("%scpu-10;%scpu-60;%scpu-300;%scpu");
    reveal_strlit("%scpu-10");
    reveal_strlit("%scpu-60");
    reveal_strlit("%scpu-300");
    reveal_strlit("%scpu");
    let hdr = "%scpu-10;%scpu-60;%scpu-300;%scpu"@;
    assert(";"@ + hdr =~= ""@ + titles(cfg, id, list, 4));
    assert(plain_list(id, list));
    assert(lacks(""@, '&'));
    lemma_plain_heading(hdr, ""@, cfg, id, list);
}

proof fn lemma_psi_io_0(cfg: SadfConfig)
    ensures
        is_headed(cfg, ActivityId::PSI_IO, 0),
{
    reveal(psi_io_model);
    let id = ActivityId::PSI_IO;
    let list = flat_names(id, 0);
    reveal_with_fuel(titles, 9);
    reveal_strlit(";");
    reveal_strlit("");
    reveal_strlit("%sio-10;%sio-60;%sio-300;%sio;%fio-10;%fio-60;%fio-300;%fio");
    reveal_strlit("%sio-10");
    reveal_strlit("%sio-60");
    reveal_strlit("%sio-300");
    reveal_strlit("%sio");
    reveal_strlit("%fio-10");
    reveal_strlit("%fio-60");
    reveal_strlit("%fio-300");
    reveal_strlit("%fio");
    let hdr = "%sio-10;%sio-60;%sio-300;%sio;%fio-10;%fio-60;%fio-300;%fio"@;
    assert(";"@ + hdr =~= ""@ + titles(cfg, id, list, 8));
    assert(plain_list(id, list));
    assert(lacks(""@, '&'));
    lemma_plain_heading(hdr, ""@, cfg, id, list);
}

proof fn lemma_psi_mem_0(cfg: SadfConfig)
    ensures
        is_headed(cfg, ActivityId::PSI_MEM, 0),
{
    reveal(psi_mem_model);
    let id = ActivityId::PSI_MEM;
    let list = flat_names(id, 0);
    reveal_with_fuel(titles, 9);
    reveal_strlit(";");
    reveal_strlit("");
    reveal_strlit("%smem-10;%smem-60;%smem-300;%smem;%fmem-10;%fmem-60;%fmem-300;%fmem");
    reveal_strlit("%smem-10");
    reveal_strlit("%smem-60");
    reveal_strlit("%smem-300");
    reveal_strlit("%smem");
    reveal_strlit("%fmem-10");
    reveal_strlit("%fmem-60");
    reveal_strlit("%fmem-300");
    reveal_strlit("%fmem");
    let hdr = "%smem-10;%smem-60;%smem-300;%smem;%fmem-10;%fmem-60;%fmem-300;%fmem"@;
    assert(";"@ + hdr =~= ""@ + titles(cfg, id, list, 8));
    assert(plain_list(id, list));
    assert(lacks(""@, '&'));
    lemma_plain_heading(hdr, ""@, cfg, id, list);
}

#[verifier::rlimit(40)]
proof fn lemma_memory_0(cfg: SadfConfig)
    ensures
        is_headed(cfg, ActivityId::MEMORY, 0),
{
    reveal(memory_model);
    let id = ActivityId::MEMORY;
    let list = flat_names(id, 0);
    let brief = list.take(12);
    reveal_strlit(";");
    reveal_strlit("kbmemfree;kbavail;kbmemused;%memused;kbbuffers;kbcached;kbcommit;%commit;kbactive;kbinact;kbdirty;kbshmem&kbanonpg;kbslab;kbkstack;kbpgtbl;kbvmused");
    reveal_strlit("kbmemfree");
    reveal_strlit("kbavail");
    reveal_strlit("kbmemused");
    reveal_strlit("%memused");
    reveal_strlit("kbbuffers");
    reveal_strlit("kbcached");
    reveal_strlit("kbcommit");
    reveal_strlit("%commit");
    reveal_strlit("kbactive");
    reveal_strlit("kbinact");
    reveal_strlit("kbdirty");
    reveal_strlit("kbshared");
    reveal_strlit("kbanonpg");
    reveal_strlit("kbslab");
    reveal_strlit("kbkstack");
    reveal_strlit("kbpgtbl");
    reveal_strlit("kbvmused");
    reveal_strlit("kbshmem");
    assert("kbmemfree"@.len() != "kbshared"@.len());
    assert("kbavail"@.len() != "kbshared"@.len());
    assert("kbmemused"@.len() != "kbshared"@.len());
    assert("%memused"@[0] != "kbshared"@[0]);
    assert("kbbuffers"@.len() != "kbshared"@.len());
    assert("kbcached"@[2] != "kbshared"@[2]);
    assert("kbcommit"@[2] != "kbshared"@[2]);
    assert("%commit"@.len() != "kbshared"@.len());
    assert("kbactive"@[2] != "kbshared"@[2]);
    assert("kbinact"@.len() != "kbshared"@.len());
    assert("kbdirty"@.len() != "kbshared"@.len());
    assert("kbanonpg"@[2] != "kbshared"@[2]);
    assert("kbslab"@.len() != "kbshared"@.len());
    assert("kbkstack"@[2] != "kbshared"@[2]);
    assert("kbpgtbl"@.len() != "kbshared"@.len());
    assert("kbvmused"@[2] != "kbshared"@[2]);
    let hdr = "kbmemfree;kbavail;kbmemused;%memused;kbbuffers;kbcached;kbcommit;%commit;kbactive;kbinact;kbdirty;kbshmem&kbanonpg;kbslab;kbkstack;kbpgtbl;kbvmused"@;
    reveal_with_fuel(titles, 18);
    let first = titles(cfg, id, brief, 12);
    assert(first =~= titles(cfg, id, list, 12));
    let a = first.skip(1);
    let b = hdr.skip(a.len() as int + 1);
    assert(hdr =~= a + seq!['&'] + b);
    assert(plain_list(id, brief));
    lemma_titles_lack(cfg, id, brief, 12);
    assert(lacks(a, '&'));
    law_find_is_the_first_place(a, '&', b);
    assert(hdr.take(a.len() as int) =~= a);
    assert(";"@ + a =~= first);
    if cfg.section.mem_all {
        assert(";"@ + (a.push(';') + b) =~= titles(cfg, id, list, 17));
    } else {
        assert(titles(cfg, id, list, 17) == titles(cfg, id, list, 12));
    }
    assert(item_title(id, 0) =~= Seq::empty()) by {
        reveal_strlit("");
    }
    assert(item_title(id, 0) + titles(cfg, id, list, 17) =~= titles(cfg, id, list, 17));
}

/// Whether the names that head a section in a database output are what heads its items and the
/// headings of its names.
pub open spec fn is_headed(cfg: SadfConfig, id: ActivityId, k: int) -> bool {
    table(id) matches Some(m) ==> 0 <= k < m.sections.len() ==> ";"@ + cfg.section.expanded(
        m.sections[k].hdr_line@,
    ) == item_title(id, k) + titles(cfg, id, flat_names(id, k), flat_names(id, k).len() as int)
}

proof fn lemma_is_headed(cfg: SadfConfig, id: ActivityId, k: int)
    requires
        id != ActivityId::IRQ,
        id != ActivityId::PWR_USB,
    ensures
        is_headed(cfg, id, k),
{
    law_names_show_their_columns(id, k);
    crate::sadf::column_laws::lemma_section_counts(id);
    match id {
        ActivityId::CPU => {
            lemma_cpu_0(cfg);
            lemma_cpu_1(cfg);
        },
        ActivityId::PCSW => lemma_pcsw_0(cfg),
        ActivityId::SWAP => lemma_swap_0(cfg),
        ActivityId::PAGE => lemma_page_0(cfg),
        ActivityId::IO => lemma_io_0(cfg),
        ActivityId::MEMORY => {
            lemma_memory_0(cfg);
            lemma_memory_1(cfg);
        },
        ActivityId::HUGE => lemma_huge_0(cfg),
        ActivityId::KTABLES => lemma_ktables_0(cfg),
        ActivityId::QUEUE => lemma_queue_0(cfg),
        ActivityId::SERIAL => lemma_serial_0(cfg),
        ActivityId::DISK => lemma_disk_0(cfg),
        ActivityId::NET_DEV => lemma_net_dev_0(cfg),
        ActivityId::NET_EDEV => lemma_net_edev_0(cfg),
        ActivityId::NET_NFS => lemma_net_nfs_0(cfg),
        ActivityId::NET_NFSD => lemma_net_nfsd_0(cfg),
        ActivityId::NET_SOCK => lemma_net_sock_0(cfg),
        ActivityId::NET_IP => lemma_net_ip_0(cfg),
        ActivityId::NET_EIP => lemma_net_eip_0(cfg),
        ActivityId::NET_ICMP => lemma_net_icmp_0(cfg),
        ActivityId::NET_EICMP => lemma_net_eicmp_0(cfg),
        ActivityId::NET_TCP => lemma_net_tcp_0(cfg),
        ActivityId::NET_ETCP => lemma_net_etcp_0(cfg),
        ActivityId::NET_UDP => lemma_net_udp_0(cfg),
        ActivityId::NET_SOCK6 => lemma_net_sock6_0(cfg),
        ActivityId::NET_IP6 => lemma_net_ip6_0(cfg),
        ActivityId::NET_EIP6 => lemma_net_eip6_0(cfg),
        ActivityId::NET_ICMP6 => lemma_net_icmp6_0(cfg),
        ActivityId::NET_EICMP6 => lemma_net_eicmp6_0(cfg),
        ActivityId::NET_UDP6 => lemma_net_udp6_0(cfg),
        ActivityId::NET_FC => lemma_net_fc_0(cfg),
        ActivityId::NET_SOFT => lemma_net_soft_0(cfg),
        ActivityId::PWR_CPU => lemma_pwr_cpu_0(cfg),
        ActivityId::PWR_FAN => lemma_pwr_fan_0(cfg),
        ActivityId::PWR_TEMP => lemma_pwr_temp_0(cfg),
        ActivityId::PWR_IN => lemma_pwr_in_0(cfg),
        ActivityId::PWR_FREQ => lemma_pwr_freq_0(cfg),
        ActivityId::PWR_BAT => lemma_pwr_bat_0(cfg),
        ActivityId::FS => {
            lemma_fs_0(cfg);
            lemma_fs_1(cfg);
        },
        ActivityId::PSI_CPU => lemma_psi_cpu_0(cfg),
        ActivityId::PSI_IO => lemma_psi_io_0(cfg),
        ActivityId::PSI_MEM => lemma_psi_mem_0(cfg),
        _ => {},
    }
}

/// The line with the names of a section has what heads its items, and then the heading of each
/// name that is shown. The interrupts have a heading for each CPU, and the names of the USB
/// devices stand in another order than what is below them.
pub proof fn law_headings_are_the_names(cfg: SadfConfig, id: ActivityId, k: int)
    requires
        id != ActivityId::IRQ,
        id != ActivityId::PWR_USB,
        table(id) matches Some(m) && 0 <= k < m.sections.len(),
    ensures
        field_list_text(cfg, table(id)->0.sections[k]) == "# hostname;interval;timestamp"@
            + item_title(id, k) + titles(cfg, id, flat_names(id, k), flat_names(id, k).len() as int)
            + "\n"@,
{
    lemma_is_headed(cfg, id, k);
    let hdr = cfg.section.expanded(table(id)->0.sections[k].hdr_line@);
    reveal_strlit("# hostname;interval;timestamp;");
    reveal_strlit("# hostname;interval;timestamp");
    reveal_strlit(";");
    assert("# hostname;interval;timestamp;"@ =~= "# hostname;interval;timestamp"@ + ";"@);
    assert("# hostname;interval;timestamp;"@ + hdr + "\n"@ =~= "# hostname;interval;timestamp"@ + (
    ";"@ + hdr) + "\n"@);
    assert("# hostname;interval;timestamp"@ + (item_title(id, k) + titles(
        cfg,
        id,
        flat_names(id, k),
        flat_names(id, k).len() as int,
    )) + "\n"@ =~= "# hostname;interval;timestamp"@ + item_title(id, k) + titles(
        cfg,
        id,
        flat_names(id, k),
        flat_names(id, k).len() as int,
    ) + "\n"@);
}

proof fn lemma_named_grow(fields: Seq<Field>, n: int, all: int)
    requires
        0 <= n <= all <= fields.len(),
    ensures
        named_fields(fields, n).len() <= named_fields(fields, all).len(),
        forall|i: int|
            0 <= i < named_fields(fields, n).len() ==> #[trigger] named_fields(fields, n)[i]
                == named_fields(fields, all)[i],
    decreases all - n,
{
    if n < all {
        lemma_named_grow(fields, n, all - 1);
        let a = named_fields(fields, n);
        let b = named_fields(fields, all - 1);
        assert forall|i: int| 0 <= i < a.len() implies #[trigger] a[i] == named_fields(
            fields,
            all,
        )[i] by {
            assert(a[i] == b[i]);
        }
    }
}

proof fn lemma_field_is_shown(
    cfg: SadfConfig,
    id: ActivityId,
    item: ItemModel,
    label: LabelModel,
    f: Field,
    e: Named,
)
    requires
        f.pp == e.name,
        f.pp@.len() > 0,
        f.col == e.column,
        f.col@.len() > 0,
        f.dp_fmt == e.fmt,
        is_detail(f.gate) == e.detail,
        e.fmt != Fmt::Skip,
        e.fmt != Fmt::ItemKeyStr,
        e.fmt != Fmt::ItemKeyNum,
    ensures
        flat_field(cfg, f) == is_open(cfg, e),
        flat_value(id, item, f, label) == column_shown(id, item, e),
{
    reveal_strlit("");
    assert(chars(""@) =~= Seq::<Glyph>::empty());
}

/// Whether a list names columns only, and nothing that tells the item.
pub open spec fn names_columns(list: Seq<Named>) -> bool {
    forall|i: int|
        0 <= i < list.len() ==> (#[trigger] list[i]).fmt != Fmt::Skip && list[i].fmt
            != Fmt::ItemKeyStr && list[i].fmt != Fmt::ItemKeyNum
}

proof fn lemma_values_below(
    cfg: SadfConfig,
    id: ActivityId,
    fields: Seq<Field>,
    item: ItemModel,
    label: LabelModel,
    list: Seq<Named>,
    n: int,
)
    requires
        0 <= n <= fields.len(),
        shows_named(named_fields(fields, fields.len() as int), list),
        names_columns(list),
    ensures
        db_values(cfg, id, fields, item, label, n) == values_below(
            cfg,
            id,
            item,
            list,
            named_fields(fields, n).len() as int,
        ),
    decreases n,
{
    if n > 0 {
        lemma_values_below(cfg, id, fields, item, label, list, n - 1);
        let f = fields[n - 1];
        if f.pp@.len() > 0 {
            let at = named_fields(fields, n).len() - 1;
            lemma_named_grow(fields, n, fields.len() as int);
            assert(named_fields(fields, n)[at] == f);
            assert(named_fields(fields, fields.len() as int)[at] == f);
            lemma_field_is_shown(cfg, id, item, label, f, list[at]);
        }
    }
}

proof fn lemma_values_beside(
    cfg: SadfConfig,
    id: ActivityId,
    fields: Seq<Field>,
    item: ItemModel,
    label: LabelModel,
    list: Seq<Named>,
    pre: Seq<char>,
    n: int,
)
    requires
        0 <= n <= fields.len(),
        shows_named(named_fields(fields, fields.len() as int), list),
        names_columns(list),
    ensures
        ppc_values(cfg, id, fields, item, label, pre, n) == values_beside(
            cfg,
            id,
            item,
            list,
            pre,
            label.ppc,
            named_fields(fields, n).len() as int,
        ),
    decreases n,
{
    if n > 0 {
        lemma_values_beside(cfg, id, fields, item, label, list, pre, n - 1);
        let f = fields[n - 1];
        if f.pp@.len() > 0 {
            let at = named_fields(fields, n).len() - 1;
            lemma_named_grow(fields, n, fields.len() as int);
            assert(named_fields(fields, n)[at] == f);
            assert(named_fields(fields, fields.len() as int)[at] == f);
            lemma_field_is_shown(cfg, id, item, label, f, list[at]);
            let before = ppc_values(cfg, id, fields, item, label, pre, n - 1);
            let v = flat_value(id, item, f, label);
            let lead = pre + "\t"@ + label.ppc + "\t"@ + f.pp@ + "\t"@;
            assert(chars(lead) =~= chars(pre) + chars("\t"@) + chars(label.ppc) + chars("\t"@)
                + chars(f.pp@) + chars("\t"@));
            assert(before + chars(pre) + chars("\t"@) + chars(label.ppc) + chars("\t"@) + chars(
                f.pp@,
            ) + chars("\t"@) + v + chars("\n"@) =~= before + chars(lead) + v + chars("\n"@));
        }
    }
}

proof fn lemma_names_columns(id: ActivityId, k: int)
    ensures
        names_columns(flat_names(id, k)),
{
}

/// On a line of a database output, what tells the item is followed by the value of the column
/// that each name stands for, in the order of the headings: the value of a name is the one of
/// its own column.
pub proof fn law_values_stand_below_their_names(
    cfg: SadfConfig,
    id: ActivityId,
    k: int,
    item: ItemModel,
)
    requires
        id != ActivityId::IRQ,
        table(id) matches Some(m) && 0 <= k < m.sections.len(),
    ensures
        ({
            let m = table(id)->0;
            let list = flat_names(id, k);
            db_item(cfg, m, m.sections[k], item) == (if m.item is Single {
                Seq::empty()
            } else {
                chars(";"@) + chars(label_in(m.item, m.sections[k], item).db)
            }) + values_below(cfg, id, item, list, list.len() as int)
        }),
{
    let m = table(id)->0;
    let section = m.sections[k];
    law_table_is_of_its_activity(id);
    law_names_show_their_columns(id, k);
    lemma_names_columns(id, k);
    lemma_values_below(
        cfg,
        id,
        section.fields,
        item,
        label_in(m.item, section, item),
        flat_names(id, k),
        section.fields.len() as int,
    );
}

/// In the lines with one value each, the value beside a name is the one of the column that the
/// name stands for.
pub proof fn law_values_stand_beside_their_names(
    cfg: SadfConfig,
    id: ActivityId,
    k: int,
    item: ItemModel,
    pre: Seq<char>,
)
    requires
        id != ActivityId::IRQ,
        table(id) matches Some(m) && 0 <= k < m.sections.len(),
    ensures
        ({
            let m = table(id)->0;
            let section = m.sections[k];
            let label = label_in(m.item, section, item);
            let list = flat_names(id, k);
            ppc_values(cfg, id, section.fields, item, label, pre, section.fields.len() as int)
                == values_beside(cfg, id, item, list, pre, label.ppc, list.len() as int)
        }),
{
    let m = table(id)->0;
    let section = m.sections[k];
    law_names_show_their_columns(id, k);
    lemma_names_columns(id, k);
    lemma_values_beside(
        cfg,
        id,
        section.fields,
        item,
        label_in(m.item, section, item),
        flat_names(id, k),
        pre,
        section.fields.len() as int,
    );
}

}
