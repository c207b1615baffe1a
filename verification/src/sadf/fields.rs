//! The fields of the activities.

use vstd::prelude::*;

use crate::sadf::table::{
    detail_field, detail_raw, field, item_key, rate, rawf, Field, Fmt, RawField, RawStyle,
};

verus! {

/// The order of the fields of a sensor in the nested formats: the device comes last.
pub open spec fn sensor_order() -> Seq<usize> {
    seq![0usize, 2usize, 3usize, 1usize]
}

pub fn sensor_order_list() -> (r: Vec<usize>)
    ensures
        r@ == sensor_order(),
{
    vec![0usize, 2usize, 3usize, 1usize]
}

pub open spec fn cpu_def_fields() -> Seq<Field> {
    seq![
        item_key("cpu", "number", Fmt::ItemKeyStr),
        rate("user", "%user", "user"),
        rate("nice", "%nice", "nice"),
        rate("system", "%system", "system"),
        rate("iowait", "%iowait", "iowait"),
        rate("steal", "%steal", "steal"),
        rate("idle", "%idle", "idle"),
    ]
}

pub fn cpu_def_fields_list() -> (r: Vec<Field>)
    ensures
        r@ == cpu_def_fields(),
{
    vec![
        item_key("cpu", "number", Fmt::ItemKeyStr),
        rate("user", "%user", "user"),
        rate("nice", "%nice", "nice"),
        rate("system", "%system", "system"),
        rate("iowait", "%iowait", "iowait"),
        rate("steal", "%steal", "steal"),
        rate("idle", "%idle", "idle"),
    ]
}

pub open spec fn cpu_def_raw() -> Seq<RawField> {
    seq![
        rawf("user", "%user", RawStyle::Pval),
        rawf("nice", "%nice", RawStyle::Pval),
        rawf("", "%system", RawStyle::PvalSum("sys", "irq", "soft")),
        rawf("iowait", "%iowait", RawStyle::Pval),
        rawf("steal", "%steal", RawStyle::Pval),
        rawf("idle", "%idle", RawStyle::Pval),
    ]
}

pub fn cpu_def_raw_list() -> (r: Vec<RawField>)
    ensures
        r@ == cpu_def_raw(),
{
    vec![
        rawf("user", "%user", RawStyle::Pval),
        rawf("nice", "%nice", RawStyle::Pval),
        rawf("", "%system", RawStyle::PvalSum("sys", "irq", "soft")),
        rawf("iowait", "%iowait", RawStyle::Pval),
        rawf("steal", "%steal", RawStyle::Pval),
        rawf("idle", "%idle", RawStyle::Pval),
    ]
}

pub open spec fn cpu_all_fields() -> Seq<Field> {
    seq![
        item_key("cpu", "number", Fmt::ItemKeyStr),
        rate("usr", "%usr", "usr"),
        rate("nice_excl_gnice", "%nice", "nice"),
        rate("sys", "%sys", "sys"),
        rate("iowait", "%iowait", "iowait"),
        rate("steal", "%steal", "steal"),
        rate("irq", "%irq", "irq"),
        rate("soft", "%soft", "soft"),
        rate("guest", "%guest", "guest"),
        rate("gnice", "%gnice", "gnice"),
        rate("idle", "%idle", "idle"),
    ]
}

pub fn cpu_all_fields_list() -> (r: Vec<Field>)
    ensures
        r@ == cpu_all_fields(),
{
    vec![
        item_key("cpu", "number", Fmt::ItemKeyStr),
        rate("usr", "%usr", "usr"),
        rate("nice_excl_gnice", "%nice", "nice"),
        rate("sys", "%sys", "sys"),
        rate("iowait", "%iowait", "iowait"),
        rate("steal", "%steal", "steal"),
        rate("irq", "%irq", "irq"),
        rate("soft", "%soft", "soft"),
        rate("guest", "%guest", "guest"),
        rate("gnice", "%gnice", "gnice"),
        rate("idle", "%idle", "idle"),
    ]
}

pub open spec fn cpu_all_raw() -> Seq<RawField> {
    seq![
        rawf("", "%usr", RawStyle::PvalDiff("user", "guest")),
        rawf("", "%nice", RawStyle::PvalDiff("nice", "gnice")),
        rawf("sys", "%sys", RawStyle::Pval),
        rawf("iowait", "%iowait", RawStyle::Pval),
        rawf("steal", "%steal", RawStyle::Pval),
        rawf("irq", "%irq", RawStyle::Pval),
        rawf("soft", "%soft", RawStyle::Pval),
        rawf("guest", "%guest", RawStyle::Pval),
        rawf("gnice", "%gnice", RawStyle::Pval),
        rawf("idle", "%idle", RawStyle::Pval),
    ]
}

pub fn cpu_all_raw_list() -> (r: Vec<RawField>)
    ensures
        r@ == cpu_all_raw(),
{
    vec![
        rawf("", "%usr", RawStyle::PvalDiff("user", "guest")),
        rawf("", "%nice", RawStyle::PvalDiff("nice", "gnice")),
        rawf("sys", "%sys", RawStyle::Pval),
        rawf("iowait", "%iowait", RawStyle::Pval),
        rawf("steal", "%steal", RawStyle::Pval),
        rawf("irq", "%irq", RawStyle::Pval),
        rawf("soft", "%soft", RawStyle::Pval),
        rawf("guest", "%guest", RawStyle::Pval),
        rawf("gnice", "%gnice", RawStyle::Pval),
        rawf("idle", "%idle", RawStyle::Pval),
    ]
}

pub open spec fn pcsw_fields() -> Seq<Field> {
    seq![
        rate("proc", "proc/s", "proc"),
        rate("cswch", "cswch/s", "cswch"),
    ]
}

pub fn pcsw_fields_list() -> (r: Vec<Field>)
    ensures
        r@ == pcsw_fields(),
{
    vec![
        rate("proc", "proc/s", "proc"),
        rate("cswch", "cswch/s", "cswch"),
    ]
}

pub open spec fn swap_fields() -> Seq<Field> {
    seq![
        rate("pswpin", "pswpin/s", "pswpin"),
        rate("pswpout", "pswpout/s", "pswpout"),
    ]
}

pub fn swap_fields_list() -> (r: Vec<Field>)
    ensures
        r@ == swap_fields(),
{
    vec![
        rate("pswpin", "pswpin/s", "pswpin"),
        rate("pswpout", "pswpout/s", "pswpout"),
    ]
}

pub open spec fn page_fields() -> Seq<Field> {
    seq![
        rate("pgpgin", "pgpgin/s", "pgpgin"),
        rate("pgpgout", "pgpgout/s", "pgpgout"),
        rate("fault", "fault/s", "fault"),
        rate("majflt", "majflt/s", "majflt"),
        rate("pgfree", "pgfree/s", "pgfree"),
        rate("pgscank", "pgscank/s", "pgscank"),
        rate("pgscand", "pgscand/s", "pgscand"),
        rate("pgsteal", "pgsteal/s", "pgsteal"),
        rate("pgprom", "pgprom/s", "pgprom"),
        rate("pgdem", "pgdem/s", "pgdem"),
    ]
}

pub fn page_fields_list() -> (r: Vec<Field>)
    ensures
        r@ == page_fields(),
{
    vec![
        rate("pgpgin", "pgpgin/s", "pgpgin"),
        rate("pgpgout", "pgpgout/s", "pgpgout"),
        rate("fault", "fault/s", "fault"),
        rate("majflt", "majflt/s", "majflt"),
        rate("pgfree", "pgfree/s", "pgfree"),
        rate("pgscank", "pgscank/s", "pgscank"),
        rate("pgscand", "pgscand/s", "pgscand"),
        rate("pgsteal", "pgsteal/s", "pgsteal"),
        rate("pgprom", "pgprom/s", "pgprom"),
        rate("pgdem", "pgdem/s", "pgdem"),
    ]
}

pub open spec fn io_fields() -> Seq<Field> {
    seq![
        rate("tps", "tps", "tps"),
        rate("rtps", "rtps", "rtps"),
        rate("wtps", "wtps", "wtps"),
        rate("dtps", "dtps", "dtps"),
        rate("bread", "bread/s", "bread"),
        rate("bwrtn", "bwrtn/s", "bwrtn"),
        rate("bdscd", "bdscd/s", "bdscd"),
    ]
}

pub fn io_fields_list() -> (r: Vec<Field>)
    ensures
        r@ == io_fields(),
{
    vec![
        rate("tps", "tps", "tps"),
        rate("rtps", "rtps", "rtps"),
        rate("wtps", "wtps", "wtps"),
        rate("dtps", "dtps", "dtps"),
        rate("bread", "bread/s", "bread"),
        rate("bwrtn", "bwrtn/s", "bwrtn"),
        rate("bdscd", "bdscd/s", "bdscd"),
    ]
}

pub open spec fn memory_fields() -> Seq<Field> {
    seq![
        field("kbmemfree", "kbmemfree", Fmt::Int, "memfree", "memfree", Fmt::Int),
        field("kbavail", "kbavail", Fmt::Int, "avail", "avail", Fmt::Int),
        field("kbmemused", "kbmemused", Fmt::Int, "memused", "memused", Fmt::Int),
        field("memused_pct", "%memused", Fmt::R2, "memused-percent", "memused-percent", Fmt::R2),
        field("kbbuffers", "kbbuffers", Fmt::Int, "buffers", "buffers", Fmt::Int),
        field("kbcached", "kbcached", Fmt::Int, "cached", "cached", Fmt::Int),
        field("kbcommit", "kbcommit", Fmt::Int, "commit", "commit", Fmt::Int),
        field("commit_pct", "%commit", Fmt::R2, "commit-percent", "commit-percent", Fmt::R2),
        field("kbactive", "kbactive", Fmt::Int, "active", "active", Fmt::Int),
        field("kbinact", "kbinact", Fmt::Int, "inactive", "inactive", Fmt::Int),
        field("kbdirty", "kbdirty", Fmt::Int, "dirty", "dirty", Fmt::Int),
        field("kbshmem", "kbshared", Fmt::Int, "shared", "shared", Fmt::Int),
        detail_field("kbanonpg", "kbanonpg", Fmt::Int, "anonpg", "anonpg", Fmt::Int),
        detail_field("kbslab", "kbslab", Fmt::Int, "slab", "slab", Fmt::Int),
        detail_field("kbkstack", "kbkstack", Fmt::Int, "kstack", "kstack", Fmt::Int),
        detail_field("kbpgtbl", "kbpgtbl", Fmt::Int, "pgtbl", "pgtbl", Fmt::Int),
        detail_field("kbvmused", "kbvmused", Fmt::Int, "vmused", "vmused", Fmt::Int),
    ]
}

pub fn memory_fields_list() -> (r: Vec<Field>)
    ensures
        r@ == memory_fields(),
{
    vec![
        field("kbmemfree", "kbmemfree", Fmt::Int, "memfree", "memfree", Fmt::Int),
        field("kbavail", "kbavail", Fmt::Int, "avail", "avail", Fmt::Int),
        field("kbmemused", "kbmemused", Fmt::Int, "memused", "memused", Fmt::Int),
        field("memused_pct", "%memused", Fmt::R2, "memused-percent", "memused-percent", Fmt::R2),
        field("kbbuffers", "kbbuffers", Fmt::Int, "buffers", "buffers", Fmt::Int),
        field("kbcached", "kbcached", Fmt::Int, "cached", "cached", Fmt::Int),
        field("kbcommit", "kbcommit", Fmt::Int, "commit", "commit", Fmt::Int),
        field("commit_pct", "%commit", Fmt::R2, "commit-percent", "commit-percent", Fmt::R2),
        field("kbactive", "kbactive", Fmt::Int, "active", "active", Fmt::Int),
        field("kbinact", "kbinact", Fmt::Int, "inactive", "inactive", Fmt::Int),
        field("kbdirty", "kbdirty", Fmt::Int, "dirty", "dirty", Fmt::Int),
        field("kbshmem", "kbshared", Fmt::Int, "shared", "shared", Fmt::Int),
        detail_field("kbanonpg", "kbanonpg", Fmt::Int, "anonpg", "anonpg", Fmt::Int),
        detail_field("kbslab", "kbslab", Fmt::Int, "slab", "slab", Fmt::Int),
        detail_field("kbkstack", "kbkstack", Fmt::Int, "kstack", "kstack", Fmt::Int),
        detail_field("kbpgtbl", "kbpgtbl", Fmt::Int, "pgtbl", "pgtbl", Fmt::Int),
        detail_field("kbvmused", "kbvmused", Fmt::Int, "vmused", "vmused", Fmt::Int),
    ]
}

pub open spec fn memory_raw() -> Seq<RawField> {
    seq![
        rawf("kbmemfree", "kbmemfree", RawStyle::Int),
        rawf("kbavail", "kbavail", RawStyle::IntCompat),
        rawf("kbmemtotal", "kbttlmem", RawStyle::Int),
        rawf("kbbuffers", "kbbuffers", RawStyle::Int),
        rawf("kbcached", "kbcached", RawStyle::Int),
        rawf("kbcommit", "kbcommit", RawStyle::Int),
        rawf("kbactive", "kbactive", RawStyle::Int),
        rawf("kbinact", "kbinact", RawStyle::Int),
        rawf("kbdirty", "kbdirty", RawStyle::Int),
        rawf("kbshmem", "kbshmem", RawStyle::Int),
        detail_raw("kbanonpg", "kbanonpg", RawStyle::Int),
        detail_raw("kbslab", "kbslab", RawStyle::Int),
        detail_raw("kbkstack", "kbkstack", RawStyle::Int),
        detail_raw("kbpgtbl", "kbpgtbl", RawStyle::Int),
        detail_raw("kbvmused", "kbvmused", RawStyle::Int),
    ]
}

pub fn memory_raw_list() -> (r: Vec<RawField>)
    ensures
        r@ == memory_raw(),
{
    vec![
        rawf("kbmemfree", "kbmemfree", RawStyle::Int),
        rawf("kbavail", "kbavail", RawStyle::IntCompat),
        rawf("kbmemtotal", "kbttlmem", RawStyle::Int),
        rawf("kbbuffers", "kbbuffers", RawStyle::Int),
        rawf("kbcached", "kbcached", RawStyle::Int),
        rawf("kbcommit", "kbcommit", RawStyle::Int),
        rawf("kbactive", "kbactive", RawStyle::Int),
        rawf("kbinact", "kbinact", RawStyle::Int),
        rawf("kbdirty", "kbdirty", RawStyle::Int),
        rawf("kbshmem", "kbshmem", RawStyle::Int),
        detail_raw("kbanonpg", "kbanonpg", RawStyle::Int),
        detail_raw("kbslab", "kbslab", RawStyle::Int),
        detail_raw("kbkstack", "kbkstack", RawStyle::Int),
        detail_raw("kbpgtbl", "kbpgtbl", RawStyle::Int),
        detail_raw("kbvmused", "kbvmused", RawStyle::Int),
    ]
}

pub open spec fn swap_mem_fields() -> Seq<Field> {
    seq![
        field("kbswpfree", "kbswpfree", Fmt::Int, "swpfree", "swpfree", Fmt::Int),
        field("kbswpused", "kbswpused", Fmt::Int, "swpused", "swpused", Fmt::Int),
        field("swpused_pct", "%swpused", Fmt::R2, "swpused-percent", "swpused-percent", Fmt::R2),
        field("kbswpcad", "kbswpcad", Fmt::Int, "swpcad", "swpcad", Fmt::Int),
        field("swpcad_pct", "%swpcad", Fmt::R2, "swpcad-percent", "swpcad-percent", Fmt::R2),
    ]
}

pub fn swap_mem_fields_list() -> (r: Vec<Field>)
    ensures
        r@ == swap_mem_fields(),
{
    vec![
        field("kbswpfree", "kbswpfree", Fmt::Int, "swpfree", "swpfree", Fmt::Int),
        field("kbswpused", "kbswpused", Fmt::Int, "swpused", "swpused", Fmt::Int),
        field("swpused_pct", "%swpused", Fmt::R2, "swpused-percent", "swpused-percent", Fmt::R2),
        field("kbswpcad", "kbswpcad", Fmt::Int, "swpcad", "swpcad", Fmt::Int),
        field("swpcad_pct", "%swpcad", Fmt::R2, "swpcad-percent", "swpcad-percent", Fmt::R2),
    ]
}

pub open spec fn swap_mem_raw() -> Seq<RawField> {
    seq![
        rawf("kbswpfree", "kbswpfree", RawStyle::Int),
        rawf("kbswptotal", "kbttlswp", RawStyle::Int),
        rawf("kbswpcad", "kbswpcad", RawStyle::Int),
    ]
}

pub fn swap_mem_raw_list() -> (r: Vec<RawField>)
    ensures
        r@ == swap_mem_raw(),
{
    vec![
        rawf("kbswpfree", "kbswpfree", RawStyle::Int),
        rawf("kbswptotal", "kbttlswp", RawStyle::Int),
        rawf("kbswpcad", "kbswpcad", RawStyle::Int),
    ]
}

pub open spec fn huge_fields() -> Seq<Field> {
    seq![
        field("kbhugfree", "kbhugfree", Fmt::Int, "hugfree", "hugfree", Fmt::Int),
        field("kbhugused", "kbhugused", Fmt::Int, "hugused", "hugused", Fmt::Int),
        field("hugused_pct", "%hugused", Fmt::R2, "hugused-percent", "hugused-percent", Fmt::R2),
        field("kbhugrsvd", "kbhugrsvd", Fmt::Int, "hugrsvd", "hugrsvd", Fmt::Int),
        field("kbhugsurp", "kbhugsurp", Fmt::Int, "hugsurp", "hugsurp", Fmt::Int),
    ]
}

pub fn huge_fields_list() -> (r: Vec<Field>)
    ensures
        r@ == huge_fields(),
{
    vec![
        field("kbhugfree", "kbhugfree", Fmt::Int, "hugfree", "hugfree", Fmt::Int),
        field("kbhugused", "kbhugused", Fmt::Int, "hugused", "hugused", Fmt::Int),
        field("hugused_pct", "%hugused", Fmt::R2, "hugused-percent", "hugused-percent", Fmt::R2),
        field("kbhugrsvd", "kbhugrsvd", Fmt::Int, "hugrsvd", "hugrsvd", Fmt::Int),
        field("kbhugsurp", "kbhugsurp", Fmt::Int, "hugsurp", "hugsurp", Fmt::Int),
    ]
}

pub open spec fn huge_raw() -> Seq<RawField> {
    seq![
        rawf("kbhugfree", "kbhugfree", RawStyle::Int),
        rawf("kbhugtotal", "hugtotal", RawStyle::Int),
        rawf("kbhugrsvd", "kbhugrsvd", RawStyle::Int),
        rawf("kbhugsurp", "kbhugsurp", RawStyle::Int),
    ]
}

pub fn huge_raw_list() -> (r: Vec<RawField>)
    ensures
        r@ == huge_raw(),
{
    vec![
        rawf("kbhugfree", "kbhugfree", RawStyle::Int),
        rawf("kbhugtotal", "hugtotal", RawStyle::Int),
        rawf("kbhugrsvd", "kbhugrsvd", RawStyle::Int),
        rawf("kbhugsurp", "kbhugsurp", RawStyle::Int),
    ]
}

pub open spec fn ktables_fields() -> Seq<Field> {
    seq![
        field("dentunusd", "dentunusd", Fmt::Int, "dentunusd", "dentunusd", Fmt::Int),
        field("file_nr", "file-nr", Fmt::Int, "file-nr", "file-nr", Fmt::Int),
        field("inode_nr", "inode-nr", Fmt::Int, "inode-nr", "inode-nr", Fmt::Int),
        field("pty_nr", "pty-nr", Fmt::Int, "pty-nr", "pty-nr", Fmt::Int),
    ]
}

pub fn ktables_fields_list() -> (r: Vec<Field>)
    ensures
        r@ == ktables_fields(),
{
    vec![
        field("dentunusd", "dentunusd", Fmt::Int, "dentunusd", "dentunusd", Fmt::Int),
        field("file_nr", "file-nr", Fmt::Int, "file-nr", "file-nr", Fmt::Int),
        field("inode_nr", "inode-nr", Fmt::Int, "inode-nr", "inode-nr", Fmt::Int),
        field("pty_nr", "pty-nr", Fmt::Int, "pty-nr", "pty-nr", Fmt::Int),
    ]
}

pub open spec fn ktables_raw() -> Seq<RawField> {
    seq![
        rawf("dentunusd", "dentunusd", RawStyle::Int),
        rawf("file_nr", "file-nr", RawStyle::Int),
        rawf("inode_nr", "inode-nr", RawStyle::Int),
        rawf("pty_nr", "pty-nr", RawStyle::Int),
    ]
}

pub fn ktables_raw_list() -> (r: Vec<RawField>)
    ensures
        r@ == ktables_raw(),
{
    vec![
        rawf("dentunusd", "dentunusd", RawStyle::Int),
        rawf("file_nr", "file-nr", RawStyle::Int),
        rawf("inode_nr", "inode-nr", RawStyle::Int),
        rawf("pty_nr", "pty-nr", RawStyle::Int),
    ]
}

pub open spec fn queue_fields() -> Seq<Field> {
    seq![
        field("runq_sz", "runq-sz", Fmt::Int, "runq-sz", "runq-sz", Fmt::Int),
        field("plist_sz", "plist-sz", Fmt::Int, "plist-sz", "plist-sz", Fmt::Int),
        rate("ldavg_1", "ldavg-1", "ldavg-1"),
        rate("ldavg_5", "ldavg-5", "ldavg-5"),
        rate("ldavg_15", "ldavg-15", "ldavg-15"),
        field("blocked", "blocked", Fmt::Int, "blocked", "blocked", Fmt::Int),
    ]
}

pub fn queue_fields_list() -> (r: Vec<Field>)
    ensures
        r@ == queue_fields(),
{
    vec![
        field("runq_sz", "runq-sz", Fmt::Int, "runq-sz", "runq-sz", Fmt::Int),
        field("plist_sz", "plist-sz", Fmt::Int, "plist-sz", "plist-sz", Fmt::Int),
        rate("ldavg_1", "ldavg-1", "ldavg-1"),
        rate("ldavg_5", "ldavg-5", "ldavg-5"),
        rate("ldavg_15", "ldavg-15", "ldavg-15"),
        field("blocked", "blocked", Fmt::Int, "blocked", "blocked", Fmt::Int),
    ]
}

pub open spec fn queue_raw() -> Seq<RawField> {
    seq![
        rawf("runq_sz", "runq-sz", RawStyle::Int),
        rawf("plist_sz", "plist-sz", RawStyle::Int),
        rawf("ldavg_1", "ldavg-1", RawStyle::Int),
        rawf("ldavg_5", "ldavg-5", RawStyle::Int),
        rawf("ldavg_15", "ldavg-15", RawStyle::Int),
        rawf("blocked", "blocked", RawStyle::Int),
    ]
}

pub fn queue_raw_list() -> (r: Vec<RawField>)
    ensures
        r@ == queue_raw(),
{
    vec![
        rawf("runq_sz", "runq-sz", RawStyle::Int),
        rawf("plist_sz", "plist-sz", RawStyle::Int),
        rawf("ldavg_1", "ldavg-1", RawStyle::Int),
        rawf("ldavg_5", "ldavg-5", RawStyle::Int),
        rawf("ldavg_15", "ldavg-15", RawStyle::Int),
        rawf("blocked", "blocked", RawStyle::Int),
    ]
}

pub open spec fn serial_fields() -> Seq<Field> {
    seq![
        item_key("line", "line", Fmt::ItemKeyNum),
        rate("rcvin", "rcvin/s", "rcvin"),
        rate("xmtin", "xmtin/s", "xmtin"),
        rate("framerr", "framerr/s", "framerr"),
        rate("prtyerr", "prtyerr/s", "prtyerr"),
        rate("brk", "brk/s", "brk"),
        rate("ovrun", "ovrun/s", "ovrun"),
    ]
}

pub fn serial_fields_list() -> (r: Vec<Field>)
    ensures
        r@ == serial_fields(),
{
    vec![
        item_key("line", "line", Fmt::ItemKeyNum),
        rate("rcvin", "rcvin/s", "rcvin"),
        rate("xmtin", "xmtin/s", "xmtin"),
        rate("framerr", "framerr/s", "framerr"),
        rate("prtyerr", "prtyerr/s", "prtyerr"),
        rate("brk", "brk/s", "brk"),
        rate("ovrun", "ovrun/s", "ovrun"),
    ]
}

pub open spec fn serial_raw() -> Seq<RawField> {
    seq![
        rawf("rcvin", "rcvin/s", RawStyle::Pval),
        rawf("xmtin", "xmtin/s", RawStyle::Pval),
        rawf("framerr", "framerr/s", RawStyle::Pval),
        rawf("prtyerr", "prtyerr/s", RawStyle::Pval),
        rawf("brk", "brk/s", RawStyle::Pval),
        rawf("ovrun", "ovrun/s", RawStyle::Pval),
    ]
}

pub fn serial_raw_list() -> (r: Vec<RawField>)
    ensures
        r@ == serial_raw(),
{
    vec![
        rawf("rcvin", "rcvin/s", RawStyle::Pval),
        rawf("xmtin", "xmtin/s", RawStyle::Pval),
        rawf("framerr", "framerr/s", RawStyle::Pval),
        rawf("prtyerr", "prtyerr/s", RawStyle::Pval),
        rawf("brk", "brk/s", RawStyle::Pval),
        rawf("ovrun", "ovrun/s", RawStyle::Pval),
    ]
}

pub open spec fn disk_fields() -> Seq<Field> {
    seq![
        item_key("disk-device", "dev", Fmt::ItemKeyStr),
        rate("tps", "tps", "tps"),
        field("", "", Fmt::Skip, "rd_sec", "rd_sec", Fmt::R2),
        field("", "", Fmt::Skip, "wr_sec", "wr_sec", Fmt::R2),
        field("", "", Fmt::Skip, "dc_sec", "dc_sec", Fmt::R2),
        rate("read_kb_per_sec", "rkB/s", "rkB"),
        rate("write_kb_per_sec", "wkB/s", "wkB"),
        rate("discard_kb_per_sec", "dkB/s", "dkB"),
        field("", "", Fmt::Skip, "avgrq-sz", "avgrq-sz", Fmt::R2),
        rate("avg_request_size", "areq-sz", "areq-sz"),
        field("avg_queue_size", "", Fmt::Skip, "avgqu-sz", "avgqu-sz", Fmt::R2),
        rate("avg_queue_size", "aqu-sz", "aqu-sz"),
        rate("await", "await", "await"),
        field("util_pct", "%util", Fmt::R2, "util-percent", "util-percent", Fmt::R2),
    ]
}

pub fn disk_fields_list() -> (r: Vec<Field>)
    ensures
        r@ == disk_fields(),
{
    vec![
        item_key("disk-device", "dev", Fmt::ItemKeyStr),
        rate("tps", "tps", "tps"),
        field("", "", Fmt::Skip, "rd_sec", "rd_sec", Fmt::R2),
        field("", "", Fmt::Skip, "wr_sec", "wr_sec", Fmt::R2),
        field("", "", Fmt::Skip, "dc_sec", "dc_sec", Fmt::R2),
        rate("read_kb_per_sec", "rkB/s", "rkB"),
        rate("write_kb_per_sec", "wkB/s", "wkB"),
        rate("discard_kb_per_sec", "dkB/s", "dkB"),
        field("", "", Fmt::Skip, "avgrq-sz", "avgrq-sz", Fmt::R2),
        rate("avg_request_size", "areq-sz", "areq-sz"),
        field("avg_queue_size", "", Fmt::Skip, "avgqu-sz", "avgqu-sz", Fmt::R2),
        rate("avg_queue_size", "aqu-sz", "aqu-sz"),
        rate("await", "await", "await"),
        field("util_pct", "%util", Fmt::R2, "util-percent", "util-percent", Fmt::R2),
    ]
}

pub open spec fn disk_raw() -> Seq<RawField> {
    seq![
        rawf("major", "major", RawStyle::Int),
        rawf("minor", "minor", RawStyle::Int),
        rawf("tps", "tps", RawStyle::Pval),
        rawf("read_kb_per_sec", "rkB/s", RawStyle::Pval),
        rawf("write_kb_per_sec", "wkB/s", RawStyle::Pval),
        rawf("discard_kb_per_sec", "dkB/s", RawStyle::Pval),
        rawf("read_ticks", "rd_ticks", RawStyle::Pval),
        rawf("write_ticks", "wr_ticks", RawStyle::Pval),
        rawf("discard_ticks", "dc_ticks", RawStyle::Pval),
        rawf("util_pct", "tot_ticks", RawStyle::Pval),
        rawf("avg_queue_size", "aqu-sz", RawStyle::Pval),
    ]
}

pub fn disk_raw_list() -> (r: Vec<RawField>)
    ensures
        r@ == disk_raw(),
{
    vec![
        rawf("major", "major", RawStyle::Int),
        rawf("minor", "minor", RawStyle::Int),
        rawf("tps", "tps", RawStyle::Pval),
        rawf("read_kb_per_sec", "rkB/s", RawStyle::Pval),
        rawf("write_kb_per_sec", "wkB/s", RawStyle::Pval),
        rawf("discard_kb_per_sec", "dkB/s", RawStyle::Pval),
        rawf("read_ticks", "rd_ticks", RawStyle::Pval),
        rawf("write_ticks", "wr_ticks", RawStyle::Pval),
        rawf("discard_ticks", "dc_ticks", RawStyle::Pval),
        rawf("util_pct", "tot_ticks", RawStyle::Pval),
        rawf("avg_queue_size", "aqu-sz", RawStyle::Pval),
    ]
}

pub open spec fn net_dev_fields() -> Seq<Field> {
    seq![
        item_key("iface", "iface", Fmt::ItemKeyStr),
        rate("rxpck_per_sec", "rxpck/s", "rxpck"),
        rate("txpck_per_sec", "txpck/s", "txpck"),
        rate("rx_bytes_per_sec", "rxkB/s", "rxkB"),
        rate("tx_bytes_per_sec", "txkB/s", "txkB"),
        rate("rxcmp_per_sec", "rxcmp/s", "rxcmp"),
        rate("txcmp_per_sec", "txcmp/s", "txcmp"),
        rate("rxmcst_per_sec", "rxmcst/s", "rxmcst"),
        field("ifutil_pct", "%ifutil", Fmt::R2, "ifutil-percent", "ifutil-percent", Fmt::R2),
    ]
}

pub fn net_dev_fields_list() -> (r: Vec<Field>)
    ensures
        r@ == net_dev_fields(),
{
    vec![
        item_key("iface", "iface", Fmt::ItemKeyStr),
        rate("rxpck_per_sec", "rxpck/s", "rxpck"),
        rate("txpck_per_sec", "txpck/s", "txpck"),
        rate("rx_bytes_per_sec", "rxkB/s", "rxkB"),
        rate("tx_bytes_per_sec", "txkB/s", "txkB"),
        rate("rxcmp_per_sec", "rxcmp/s", "rxcmp"),
        rate("txcmp_per_sec", "txcmp/s", "txcmp"),
        rate("rxmcst_per_sec", "rxmcst/s", "rxmcst"),
        field("ifutil_pct", "%ifutil", Fmt::R2, "ifutil-percent", "ifutil-percent", Fmt::R2),
    ]
}

pub open spec fn net_dev_raw() -> Seq<RawField> {
    seq![
        rawf("rxpck_per_sec", "rxpck/s", RawStyle::Pval),
        rawf("txpck_per_sec", "txpck/s", RawStyle::Pval),
        rawf("rx_bytes_per_sec", "rxkB/s", RawStyle::Pval),
        rawf("tx_bytes_per_sec", "txkB/s", RawStyle::Pval),
        rawf("rxcmp_per_sec", "rxcmp/s", RawStyle::Pval),
        rawf("txcmp_per_sec", "txcmp/s", RawStyle::Pval),
        rawf("rxmcst_per_sec", "rxmcst/s", RawStyle::Pval),
        rawf("speed", "speed", RawStyle::Int),
        rawf("duplex", "duplex", RawStyle::Int),
    ]
}

pub fn net_dev_raw_list() -> (r: Vec<RawField>)
    ensures
        r@ == net_dev_raw(),
{
    vec![
        rawf("rxpck_per_sec", "rxpck/s", RawStyle::Pval),
        rawf("txpck_per_sec", "txpck/s", RawStyle::Pval),
        rawf("rx_bytes_per_sec", "rxkB/s", RawStyle::Pval),
        rawf("tx_bytes_per_sec", "txkB/s", RawStyle::Pval),
        rawf("rxcmp_per_sec", "rxcmp/s", RawStyle::Pval),
        rawf("txcmp_per_sec", "txcmp/s", RawStyle::Pval),
        rawf("rxmcst_per_sec", "rxmcst/s", RawStyle::Pval),
        rawf("speed", "speed", RawStyle::Int),
        rawf("duplex", "duplex", RawStyle::Int),
    ]
}

pub open spec fn net_edev_fields() -> Seq<Field> {
    seq![
        item_key("iface", "iface", Fmt::ItemKeyStr),
        rate("rxerr_per_sec", "rxerr/s", "rxerr"),
        rate("txerr_per_sec", "txerr/s", "txerr"),
        rate("coll_per_sec", "coll/s", "coll"),
        rate("rxdrop_per_sec", "rxdrop/s", "rxdrop"),
        rate("txdrop_per_sec", "txdrop/s", "txdrop"),
        rate("txcarr_per_sec", "txcarr/s", "txcarr"),
        rate("rxfram_per_sec", "rxfram/s", "rxfram"),
        rate("rxfifo_per_sec", "rxfifo/s", "rxfifo"),
        rate("txfifo_per_sec", "txfifo/s", "txfifo"),
    ]
}

pub fn net_edev_fields_list() -> (r: Vec<Field>)
    ensures
        r@ == net_edev_fields(),
{
    vec![
        item_key("iface", "iface", Fmt::ItemKeyStr),
        rate("rxerr_per_sec", "rxerr/s", "rxerr"),
        rate("txerr_per_sec", "txerr/s", "txerr"),
        rate("coll_per_sec", "coll/s", "coll"),
        rate("rxdrop_per_sec", "rxdrop/s", "rxdrop"),
        rate("txdrop_per_sec", "txdrop/s", "txdrop"),
        rate("txcarr_per_sec", "txcarr/s", "txcarr"),
        rate("rxfram_per_sec", "rxfram/s", "rxfram"),
        rate("rxfifo_per_sec", "rxfifo/s", "rxfifo"),
        rate("txfifo_per_sec", "txfifo/s", "txfifo"),
    ]
}

pub open spec fn net_nfs_fields() -> Seq<Field> {
    seq![
        rate("call_per_sec", "call/s", "call"),
        rate("retrans_per_sec", "retrans/s", "retrans"),
        rate("read_per_sec", "read/s", "read"),
        rate("write_per_sec", "write/s", "write"),
        rate("access_per_sec", "access/s", "access"),
        rate("getatt_per_sec", "getatt/s", "getatt"),
    ]
}

pub fn net_nfs_fields_list() -> (r: Vec<Field>)
    ensures
        r@ == net_nfs_fields(),
{
    vec![
        rate("call_per_sec", "call/s", "call"),
        rate("retrans_per_sec", "retrans/s", "retrans"),
        rate("read_per_sec", "read/s", "read"),
        rate("write_per_sec", "write/s", "write"),
        rate("access_per_sec", "access/s", "access"),
        rate("getatt_per_sec", "getatt/s", "getatt"),
    ]
}

pub open spec fn net_nfsd_fields() -> Seq<Field> {
    seq![
        rate("scall_per_sec", "scall/s", "scall"),
        rate("badcall_per_sec", "badcall/s", "badcall"),
        rate("packet_per_sec", "packet/s", "packet"),
        rate("udp_per_sec", "udp/s", "udp"),
        rate("tcp_per_sec", "tcp/s", "tcp"),
        rate("hit_per_sec", "hit/s", "hit"),
        rate("miss_per_sec", "miss/s", "miss"),
        rate("sread_per_sec", "sread/s", "sread"),
        rate("swrite_per_sec", "swrite/s", "swrite"),
        rate("saccess_per_sec", "saccess/s", "saccess"),
        rate("sgetatt_per_sec", "sgetatt/s", "sgetatt"),
    ]
}

pub fn net_nfsd_fields_list() -> (r: Vec<Field>)
    ensures
        r@ == net_nfsd_fields(),
{
    vec![
        rate("scall_per_sec", "scall/s", "scall"),
        rate("badcall_per_sec", "badcall/s", "badcall"),
        rate("packet_per_sec", "packet/s", "packet"),
        rate("udp_per_sec", "udp/s", "udp"),
        rate("tcp_per_sec", "tcp/s", "tcp"),
        rate("hit_per_sec", "hit/s", "hit"),
        rate("miss_per_sec", "miss/s", "miss"),
        rate("sread_per_sec", "sread/s", "sread"),
        rate("swrite_per_sec", "swrite/s", "swrite"),
        rate("saccess_per_sec", "saccess/s", "saccess"),
        rate("sgetatt_per_sec", "sgetatt/s", "sgetatt"),
    ]
}

pub open spec fn net_sock_fields() -> Seq<Field> {
    seq![
        field("totsck", "totsck", Fmt::Int, "totsck", "totsck", Fmt::Int),
        field("tcpsck", "tcpsck", Fmt::Int, "tcpsck", "tcpsck", Fmt::Int),
        field("udpsck", "udpsck", Fmt::Int, "udpsck", "udpsck", Fmt::Int),
        field("rawsck", "rawsck", Fmt::Int, "rawsck", "rawsck", Fmt::Int),
        field("ip_frag", "ip-frag", Fmt::Int, "ip-frag", "ip-frag", Fmt::Int),
        field("tcp_tw", "tcp-tw", Fmt::Int, "tcp-tw", "tcp-tw", Fmt::Int),
    ]
}

pub fn net_sock_fields_list() -> (r: Vec<Field>)
    ensures
        r@ == net_sock_fields(),
{
    vec![
        field("totsck", "totsck", Fmt::Int, "totsck", "totsck", Fmt::Int),
        field("tcpsck", "tcpsck", Fmt::Int, "tcpsck", "tcpsck", Fmt::Int),
        field("udpsck", "udpsck", Fmt::Int, "udpsck", "udpsck", Fmt::Int),
        field("rawsck", "rawsck", Fmt::Int, "rawsck", "rawsck", Fmt::Int),
        field("ip_frag", "ip-frag", Fmt::Int, "ip-frag", "ip-frag", Fmt::Int),
        field("tcp_tw", "tcp-tw", Fmt::Int, "tcp-tw", "tcp-tw", Fmt::Int),
    ]
}

pub open spec fn net_sock_raw() -> Seq<RawField> {
    seq![
        rawf("totsck", "totsck", RawStyle::Int),
        rawf("tcpsck", "tcpsck", RawStyle::Int),
        rawf("udpsck", "udpsck", RawStyle::Int),
        rawf("rawsck", "rawsck", RawStyle::Int),
        rawf("ip_frag", "ip-frag", RawStyle::Int),
        rawf("tcp_tw", "tcp-tw", RawStyle::Int),
    ]
}

pub fn net_sock_raw_list() -> (r: Vec<RawField>)
    ensures
        r@ == net_sock_raw(),
{
    vec![
        rawf("totsck", "totsck", RawStyle::Int),
        rawf("tcpsck", "tcpsck", RawStyle::Int),
        rawf("udpsck", "udpsck", RawStyle::Int),
        rawf("rawsck", "rawsck", RawStyle::Int),
        rawf("ip_frag", "ip-frag", RawStyle::Int),
        rawf("tcp_tw", "tcp-tw", RawStyle::Int),
    ]
}

pub open spec fn net_ip_fields() -> Seq<Field> {
    seq![
        rate("irec_per_sec", "irec/s", "irec"),
        rate("fwddgm_per_sec", "fwddgm/s", "fwddgm"),
        rate("idel_per_sec", "idel/s", "idel"),
        rate("orq_per_sec", "orq/s", "orq"),
        rate("asmrq_per_sec", "asmrq/s", "asmrq"),
        rate("asmok_per_sec", "asmok/s", "asmok"),
        rate("fragok_per_sec", "fragok/s", "fragok"),
        rate("fragcrt_per_sec", "fragcrt/s", "fragcrt"),
    ]
}

pub fn net_ip_fields_list() -> (r: Vec<Field>)
    ensures
        r@ == net_ip_fields(),
{
    vec![
        rate("irec_per_sec", "irec/s", "irec"),
        rate("fwddgm_per_sec", "fwddgm/s", "fwddgm"),
        rate("idel_per_sec", "idel/s", "idel"),
        rate("orq_per_sec", "orq/s", "orq"),
        rate("asmrq_per_sec", "asmrq/s", "asmrq"),
        rate("asmok_per_sec", "asmok/s", "asmok"),
        rate("fragok_per_sec", "fragok/s", "fragok"),
        rate("fragcrt_per_sec", "fragcrt/s", "fragcrt"),
    ]
}

pub open spec fn net_eip_fields() -> Seq<Field> {
    seq![
        rate("ihdrerr_per_sec", "ihdrerr/s", "ihdrerr"),
        rate("iadrerr_per_sec", "iadrerr/s", "iadrerr"),
        rate("iukwnpr_per_sec", "iukwnpr/s", "iukwnpr"),
        rate("idisc_per_sec", "idisc/s", "idisc"),
        rate("odisc_per_sec", "odisc/s", "odisc"),
        rate("onort_per_sec", "onort/s", "onort"),
        rate("asmf_per_sec", "asmf/s", "asmf"),
        rate("fragf_per_sec", "fragf/s", "fragf"),
    ]
}

pub fn net_eip_fields_list() -> (r: Vec<Field>)
    ensures
        r@ == net_eip_fields(),
{
    vec![
        rate("ihdrerr_per_sec", "ihdrerr/s", "ihdrerr"),
        rate("iadrerr_per_sec", "iadrerr/s", "iadrerr"),
        rate("iukwnpr_per_sec", "iukwnpr/s", "iukwnpr"),
        rate("idisc_per_sec", "idisc/s", "idisc"),
        rate("odisc_per_sec", "odisc/s", "odisc"),
        rate("onort_per_sec", "onort/s", "onort"),
        rate("asmf_per_sec", "asmf/s", "asmf"),
        rate("fragf_per_sec", "fragf/s", "fragf"),
    ]
}

pub open spec fn net_icmp_fields() -> Seq<Field> {
    seq![
        rate("imsg_per_sec", "imsg/s", "imsg"),
        rate("omsg_per_sec", "omsg/s", "omsg"),
        rate("iech_per_sec", "iech/s", "iech"),
        rate("iechr_per_sec", "iechr/s", "iechr"),
        rate("oech_per_sec", "oech/s", "oech"),
        rate("oechr_per_sec", "oechr/s", "oechr"),
        rate("itm_per_sec", "itm/s", "itm"),
        rate("itmr_per_sec", "itmr/s", "itmr"),
        rate("otm_per_sec", "otm/s", "otm"),
        rate("otmr_per_sec", "otmr/s", "otmr"),
        rate("iadrmk_per_sec", "iadrmk/s", "iadrmk"),
        rate("iadrmkr_per_sec", "iadrmkr/s", "iadrmkr"),
        rate("oadrmk_per_sec", "oadrmk/s", "oadrmk"),
        rate("oadrmkr_per_sec", "oadrmkr/s", "oadrmkr"),
    ]
}

pub fn net_icmp_fields_list() -> (r: Vec<Field>)
    ensures
        r@ == net_icmp_fields(),
{
    vec![
        rate("imsg_per_sec", "imsg/s", "imsg"),
        rate("omsg_per_sec", "omsg/s", "omsg"),
        rate("iech_per_sec", "iech/s", "iech"),
        rate("iechr_per_sec", "iechr/s", "iechr"),
        rate("oech_per_sec", "oech/s", "oech"),
        rate("oechr_per_sec", "oechr/s", "oechr"),
        rate("itm_per_sec", "itm/s", "itm"),
        rate("itmr_per_sec", "itmr/s", "itmr"),
        rate("otm_per_sec", "otm/s", "otm"),
        rate("otmr_per_sec", "otmr/s", "otmr"),
        rate("iadrmk_per_sec", "iadrmk/s", "iadrmk"),
        rate("iadrmkr_per_sec", "iadrmkr/s", "iadrmkr"),
        rate("oadrmk_per_sec", "oadrmk/s", "oadrmk"),
        rate("oadrmkr_per_sec", "oadrmkr/s", "oadrmkr"),
    ]
}

pub open spec fn net_eicmp_fields() -> Seq<Field> {
    seq![
        rate("ierr_per_sec", "ierr/s", "ierr"),
        rate("oerr_per_sec", "oerr/s", "oerr"),
        rate("idstunr_per_sec", "idstunr/s", "idstunr"),
        rate("odstunr_per_sec", "odstunr/s", "odstunr"),
        rate("itmex_per_sec", "itmex/s", "itmex"),
        rate("otmex_per_sec", "otmex/s", "otmex"),
        rate("iparmpb_per_sec", "iparmpb/s", "iparmpb"),
        rate("oparmpb_per_sec", "oparmpb/s", "oparmpb"),
        rate("isrcq_per_sec", "isrcq/s", "isrcq"),
        rate("osrcq_per_sec", "osrcq/s", "osrcq"),
        rate("iredir_per_sec", "iredir/s", "iredir"),
        rate("oredir_per_sec", "oredir/s", "oredir"),
    ]
}

pub fn net_eicmp_fields_list() -> (r: Vec<Field>)
    ensures
        r@ == net_eicmp_fields(),
{
    vec![
        rate("ierr_per_sec", "ierr/s", "ierr"),
        rate("oerr_per_sec", "oerr/s", "oerr"),
        rate("idstunr_per_sec", "idstunr/s", "idstunr"),
        rate("odstunr_per_sec", "odstunr/s", "odstunr"),
        rate("itmex_per_sec", "itmex/s", "itmex"),
        rate("otmex_per_sec", "otmex/s", "otmex"),
        rate("iparmpb_per_sec", "iparmpb/s", "iparmpb"),
        rate("oparmpb_per_sec", "oparmpb/s", "oparmpb"),
        rate("isrcq_per_sec", "isrcq/s", "isrcq"),
        rate("osrcq_per_sec", "osrcq/s", "osrcq"),
        rate("iredir_per_sec", "iredir/s", "iredir"),
        rate("oredir_per_sec", "oredir/s", "oredir"),
    ]
}

pub open spec fn net_tcp_fields() -> Seq<Field> {
    seq![
        rate("active_per_sec", "active/s", "active"),
        rate("passive_per_sec", "passive/s", "passive"),
        rate("iseg_per_sec", "iseg/s", "iseg"),
        rate("oseg_per_sec", "oseg/s", "oseg"),
    ]
}

pub fn net_tcp_fields_list() -> (r: Vec<Field>)
    ensures
        r@ == net_tcp_fields(),
{
    vec![
        rate("active_per_sec", "active/s", "active"),
        rate("passive_per_sec", "passive/s", "passive"),
        rate("iseg_per_sec", "iseg/s", "iseg"),
        rate("oseg_per_sec", "oseg/s", "oseg"),
    ]
}

pub open spec fn net_etcp_fields() -> Seq<Field> {
    seq![
        rate("atmptf_per_sec", "atmptf/s", "atmptf"),
        rate("estres_per_sec", "estres/s", "estres"),
        rate("retrseg_per_sec", "retrseg/s", "retrseg"),
        rate("isegerr_per_sec", "isegerr/s", "isegerr"),
        rate("orsts_per_sec", "orsts/s", "orsts"),
    ]
}

pub fn net_etcp_fields_list() -> (r: Vec<Field>)
    ensures
        r@ == net_etcp_fields(),
{
    vec![
        rate("atmptf_per_sec", "atmptf/s", "atmptf"),
        rate("estres_per_sec", "estres/s", "estres"),
        rate("retrseg_per_sec", "retrseg/s", "retrseg"),
        rate("isegerr_per_sec", "isegerr/s", "isegerr"),
        rate("orsts_per_sec", "orsts/s", "orsts"),
    ]
}

pub open spec fn net_udp_fields() -> Seq<Field> {
    seq![
        rate("idgm_per_sec", "idgm/s", "idgm"),
        rate("odgm_per_sec", "odgm/s", "odgm"),
        rate("noport_per_sec", "noport/s", "noport"),
        rate("idgmerr_per_sec", "idgmerr/s", "idgmerr"),
    ]
}

pub fn net_udp_fields_list() -> (r: Vec<Field>)
    ensures
        r@ == net_udp_fields(),
{
    vec![
        rate("idgm_per_sec", "idgm/s", "idgm"),
        rate("odgm_per_sec", "odgm/s", "odgm"),
        rate("noport_per_sec", "noport/s", "noport"),
        rate("idgmerr_per_sec", "idgmerr/s", "idgmerr"),
    ]
}

pub open spec fn net_sock6_fields() -> Seq<Field> {
    seq![
        field("tcp6sck", "tcp6sck", Fmt::Int, "tcp6sck", "tcp6sck", Fmt::Int),
        field("udp6sck", "udp6sck", Fmt::Int, "udp6sck", "udp6sck", Fmt::Int),
        field("raw6sck", "raw6sck", Fmt::Int, "raw6sck", "raw6sck", Fmt::Int),
        field("ip6_frag", "ip6-frag", Fmt::Int, "ip6-frag", "ip6-frag", Fmt::Int),
    ]
}

pub fn net_sock6_fields_list() -> (r: Vec<Field>)
    ensures
        r@ == net_sock6_fields(),
{
    vec![
        field("tcp6sck", "tcp6sck", Fmt::Int, "tcp6sck", "tcp6sck", Fmt::Int),
        field("udp6sck", "udp6sck", Fmt::Int, "udp6sck", "udp6sck", Fmt::Int),
        field("raw6sck", "raw6sck", Fmt::Int, "raw6sck", "raw6sck", Fmt::Int),
        field("ip6_frag", "ip6-frag", Fmt::Int, "ip6-frag", "ip6-frag", Fmt::Int),
    ]
}

pub open spec fn net_sock6_raw() -> Seq<RawField> {
    seq![
        rawf("tcp6sck", "tcp6sck", RawStyle::Int),
        rawf("udp6sck", "udp6sck", RawStyle::Int),
        rawf("raw6sck", "raw6sck", RawStyle::Int),
        rawf("ip6_frag", "ip6-frag", RawStyle::Int),
    ]
}

pub fn net_sock6_raw_list() -> (r: Vec<RawField>)
    ensures
        r@ == net_sock6_raw(),
{
    vec![
        rawf("tcp6sck", "tcp6sck", RawStyle::Int),
        rawf("udp6sck", "udp6sck", RawStyle::Int),
        rawf("raw6sck", "raw6sck", RawStyle::Int),
        rawf("ip6_frag", "ip6-frag", RawStyle::Int),
    ]
}

pub open spec fn net_ip6_fields() -> Seq<Field> {
    seq![
        rate("irec6_per_sec", "irec6/s", "irec6"),
        rate("fwddgm6_per_sec", "fwddgm6/s", "fwddgm6"),
        rate("idel6_per_sec", "idel6/s", "idel6"),
        rate("orq6_per_sec", "orq6/s", "orq6"),
        rate("asmrq6_per_sec", "asmrq6/s", "asmrq6"),
        rate("asmok6_per_sec", "asmok6/s", "asmok6"),
        rate("imcpck6_per_sec", "imcpck6/s", "imcpck6"),
        rate("omcpck6_per_sec", "omcpck6/s", "omcpck6"),
        rate("fragok6_per_sec", "fragok6/s", "fragok6"),
        rate("fragcr6_per_sec", "fragcr6/s", "fragcr6"),
    ]
}

pub fn net_ip6_fields_list() -> (r: Vec<Field>)
    ensures
        r@ == net_ip6_fields(),
{
    vec![
        rate("irec6_per_sec", "irec6/s", "irec6"),
        rate("fwddgm6_per_sec", "fwddgm6/s", "fwddgm6"),
        rate("idel6_per_sec", "idel6/s", "idel6"),
        rate("orq6_per_sec", "orq6/s", "orq6"),
        rate("asmrq6_per_sec", "asmrq6/s", "asmrq6"),
        rate("asmok6_per_sec", "asmok6/s", "asmok6"),
        rate("imcpck6_per_sec", "imcpck6/s", "imcpck6"),
        rate("omcpck6_per_sec", "omcpck6/s", "omcpck6"),
        rate("fragok6_per_sec", "fragok6/s", "fragok6"),
        rate("fragcr6_per_sec", "fragcr6/s", "fragcr6"),
    ]
}

pub open spec fn net_eip6_fields() -> Seq<Field> {
    seq![
        rate("ihdrer6_per_sec", "ihdrer6/s", "ihdrer6"),
        rate("iadrer6_per_sec", "iadrer6/s", "iadrer6"),
        rate("iukwnp6_per_sec", "iukwnp6/s", "iukwnp6"),
        rate("i2big6_per_sec", "i2big6/s", "i2big6"),
        rate("idisc6_per_sec", "idisc6/s", "idisc6"),
        rate("odisc6_per_sec", "odisc6/s", "odisc6"),
        rate("inort6_per_sec", "inort6/s", "inort6"),
        rate("onort6_per_sec", "onort6/s", "onort6"),
        rate("asmf6_per_sec", "asmf6/s", "asmf6"),
        rate("fragf6_per_sec", "fragf6/s", "fragf6"),
        rate("itrpck6_per_sec", "itrpck6/s", "itrpck6"),
    ]
}

pub fn net_eip6_fields_list() -> (r: Vec<Field>)
    ensures
        r@ == net_eip6_fields(),
{
    vec![
        rate("ihdrer6_per_sec", "ihdrer6/s", "ihdrer6"),
        rate("iadrer6_per_sec", "iadrer6/s", "iadrer6"),
        rate("iukwnp6_per_sec", "iukwnp6/s", "iukwnp6"),
        rate("i2big6_per_sec", "i2big6/s", "i2big6"),
        rate("idisc6_per_sec", "idisc6/s", "idisc6"),
        rate("odisc6_per_sec", "odisc6/s", "odisc6"),
        rate("inort6_per_sec", "inort6/s", "inort6"),
        rate("onort6_per_sec", "onort6/s", "onort6"),
        rate("asmf6_per_sec", "asmf6/s", "asmf6"),
        rate("fragf6_per_sec", "fragf6/s", "fragf6"),
        rate("itrpck6_per_sec", "itrpck6/s", "itrpck6"),
    ]
}

pub open spec fn net_icmp6_fields() -> Seq<Field> {
    seq![
        rate("imsg6_per_sec", "imsg6/s", "imsg6"),
        rate("omsg6_per_sec", "omsg6/s", "omsg6"),
        rate("iech6_per_sec", "iech6/s", "iech6"),
        rate("iechr6_per_sec", "iechr6/s", "iechr6"),
        rate("oechr6_per_sec", "oechr6/s", "oechr6"),
        rate("igmbq6_per_sec", "igmbq6/s", "igmbq6"),
        rate("igmbr6_per_sec", "igmbr6/s", "igmbr6"),
        rate("ogmbr6_per_sec", "ogmbr6/s", "ogmbr6"),
        rate("igmbrd6_per_sec", "igmbrd6/s", "igmbrd6"),
        rate("ogmbrd6_per_sec", "ogmbrd6/s", "ogmbrd6"),
        rate("irtsol6_per_sec", "irtsol6/s", "irtsol6"),
        rate("ortsol6_per_sec", "ortsol6/s", "ortsol6"),
        rate("irtad6_per_sec", "irtad6/s", "irtad6"),
        rate("inbsol6_per_sec", "inbsol6/s", "inbsol6"),
        rate("onbsol6_per_sec", "onbsol6/s", "onbsol6"),
        rate("inbad6_per_sec", "inbad6/s", "inbad6"),
        rate("onbad6_per_sec", "onbad6/s", "onbad6"),
    ]
}

pub fn net_icmp6_fields_list() -> (r: Vec<Field>)
    ensures
        r@ == net_icmp6_fields(),
{
    vec![
        rate("imsg6_per_sec", "imsg6/s", "imsg6"),
        rate("omsg6_per_sec", "omsg6/s", "omsg6"),
        rate("iech6_per_sec", "iech6/s", "iech6"),
        rate("iechr6_per_sec", "iechr6/s", "iechr6"),
        rate("oechr6_per_sec", "oechr6/s", "oechr6"),
        rate("igmbq6_per_sec", "igmbq6/s", "igmbq6"),
        rate("igmbr6_per_sec", "igmbr6/s", "igmbr6"),
        rate("ogmbr6_per_sec", "ogmbr6/s", "ogmbr6"),
        rate("igmbrd6_per_sec", "igmbrd6/s", "igmbrd6"),
        rate("ogmbrd6_per_sec", "ogmbrd6/s", "ogmbrd6"),
        rate("irtsol6_per_sec", "irtsol6/s", "irtsol6"),
        rate("ortsol6_per_sec", "ortsol6/s", "ortsol6"),
        rate("irtad6_per_sec", "irtad6/s", "irtad6"),
        rate("inbsol6_per_sec", "inbsol6/s", "inbsol6"),
        rate("onbsol6_per_sec", "onbsol6/s", "onbsol6"),
        rate("inbad6_per_sec", "inbad6/s", "inbad6"),
        rate("onbad6_per_sec", "onbad6/s", "onbad6"),
    ]
}

pub open spec fn net_eicmp6_fields() -> Seq<Field> {
    seq![
        rate("ierr6_per_sec", "ierr6/s", "ierr6"),
        rate("idtunr6_per_sec", "idtunr6/s", "idtunr6"),
        rate("odtunr6_per_sec", "odtunr6/s", "odtunr6"),
        rate("itmex6_per_sec", "itmex6/s", "itmex6"),
        rate("otmex6_per_sec", "otmex6/s", "otmex6"),
        rate("iprmpb6_per_sec", "iprmpb6/s", "iprmpb6"),
        rate("oprmpb6_per_sec", "oprmpb6/s", "oprmpb6"),
        rate("iredir6_per_sec", "iredir6/s", "iredir6"),
        rate("oredir6_per_sec", "oredir6/s", "oredir6"),
        rate("ipck2b6_per_sec", "ipck2b6/s", "ipck2b6"),
        rate("opck2b6_per_sec", "opck2b6/s", "opck2b6"),
    ]
}

pub fn net_eicmp6_fields_list() -> (r: Vec<Field>)
    ensures
        r@ == net_eicmp6_fields(),
{
    vec![
        rate("ierr6_per_sec", "ierr6/s", "ierr6"),
        rate("idtunr6_per_sec", "idtunr6/s", "idtunr6"),
        rate("odtunr6_per_sec", "odtunr6/s", "odtunr6"),
        rate("itmex6_per_sec", "itmex6/s", "itmex6"),
        rate("otmex6_per_sec", "otmex6/s", "otmex6"),
        rate("iprmpb6_per_sec", "iprmpb6/s", "iprmpb6"),
        rate("oprmpb6_per_sec", "oprmpb6/s", "oprmpb6"),
        rate("iredir6_per_sec", "iredir6/s", "iredir6"),
        rate("oredir6_per_sec", "oredir6/s", "oredir6"),
        rate("ipck2b6_per_sec", "ipck2b6/s", "ipck2b6"),
        rate("opck2b6_per_sec", "opck2b6/s", "opck2b6"),
    ]
}

pub open spec fn net_udp6_fields() -> Seq<Field> {
    seq![
        rate("idgm6_per_sec", "idgm6/s", "idgm6"),
        rate("odgm6_per_sec", "odgm6/s", "odgm6"),
        rate("noport6_per_sec", "noport6/s", "noport6"),
        rate("idgmer6_per_sec", "idgmer6/s", "idgmer6"),
    ]
}

pub fn net_udp6_fields_list() -> (r: Vec<Field>)
    ensures
        r@ == net_udp6_fields(),
{
    vec![
        rate("idgm6_per_sec", "idgm6/s", "idgm6"),
        rate("odgm6_per_sec", "odgm6/s", "odgm6"),
        rate("noport6_per_sec", "noport6/s", "noport6"),
        rate("idgmer6_per_sec", "idgmer6/s", "idgmer6"),
    ]
}

pub open spec fn net_fc_fields() -> Seq<Field> {
    seq![
        item_key("fchost", "name", Fmt::ItemKeyStr),
        rate("fch_rxf_per_sec", "fch_rxf/s", "fch_rxf"),
        rate("fch_txf_per_sec", "fch_txf/s", "fch_txf"),
        rate("fch_rxw_per_sec", "fch_rxw/s", "fch_rxw"),
        rate("fch_txw_per_sec", "fch_txw/s", "fch_txw"),
    ]
}

pub fn net_fc_fields_list() -> (r: Vec<Field>)
    ensures
        r@ == net_fc_fields(),
{
    vec![
        item_key("fchost", "name", Fmt::ItemKeyStr),
        rate("fch_rxf_per_sec", "fch_rxf/s", "fch_rxf"),
        rate("fch_txf_per_sec", "fch_txf/s", "fch_txf"),
        rate("fch_rxw_per_sec", "fch_rxw/s", "fch_rxw"),
        rate("fch_txw_per_sec", "fch_txw/s", "fch_txw"),
    ]
}

pub open spec fn net_soft_fields() -> Seq<Field> {
    seq![
        item_key("cpu", "cpu", Fmt::ItemKeyStr),
        rate("total_per_sec", "total/s", "total"),
        rate("dropd_per_sec", "dropd/s", "dropd"),
        rate("squeezd_per_sec", "squeezd/s", "squeezd"),
        rate("rx_rps_per_sec", "rx_rps/s", "rx_rps"),
        rate("flw_lim_per_sec", "flw_lim/s", "flw_lim"),
        field("blg_len", "blg_len", Fmt::Int, "blg_len", "blg_len", Fmt::Int),
    ]
}

pub fn net_soft_fields_list() -> (r: Vec<Field>)
    ensures
        r@ == net_soft_fields(),
{
    vec![
        item_key("cpu", "cpu", Fmt::ItemKeyStr),
        rate("total_per_sec", "total/s", "total"),
        rate("dropd_per_sec", "dropd/s", "dropd"),
        rate("squeezd_per_sec", "squeezd/s", "squeezd"),
        rate("rx_rps_per_sec", "rx_rps/s", "rx_rps"),
        rate("flw_lim_per_sec", "flw_lim/s", "flw_lim"),
        field("blg_len", "blg_len", Fmt::Int, "blg_len", "blg_len", Fmt::Int),
    ]
}

pub open spec fn net_soft_raw() -> Seq<RawField> {
    seq![
        rawf("total_per_sec", "total/s", RawStyle::Pval),
        rawf("dropd_per_sec", "dropd/s", RawStyle::Pval),
        rawf("squeezd_per_sec", "squeezd/s", RawStyle::Pval),
        rawf("rx_rps_per_sec", "rx_rps/s", RawStyle::Pval),
        rawf("flw_lim_per_sec", "flw_lim/s", RawStyle::Pval),
        rawf("blg_len", "blg_len", RawStyle::Int),
    ]
}

pub fn net_soft_raw_list() -> (r: Vec<RawField>)
    ensures
        r@ == net_soft_raw(),
{
    vec![
        rawf("total_per_sec", "total/s", RawStyle::Pval),
        rawf("dropd_per_sec", "dropd/s", RawStyle::Pval),
        rawf("squeezd_per_sec", "squeezd/s", RawStyle::Pval),
        rawf("rx_rps_per_sec", "rx_rps/s", RawStyle::Pval),
        rawf("flw_lim_per_sec", "flw_lim/s", RawStyle::Pval),
        rawf("blg_len", "blg_len", RawStyle::Int),
    ]
}

pub open spec fn pwr_cpu_fields() -> Seq<Field> {
    seq![
        item_key("number", "number", Fmt::ItemKeyStr),
        rate("mhz", "MHz", "frequency"),
    ]
}

pub fn pwr_cpu_fields_list() -> (r: Vec<Field>)
    ensures
        r@ == pwr_cpu_fields(),
{
    vec![
        item_key("number", "number", Fmt::ItemKeyStr),
        rate("mhz", "MHz", "frequency"),
    ]
}

pub open spec fn pwr_cpu_raw() -> Seq<RawField> {
    seq![
        rawf("mhz", "MHz", RawStyle::Int),
    ]
}

pub fn pwr_cpu_raw_list() -> (r: Vec<RawField>)
    ensures
        r@ == pwr_cpu_raw(),
{
    vec![
        rawf("mhz", "MHz", RawStyle::Int),
    ]
}

pub open spec fn pwr_fan_fields() -> Seq<Field> {
    seq![
        item_key("number", "number", Fmt::ItemKeyNum),
        field("device", "DEVICE", Fmt::Str, "device", "device", Fmt::Str),
        field("rpm", "rpm", Fmt::R2, "rpm", "rpm", Fmt::Int),
        field("rpm_delta", "drpm", Fmt::R2, "drpm", "drpm", Fmt::Int),
    ]
}

pub fn pwr_fan_fields_list() -> (r: Vec<Field>)
    ensures
        r@ == pwr_fan_fields(),
{
    vec![
        item_key("number", "number", Fmt::ItemKeyNum),
        field("device", "DEVICE", Fmt::Str, "device", "device", Fmt::Str),
        field("rpm", "rpm", Fmt::R2, "rpm", "rpm", Fmt::Int),
        field("rpm_delta", "drpm", Fmt::R2, "drpm", "drpm", Fmt::Int),
    ]
}

pub open spec fn pwr_fan_raw() -> Seq<RawField> {
    seq![
        rawf("device", "DEVICE", RawStyle::Text),
        rawf("rpm", "rpm", RawStyle::Sensor),
        rawf("rpm_min", "rpm_min", RawStyle::Sensor),
    ]
}

pub fn pwr_fan_raw_list() -> (r: Vec<RawField>)
    ensures
        r@ == pwr_fan_raw(),
{
    vec![
        rawf("device", "DEVICE", RawStyle::Text),
        rawf("rpm", "rpm", RawStyle::Sensor),
        rawf("rpm_min", "rpm_min", RawStyle::Sensor),
    ]
}

pub open spec fn pwr_temp_fields() -> Seq<Field> {
    seq![
        item_key("number", "number", Fmt::ItemKeyNum),
        field("device", "DEVICE", Fmt::Str, "device", "device", Fmt::Str),
        rate("temp_celsius", "degC", "degC"),
        field("temp_pct", "%temp", Fmt::R2, "percent-temp", "percent-temp", Fmt::R2),
    ]
}

pub fn pwr_temp_fields_list() -> (r: Vec<Field>)
    ensures
        r@ == pwr_temp_fields(),
{
    vec![
        item_key("number", "number", Fmt::ItemKeyNum),
        field("device", "DEVICE", Fmt::Str, "device", "device", Fmt::Str),
        rate("temp_celsius", "degC", "degC"),
        field("temp_pct", "%temp", Fmt::R2, "percent-temp", "percent-temp", Fmt::R2),
    ]
}

pub open spec fn pwr_temp_raw() -> Seq<RawField> {
    seq![
        rawf("device", "DEVICE", RawStyle::Text),
        rawf("temp_celsius", "degC", RawStyle::Sensor),
        rawf("temp_min", "temp_min", RawStyle::Sensor),
        rawf("temp_max", "temp_max", RawStyle::Sensor),
    ]
}

pub fn pwr_temp_raw_list() -> (r: Vec<RawField>)
    ensures
        r@ == pwr_temp_raw(),
{
    vec![
        rawf("device", "DEVICE", RawStyle::Text),
        rawf("temp_celsius", "degC", RawStyle::Sensor),
        rawf("temp_min", "temp_min", RawStyle::Sensor),
        rawf("temp_max", "temp_max", RawStyle::Sensor),
    ]
}

pub open spec fn pwr_in_fields() -> Seq<Field> {
    seq![
        item_key("number", "number", Fmt::ItemKeyNum),
        field("device", "DEVICE", Fmt::Str, "device", "device", Fmt::Str),
        rate("volts", "inV", "inV"),
        field("in_pct", "%in", Fmt::R2, "percent-in", "percent-in", Fmt::R2),
    ]
}

pub fn pwr_in_fields_list() -> (r: Vec<Field>)
    ensures
        r@ == pwr_in_fields(),
{
    vec![
        item_key("number", "number", Fmt::ItemKeyNum),
        field("device", "DEVICE", Fmt::Str, "device", "device", Fmt::Str),
        rate("volts", "inV", "inV"),
        field("in_pct", "%in", Fmt::R2, "percent-in", "percent-in", Fmt::R2),
    ]
}

pub open spec fn pwr_in_raw() -> Seq<RawField> {
    seq![
        rawf("device", "DEVICE", RawStyle::Text),
        rawf("volts", "inV", RawStyle::Sensor),
        rawf("volts_min", "in_min", RawStyle::Sensor),
        rawf("volts_max", "in_max", RawStyle::Sensor),
    ]
}

pub fn pwr_in_raw_list() -> (r: Vec<RawField>)
    ensures
        r@ == pwr_in_raw(),
{
    vec![
        rawf("device", "DEVICE", RawStyle::Text),
        rawf("volts", "inV", RawStyle::Sensor),
        rawf("volts_min", "in_min", RawStyle::Sensor),
        rawf("volts_max", "in_max", RawStyle::Sensor),
    ]
}

pub open spec fn pwr_freq_fields() -> Seq<Field> {
    seq![
        item_key("number", "number", Fmt::ItemKeyStr),
        rate("weighted_mhz", "wghMHz", "weighted-frequency"),
    ]
}

pub fn pwr_freq_fields_list() -> (r: Vec<Field>)
    ensures
        r@ == pwr_freq_fields(),
{
    vec![
        item_key("number", "number", Fmt::ItemKeyStr),
        rate("weighted_mhz", "wghMHz", "weighted-frequency"),
    ]
}

pub open spec fn pwr_freq_raw() -> Seq<RawField> {
    seq![
        rawf("freq_khz", "freq", RawStyle::Int),
        rawf("time_in_state", "tminst", RawStyle::Pval),
    ]
}

pub fn pwr_freq_raw_list() -> (r: Vec<RawField>)
    ensures
        r@ == pwr_freq_raw(),
{
    vec![
        rawf("freq_khz", "freq", RawStyle::Int),
        rawf("time_in_state", "tminst", RawStyle::Pval),
    ]
}

pub open spec fn pwr_usb_fields() -> Seq<Field> {
    seq![
        item_key("bus_number", "bus_number", Fmt::ItemKeyNum),
        field("vendor_id", "idvendor", Fmt::Hex, "idvendor", "idvendor", Fmt::Hex),
        field("product_id", "idprod", Fmt::Hex, "idprod", "idprod", Fmt::Hex),
        field("max_power", "maxpower", Fmt::Int, "maxpower", "maxpower", Fmt::Int),
        field("manufacturer", "manufact", Fmt::Str, "manufact", "manufact", Fmt::Str),
        field("product", "product", Fmt::Str, "product", "product", Fmt::Str),
    ]
}

pub fn pwr_usb_fields_list() -> (r: Vec<Field>)
    ensures
        r@ == pwr_usb_fields(),
{
    vec![
        item_key("bus_number", "bus_number", Fmt::ItemKeyNum),
        field("vendor_id", "idvendor", Fmt::Hex, "idvendor", "idvendor", Fmt::Hex),
        field("product_id", "idprod", Fmt::Hex, "idprod", "idprod", Fmt::Hex),
        field("max_power", "maxpower", Fmt::Int, "maxpower", "maxpower", Fmt::Int),
        field("manufacturer", "manufact", Fmt::Str, "manufact", "manufact", Fmt::Str),
        field("product", "product", Fmt::Str, "product", "product", Fmt::Str),
    ]
}

pub open spec fn pwr_usb_raw() -> Seq<RawField> {
    seq![
        rawf("manufacturer", "manufact", RawStyle::QuotedText),
        rawf("product", "product", RawStyle::QuotedText),
        rawf("bus", "BUS", RawStyle::Int),
        rawf("vendor_id", "idvendor", RawStyle::Hex),
        rawf("product_id", "idprod", RawStyle::Hex),
        rawf("max_power", "maxpower", RawStyle::Int),
    ]
}

pub fn pwr_usb_raw_list() -> (r: Vec<RawField>)
    ensures
        r@ == pwr_usb_raw(),
{
    vec![
        rawf("manufacturer", "manufact", RawStyle::QuotedText),
        rawf("product", "product", RawStyle::QuotedText),
        rawf("bus", "BUS", RawStyle::Int),
        rawf("vendor_id", "idvendor", RawStyle::Hex),
        rawf("product_id", "idprod", RawStyle::Hex),
        rawf("max_power", "maxpower", RawStyle::Int),
    ]
}

pub open spec fn pwr_bat_fields() -> Seq<Field> {
    seq![
        item_key("number", "number", Fmt::ItemKeyNum),
        field("capacity_pct", "%cap", Fmt::Int, "percent-capacity", "percent-capacity", Fmt::Int),
        rate("capacity_per_min", "cap/min", "variation"),
        field("status", "status", Fmt::Str, "status", "status", Fmt::Str),
    ]
}

pub fn pwr_bat_fields_list() -> (r: Vec<Field>)
    ensures
        r@ == pwr_bat_fields(),
{
    vec![
        item_key("number", "number", Fmt::ItemKeyNum),
        field("capacity_pct", "%cap", Fmt::Int, "percent-capacity", "percent-capacity", Fmt::Int),
        rate("capacity_per_min", "cap/min", "variation"),
        field("status", "status", Fmt::Str, "status", "status", Fmt::Str),
    ]
}

pub open spec fn pwr_bat_raw() -> Seq<RawField> {
    seq![
        rawf("capacity_pct", "%cap", RawStyle::Pval),
        rawf("status", "status", RawStyle::Int),
    ]
}

pub fn pwr_bat_raw_list() -> (r: Vec<RawField>)
    ensures
        r@ == pwr_bat_raw(),
{
    vec![
        rawf("capacity_pct", "%cap", RawStyle::Pval),
        rawf("status", "status", RawStyle::Int),
    ]
}

pub open spec fn fs_raw() -> Seq<RawField> {
    seq![
        rawf("fs_free", "f_bfree", RawStyle::Int),
        rawf("fs_total", "f_blocks", RawStyle::Int),
        rawf("fs_available", "f_bavail", RawStyle::Int),
        rawf("inodes_free", "Ifree", RawStyle::Int),
        rawf("inodes_total", "f_files", RawStyle::Int),
    ]
}

pub fn fs_raw_list() -> (r: Vec<RawField>)
    ensures
        r@ == fs_raw(),
{
    vec![
        rawf("fs_free", "f_bfree", RawStyle::Int),
        rawf("fs_total", "f_blocks", RawStyle::Int),
        rawf("fs_available", "f_bavail", RawStyle::Int),
        rawf("inodes_free", "Ifree", RawStyle::Int),
        rawf("inodes_total", "f_files", RawStyle::Int),
    ]
}

pub open spec fn psi_cpu_fields() -> Seq<Field> {
    seq![
        rate("scpu_10", "%scpu-10", "some_avg10"),
        rate("scpu_60", "%scpu-60", "some_avg60"),
        rate("scpu_300", "%scpu-300", "some_avg300"),
        rate("scpu", "%scpu", "some_avg"),
    ]
}

pub fn psi_cpu_fields_list() -> (r: Vec<Field>)
    ensures
        r@ == psi_cpu_fields(),
{
    vec![
        rate("scpu_10", "%scpu-10", "some_avg10"),
        rate("scpu_60", "%scpu-60", "some_avg60"),
        rate("scpu_300", "%scpu-300", "some_avg300"),
        rate("scpu", "%scpu", "some_avg"),
    ]
}

pub open spec fn psi_cpu_raw() -> Seq<RawField> {
    seq![
        rawf("scpu_10", "%scpu-10", RawStyle::Int),
        rawf("scpu_60", "%scpu-60", RawStyle::Int),
        rawf("scpu_300", "%scpu-300", RawStyle::Int),
        rawf("scpu", "%scpu", RawStyle::Pval),
    ]
}

pub fn psi_cpu_raw_list() -> (r: Vec<RawField>)
    ensures
        r@ == psi_cpu_raw(),
{
    vec![
        rawf("scpu_10", "%scpu-10", RawStyle::Int),
        rawf("scpu_60", "%scpu-60", RawStyle::Int),
        rawf("scpu_300", "%scpu-300", RawStyle::Int),
        rawf("scpu", "%scpu", RawStyle::Pval),
    ]
}

pub open spec fn psi_io_fields() -> Seq<Field> {
    seq![
        rate("sio_10", "%sio-10", "some_avg10"),
        rate("sio_60", "%sio-60", "some_avg60"),
        rate("sio_300", "%sio-300", "some_avg300"),
        rate("sio", "%sio", "some_avg"),
        rate("fio_10", "%fio-10", "full_avg10"),
        rate("fio_60", "%fio-60", "full_avg60"),
        rate("fio_300", "%fio-300", "full_avg300"),
        rate("fio", "%fio", "full_avg"),
    ]
}

pub fn psi_io_fields_list() -> (r: Vec<Field>)
    ensures
        r@ == psi_io_fields(),
{
    vec![
        rate("sio_10", "%sio-10", "some_avg10"),
        rate("sio_60", "%sio-60", "some_avg60"),
        rate("sio_300", "%sio-300", "some_avg300"),
        rate("sio", "%sio", "some_avg"),
        rate("fio_10", "%fio-10", "full_avg10"),
        rate("fio_60", "%fio-60", "full_avg60"),
        rate("fio_300", "%fio-300", "full_avg300"),
        rate("fio", "%fio", "full_avg"),
    ]
}

pub open spec fn psi_io_raw() -> Seq<RawField> {
    seq![
        rawf("sio_10", "%sio-10", RawStyle::Int),
        rawf("sio_60", "%sio-60", RawStyle::Int),
        rawf("sio_300", "%sio-300", RawStyle::Int),
        rawf("sio", "%sio", RawStyle::Pval),
        rawf("fio_10", "%fio-10", RawStyle::Int),
        rawf("fio_60", "%fio-60", RawStyle::Int),
        rawf("fio_300", "%fio-300", RawStyle::Int),
        rawf("fio", "%fio", RawStyle::Pval),
    ]
}

pub fn psi_io_raw_list() -> (r: Vec<RawField>)
    ensures
        r@ == psi_io_raw(),
{
    vec![
        rawf("sio_10", "%sio-10", RawStyle::Int),
        rawf("sio_60", "%sio-60", RawStyle::Int),
        rawf("sio_300", "%sio-300", RawStyle::Int),
        rawf("sio", "%sio", RawStyle::Pval),
        rawf("fio_10", "%fio-10", RawStyle::Int),
        rawf("fio_60", "%fio-60", RawStyle::Int),
        rawf("fio_300", "%fio-300", RawStyle::Int),
        rawf("fio", "%fio", RawStyle::Pval),
    ]
}

pub open spec fn psi_mem_fields() -> Seq<Field> {
    seq![
        rate("smem_10", "%smem-10", "some_avg10"),
        rate("smem_60", "%smem-60", "some_avg60"),
        rate("smem_300", "%smem-300", "some_avg300"),
        rate("smem", "%smem", "some_avg"),
        rate("fmem_10", "%fmem-10", "full_avg10"),
        rate("fmem_60", "%fmem-60", "full_avg60"),
        rate("fmem_300", "%fmem-300", "full_avg300"),
        rate("fmem", "%fmem", "full_avg"),
    ]
}

pub fn psi_mem_fields_list() -> (r: Vec<Field>)
    ensures
        r@ == psi_mem_fields(),
{
    vec![
        rate("smem_10", "%smem-10", "some_avg10"),
        rate("smem_60", "%smem-60", "some_avg60"),
        rate("smem_300", "%smem-300", "some_avg300"),
        rate("smem", "%smem", "some_avg"),
        rate("fmem_10", "%fmem-10", "full_avg10"),
        rate("fmem_60", "%fmem-60", "full_avg60"),
        rate("fmem_300", "%fmem-300", "full_avg300"),
        rate("fmem", "%fmem", "full_avg"),
    ]
}

pub open spec fn psi_mem_raw() -> Seq<RawField> {
    seq![
        rawf("smem_10", "%smem-10", RawStyle::Int),
        rawf("smem_60", "%smem-60", RawStyle::Int),
        rawf("smem_300", "%smem-300", RawStyle::Int),
        rawf("smem", "%smem", RawStyle::Pval),
        rawf("fmem_10", "%fmem-10", RawStyle::Int),
        rawf("fmem_60", "%fmem-60", RawStyle::Int),
        rawf("fmem_300", "%fmem-300", RawStyle::Int),
        rawf("fmem", "%fmem", RawStyle::Pval),
    ]
}

pub fn psi_mem_raw_list() -> (r: Vec<RawField>)
    ensures
        r@ == psi_mem_raw(),
{
    vec![
        rawf("smem_10", "%smem-10", RawStyle::Int),
        rawf("smem_60", "%smem-60", RawStyle::Int),
        rawf("smem_300", "%smem-300", RawStyle::Int),
        rawf("smem", "%smem", RawStyle::Pval),
        rawf("fmem_10", "%fmem-10", RawStyle::Int),
        rawf("fmem_60", "%fmem-60", RawStyle::Int),
        rawf("fmem_300", "%fmem-300", RawStyle::Int),
        rawf("fmem", "%fmem", RawStyle::Pval),
    ]
}

pub open spec fn fs_name_fields() -> Seq<Field> {
    seq![
        item_key("filesystem", "fsname", Fmt::ItemKeyStr),
        field("fs_free", "MBfsfree", Fmt::R0, "MBfsfree", "MBfsfree", Fmt::R0),
        field("fs_used", "MBfsused", Fmt::R0, "MBfsused", "MBfsused", Fmt::R0),
        field("fs_used_pct", "%fsused", Fmt::R2, "%fsused", "fsused-percent", Fmt::R2),
        field("fs_used_pct_unpriv", "%ufsused", Fmt::R2, "%ufsused", "ufsused-percent", Fmt::R2),
        field("inodes_free", "Ifree", Fmt::Int, "Ifree", "Ifree", Fmt::Int),
        field("inodes_used", "Iused", Fmt::Int, "Iused", "Iused", Fmt::Int),
        field("inodes_used_pct", "%Iused", Fmt::R2, "%Iused", "Iused-percent", Fmt::R2),
    ]
}

pub fn fs_name_fields_list() -> (r: Vec<Field>)
    ensures
        r@ == fs_name_fields(),
{
    vec![
        item_key("filesystem", "fsname", Fmt::ItemKeyStr),
        field("fs_free", "MBfsfree", Fmt::R0, "MBfsfree", "MBfsfree", Fmt::R0),
        field("fs_used", "MBfsused", Fmt::R0, "MBfsused", "MBfsused", Fmt::R0),
        field("fs_used_pct", "%fsused", Fmt::R2, "%fsused", "fsused-percent", Fmt::R2),
        field("fs_used_pct_unpriv", "%ufsused", Fmt::R2, "%ufsused", "ufsused-percent", Fmt::R2),
        field("inodes_free", "Ifree", Fmt::Int, "Ifree", "Ifree", Fmt::Int),
        field("inodes_used", "Iused", Fmt::Int, "Iused", "Iused", Fmt::Int),
        field("inodes_used_pct", "%Iused", Fmt::R2, "%Iused", "Iused-percent", Fmt::R2),
    ]
}

pub open spec fn fs_mount_fields() -> Seq<Field> {
    seq![
        item_key("mountpoint", "mountp", Fmt::ItemKeyStr),
        field("fs_free", "MBfsfree", Fmt::R0, "MBfsfree", "MBfsfree", Fmt::R0),
        field("fs_used", "MBfsused", Fmt::R0, "MBfsused", "MBfsused", Fmt::R0),
        field("fs_used_pct", "%fsused", Fmt::R2, "%fsused", "fsused-percent", Fmt::R2),
        field("fs_used_pct_unpriv", "%ufsused", Fmt::R2, "%ufsused", "ufsused-percent", Fmt::R2),
        field("inodes_free", "Ifree", Fmt::Int, "Ifree", "Ifree", Fmt::Int),
        field("inodes_used", "Iused", Fmt::Int, "Iused", "Iused", Fmt::Int),
        field("inodes_used_pct", "%Iused", Fmt::R2, "%Iused", "Iused-percent", Fmt::R2),
    ]
}

pub fn fs_mount_fields_list() -> (r: Vec<Field>)
    ensures
        r@ == fs_mount_fields(),
{
    vec![
        item_key("mountpoint", "mountp", Fmt::ItemKeyStr),
        field("fs_free", "MBfsfree", Fmt::R0, "MBfsfree", "MBfsfree", Fmt::R0),
        field("fs_used", "MBfsused", Fmt::R0, "MBfsused", "MBfsused", Fmt::R0),
        field("fs_used_pct", "%fsused", Fmt::R2, "%fsused", "fsused-percent", Fmt::R2),
        field("fs_used_pct_unpriv", "%ufsused", Fmt::R2, "%ufsused", "ufsused-percent", Fmt::R2),
        field("inodes_free", "Ifree", Fmt::Int, "Ifree", "Ifree", Fmt::Int),
        field("inodes_used", "Iused", Fmt::Int, "Iused", "Iused", Fmt::Int),
        field("inodes_used_pct", "%Iused", Fmt::R2, "%Iused", "Iused-percent", Fmt::R2),
    ]
}

}
