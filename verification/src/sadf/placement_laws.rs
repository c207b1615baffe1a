//! Where the activities of a sample stand in JSON, and what a file says of itself.

use vstd::prelude::*;

use crate::clock::RecordTime;
use crate::clock_laws::{law_dates_read_year_month_day, reads_as};
use crate::doc::{chars, joined, Glyph};
use crate::sadf::access::IntervalView;
use crate::sadf::config::SadfConfig;
use crate::sadf::dbppc::restart_text;
use crate::sadf::file::{entries_of, pair_of, ActEntry, SaFile};
use crate::sadf::json::{
    activity_block, body_after, body_upto, group_block, sample_text, tab_of, tabs, timestamp_entry,
    with_group, Body,
};
use crate::sadf::nested_item_laws::lemma_joined_part;
use crate::sadf::stamp::{file_day, FileInfo, TimeBase};
use crate::sadf::table::{act_order, table, Group};
use crate::sar_text::header::{cpu_count, FileHeader};
use crate::text::dec;
use crate::text_laws::{decimal_value, law_decimals_have_their_value};
use crate::within::{lemma_stands_deeper, lemma_stands_in, stands_in};

verus! {

/// The block of an activity at a sample, where it has one.
pub open spec fn block_of(
    cfg: SadfConfig,
    file: SaFile,
    view: IntervalView,
    entry: ActEntry,
) -> Option<Seq<Glyph>> {
    match (table(entry.id), pair_of(entry, file, view)) {
        (Some(m), Some(pair)) => activity_block(cfg, m, pair, tab_of(m.group)),
        _ => None,
    }
}

spec fn is_entry(b: Body, d: Seq<Glyph>) -> bool {
    exists|i: int| 0 <= i < b.entries.len() && stands_in(d, #[trigger] b.entries[i])
}

spec fn is_child(b: Body, d: Seq<Glyph>) -> bool {
    b.group != Group::Ungrouped && exists|i: int| 0 <= i < b.children.len() && #[trigger] b.children[i] == d
}

proof fn lemma_group_holds(group: Group, children: Seq<Seq<Glyph>>, i: int)
    requires
        0 <= i < children.len(),
    ensures
        stands_in(children[i], group_block(group, children)),
{
    let whole = group_block(group, children);
    let list = joined(children, ",\n"@);
    let t = chars(tabs(5));
    let head = t + chars("\""@) + chars(group.name()) + chars("\": {\n"@);
    let end = chars("\n"@) + t + chars("}"@);
    lemma_joined_part(children, ",\n"@, i);
    assert(whole =~= head + list + end);
    lemma_stands_in(head, list, end, whole);
    lemma_stands_deeper(children[i], list, whole);
}

proof fn lemma_self(d: Seq<Glyph>)
    ensures
        stands_in(d, d),
{
    assert(d =~= Seq::<Glyph>::empty() + d + Seq::<Glyph>::empty());
    lemma_stands_in(Seq::empty(), d, Seq::empty(), d);
}

proof fn lemma_grouped(b: Body, d: Seq<Glyph>)
    requires
        is_entry(b, d) || is_child(b, d),
    ensures
        exists|i: int|
            0 <= i < with_group(b.entries, b.group, b.children).len() && stands_in(
                d,
                #[trigger] with_group(b.entries, b.group, b.children)[i],
            ),
{
    let all = with_group(b.entries, b.group, b.children);
    if is_entry(b, d) {
        let i = choose|i: int| 0 <= i < b.entries.len() && stands_in(d, #[trigger] b.entries[i]);
        assert(all[i] == b.entries[i]);
    } else {
        let i = choose|i: int| 0 <= i < b.children.len() && #[trigger] b.children[i] == d;
        lemma_group_holds(b.group, b.children, i);
        assert(all[b.entries.len() as int] == group_block(b.group, b.children));
    }
}

proof fn lemma_kept(
    cfg: SadfConfig,
    file: SaFile,
    view: IntervalView,
    b: Body,
    entry: ActEntry,
    d: Seq<Glyph>,
)
    requires
        is_entry(b, d) || is_child(b, d),
    ensures
        is_entry(body_after(cfg, file, view, b, entry), d) || is_child(
            body_after(cfg, file, view, b, entry),
            d,
        ),
{
    let c = body_after(cfg, file, view, b, entry);
    if let Some(m) = table(entry.id) {
        if m.group != b.group {
            lemma_grouped(b, d);
            let all = with_group(b.entries, b.group, b.children);
            let i = choose|i: int| 0 <= i < all.len() && stands_in(d, #[trigger] all[i]);
            assert(c.entries[i] == all[i]);
        } else if is_entry(b, d) {
            let i = choose|i: int| 0 <= i < b.entries.len() && stands_in(d, #[trigger] b.entries[i]);
            assert(c.entries[i] == b.entries[i]);
        } else {
            let i = choose|i: int| 0 <= i < b.children.len() && #[trigger] b.children[i] == d;
            assert(c.children[i] == d);
        }
    }
}

proof fn lemma_placed(
    cfg: SadfConfig,
    file: SaFile,
    view: IntervalView,
    first: Seq<Glyph>,
    entries: Seq<ActEntry>,
    n: int,
    k: int,
)
    requires
        0 <= k < n <= entries.len(),
        block_of(cfg, file, view, entries[k]) is Some,
    ensures
        ({
            let b = body_upto(cfg, file, view, first, entries, n);
            let d = block_of(cfg, file, view, entries[k])->0;
            is_entry(b, d) || is_child(b, d)
        }),
    decreases n,
{
    let d = block_of(cfg, file, view, entries[k])->0;
    let before = body_upto(cfg, file, view, first, entries, n - 1);
    let b = body_upto(cfg, file, view, first, entries, n);
    if k < n - 1 {
        lemma_placed(cfg, file, view, first, entries, n - 1, k);
        lemma_kept(cfg, file, view, before, entries[n - 1], d);
    } else {
        lemma_self(d);
        let m = table(entries[k].id)->0;
        if m.group == Group::Ungrouped {
            assert(b.entries[b.entries.len() - 1] == d);
        } else {
            assert(b.children[b.children.len() - 1] == d);
        }
    }
}

proof fn lemma_first(
    cfg: SadfConfig,
    file: SaFile,
    view: IntervalView,
    first: Seq<Glyph>,
    entries: Seq<ActEntry>,
    n: int,
)
    requires
        0 <= n <= entries.len(),
    ensures
        body_upto(cfg, file, view, first, entries, n).entries.len() > 0,
        body_upto(cfg, file, view, first, entries, n).entries[0] == first,
    decreases n,
{
    if n > 0 {
        lemma_first(cfg, file, view, first, entries, n - 1);
    }
}

/// A sample in JSON has its own timestamp, and the block of each activity that is shown.
pub proof fn law_json_samples_hold_each_activity(
    cfg: SadfConfig,
    info: FileInfo,
    file: SaFile,
    t: RecordTime,
    view: IntervalView,
    k: int,
)
    requires
        0 <= k < entries_of(file, cfg, act_order().len() as int).len(),
        block_of(cfg, file, view, entries_of(file, cfg, act_order().len() as int)[k]) is Some,
    ensures
        stands_in(
            block_of(cfg, file, view, entries_of(file, cfg, act_order().len() as int)[k])->0,
            sample_text(cfg, info, file, t, view),
        ),
        stands_in(
            chars(timestamp_entry(cfg, info, t, view.itv_cs)),
            sample_text(cfg, info, file, t, view),
        ),
{
    let acts = entries_of(file, cfg, act_order().len() as int);
    let first = chars(timestamp_entry(cfg, info, t, view.itv_cs));
    let n = acts.len() as int;
    let b = body_upto(cfg, file, view, first, acts, n);
    let d = block_of(cfg, file, view, acts[k])->0;
    let all = with_group(b.entries, b.group, b.children);
    lemma_placed(cfg, file, view, first, acts, n, k);
    lemma_grouped(b, d);
    let i = choose|i: int| 0 <= i < all.len() && stands_in(d, #[trigger] all[i]);
    lemma_joined_part(all, ",\n"@, i);
    lemma_stands_deeper(d, all[i], joined(all, ",\n"@));
    lemma_first(cfg, file, view, first, acts, n);
    assert(all[0] == first);
    lemma_joined_part(all, ",\n"@, 0);
}

/// The date of a file is the one in its header where the times of its machine are shown, and that
/// of the reader where those are.
pub proof fn law_files_have_the_date_of_their_base(h: FileHeader)
    requires
        0 <= h.year,
        0 <= h.created.local.year,
    ensures
        reads_as(
            file_day(h, TimeBase::TrueTime),
            '-',
            h.year as int,
            h.month as int,
            h.day as int,
        ),
        reads_as(
            file_day(h, TimeBase::LocalTime),
            '-',
            h.created.local.year as int,
            h.created.local.month as int,
            h.created.local.day as int,
        ),
        file_day(h, TimeBase::Utc) == file_day(h, TimeBase::SecEpoch),
{
    law_dates_read_year_month_day(h.year as int, h.month as int, h.day as int);
    law_dates_read_year_month_day(
        h.created.local.year as int,
        h.created.local.month as int,
        h.created.local.day as int,
    );
}

/// The line of a restart ends with the number of CPUs.
pub proof fn law_restarts_tell_the_number_of_cpus(
    cfg: SadfConfig,
    info: FileInfo,
    t: RecordTime,
    cpu_nr: Option<u32>,
    isdb: bool,
)
    ensures
        ("LINUX-RESTART\t("@ + dec(cpu_count(cpu_nr) as nat) + " CPU)\n"@).is_suffix_of(
            restart_text(cfg, info, t, cpu_nr, isdb),
        ),
        decimal_value(dec(cpu_count(cpu_nr) as nat)) == cpu_count(cpu_nr),
{
    law_decimals_have_their_value(cpu_count(cpu_nr) as nat);
    let end = "LINUX-RESTART\t("@ + dec(cpu_count(cpu_nr) as nat) + " CPU)\n"@;
    let text = restart_text(cfg, info, t, cpu_nr, isdb);
    assert(text.skip(text.len() - end.len()) =~= end);
}

}
