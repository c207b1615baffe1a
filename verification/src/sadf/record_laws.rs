//! Which restarts, comments and activities of a file are shown.

use vstd::prelude::*;

use crate::model::{as_signed, listed, signed_byte, ActivityId};
use crate::sadf::access::IntervalView;
use crate::sadf::config::SadfConfig;
use crate::sadf::file::{
    chosen, displays, present, selection, view_of, view_position, FileActivityEntry, SaFile,
};
use crate::sadf::logic1::{comments_upto, cpu_nr_upto, restarts_upto, RestartEntry};
use crate::sadf::records::{count_in, printable_bytes, Rec, RecKind};
use crate::sadf::table::{id_order, FieldGate, Group, SectionConfig, SectionGate};
use crate::sar_text::header::cpu_count;

verus! {

/// The restarts that are shown are those in the range of times, each once and in their order, with
/// the number of CPUs that the record has, or the last one known where it has none.
pub proof fn law_restarts_are_those_in_range(recs: Seq<Rec>, cpu_nr: Option<u32>, n: int)
    requires
        0 <= n <= recs.len() <= usize::MAX,
    ensures
        forall|k: int|
            0 <= k < restarts_upto(recs, cpu_nr, n).len() ==> {
                let e = #[trigger] restarts_upto(recs, cpu_nr, n)[k];
                &&& e.rec < n
                &&& recs[e.rec as int].kind == RecKind::Restart
                &&& recs[e.rec as int].in_range
                &&& recs[e.rec as int].cpu_count is Some ==> e.cpu_nr
                    == recs[e.rec as int].cpu_count
            },
        forall|r: int|
            0 <= r < n && (#[trigger] recs[r]).kind == RecKind::Restart && recs[r].in_range
                ==> has_restart(restarts_upto(recs, cpu_nr, n), r),
        forall|a: int, b: int|
            0 <= a < b < restarts_upto(recs, cpu_nr, n).len() ==> (#[trigger] restarts_upto(
                recs,
                cpu_nr,
                n,
            )[a]).rec < (#[trigger] restarts_upto(recs, cpu_nr, n)[b]).rec,
    decreases n,
{
    if n > 0 {
        law_restarts_are_those_in_range(recs, cpu_nr, n - 1);
        let before = restarts_upto(recs, cpu_nr, n - 1);
        let all = restarts_upto(recs, cpu_nr, n);
        assert forall|r: int|
            0 <= r < n && (#[trigger] recs[r]).kind == RecKind::Restart && recs[r].in_range implies has_restart(
            all,
            r,
        ) by {
            if r < n - 1 {
                assert(has_restart(before, r));
                let k = choose|k: int| 0 <= k < before.len() && (#[trigger] before[k]).rec == r;
                assert(all[k].rec == r);
            } else {
                assert(all[before.len() as int].rec == r);
            }
        }
        assert forall|k: int| 0 <= k < before.len() implies before[k] == #[trigger] all[k] by {}
    }
}

/// Whether a restart is among those shown.
pub open spec fn has_restart(list: Seq<RestartEntry>, r: int) -> bool {
    exists|k: int| 0 <= k < list.len() && (#[trigger] list[k]).rec == r
}

/// Where no restart tells a number of CPUs, the one of the file stays.
pub proof fn law_the_number_of_cpus_stays(recs: Seq<Rec>, cpu_nr: Option<u32>, n: int)
    requires
        0 <= n <= recs.len(),
        forall|k: int|
            0 <= k < n ==> (#[trigger] recs[k]).kind == RecKind::Restart ==> recs[k].cpu_count is None,
    ensures
        cpu_nr_upto(recs, cpu_nr, n) == cpu_nr,
    decreases n,
{
    if n > 0 {
        law_the_number_of_cpus_stays(recs, cpu_nr, n - 1);
        assert(recs[n - 1].kind == RecKind::Restart ==> recs[n - 1].cpu_count is None);
    }
}

/// The comments that are shown are those in the range of times, each once and in their order.
pub proof fn law_comments_are_those_in_range(recs: Seq<Rec>, n: int)
    requires
        0 <= n <= recs.len() <= usize::MAX,
    ensures
        forall|k: int|
            0 <= k < comments_upto(recs, n).len() ==> {
                let r = #[trigger] comments_upto(recs, n)[k];
                r < n && recs[r as int].kind == RecKind::Comment && recs[r as int].in_range
            },
        forall|r: int|
            0 <= r < n && (#[trigger] recs[r]).kind == RecKind::Comment && recs[r].in_range
                ==> comments_upto(recs, n).contains(r as usize),
        forall|a: int, b: int|
            0 <= a < b < comments_upto(recs, n).len() ==> #[trigger] comments_upto(recs, n)[a]
                < #[trigger] comments_upto(recs, n)[b],
    decreases n,
{
    if n > 0 {
        law_comments_are_those_in_range(recs, n - 1);
        let before = comments_upto(recs, n - 1);
        let all = comments_upto(recs, n);
        assert forall|r: int|
            0 <= r < n && (#[trigger] recs[r]).kind == RecKind::Comment && recs[r].in_range implies all.contains(
            r as usize,
        ) by {
            if r < n - 1 {
                assert(before.contains(r as usize));
                let k = choose|k: int| 0 <= k < before.len() && before[k] == r as usize;
                assert(all[k] == r as usize);
            } else {
                assert(all[before.len() as int] == r as usize);
            }
        }
    }
}

/// A comment keeps its printable characters, and has a dot for each of the others.
pub proof fn law_comments_keep_what_is_printable(b: Seq<u8>, i: int)
    requires
        0 <= i < b.len(),
    ensures
        printable_bytes(b).len() == b.len(),
        32 <= b[i] < 127 ==> printable_bytes(b)[i] as u32 == b[i],
        b[i] < 32 || b[i] >= 127 ==> printable_bytes(b)[i] == '.',
{
}

proof fn lemma_chosen(cfg: SadfConfig, ids: Seq<ActivityId>, id: ActivityId)
    ensures
        listed(chosen(cfg, ids), id) <==> listed(ids, id) && cfg.selects(id),
    decreases ids.len(),
{
    if ids.len() > 0 {
        let rest = ids.drop_last();
        let before = chosen(cfg, rest);
        let all = chosen(cfg, ids);
        lemma_chosen(cfg, rest, id);
        if listed(before, id) {
            let k = choose|k: int| 0 <= k < before.len() && before[k] == id;
            assert(all[k] == id);
        }
        if listed(rest, id) {
            let k = choose|k: int| 0 <= k < rest.len() && rest[k] == id;
            assert(ids[k] == id);
        }
        if listed(ids, id) {
            let k = choose|k: int| 0 <= k < ids.len() && ids[k] == id;
            if k < rest.len() {
                assert(rest[k] == id);
            }
        }
        if cfg.selects(ids.last()) {
            assert(all[before.len() as int] == ids.last());
        }
        if listed(all, id) {
            let k = choose|k: int| 0 <= k < all.len() && all[k] == id;
            if k < before.len() {
                assert(before[k] == id);
            } else {
                assert(ids[ids.len() - 1] == id);
            }
        }
    }
}

proof fn lemma_present(entries: Seq<FileActivityEntry>, n: int, id: ActivityId)
    requires
        0 <= n <= entries.len(),
    ensures
        listed(present(entries, n), id) <==> id.known() && displays(entries, id) && exists|i: int|
            0 <= i < n && (#[trigger] entries[i]).id == id && entries[i].nr > 0,
    decreases n,
{
    if n > 0 {
        lemma_present(entries, n - 1, id);
        let before = present(entries, n - 1);
        let all = present(entries, n);
        let e = entries[n - 1];
        if listed(before, id) {
            let k = choose|k: int| 0 <= k < before.len() && before[k] == id;
            assert(all[k] == id);
        }
        if listed(all, id) {
            let k = choose|k: int| 0 <= k < all.len() && all[k] == id;
            if k < before.len() {
                assert(before[k] == id);
            } else {
                assert(entries[n - 1].id == id && entries[n - 1].nr > 0);
            }
        }
        if id.known() && displays(entries, id) && exists|i: int|
            0 <= i < n && (#[trigger] entries[i]).id == id && entries[i].nr > 0 {
            let i = choose|i: int| 0 <= i < n && (#[trigger] entries[i]).id == id && entries[i].nr > 0;
            if i == n - 1 && !listed(before, id) {
                assert(all[before.len() as int] == id);
            }
        }
    }
}

/// The activities that are shown are those that the file has items of, that can be shown, and that
/// were selected.
pub proof fn law_activities_shown_are_those_selected(file: SaFile, cfg: SadfConfig, id: ActivityId)
    ensures
        listed(selection(file, cfg), id) <==> {
            &&& cfg.activities matches Some(ids) ==> listed(ids@, id)
            &&& id.known()
            &&& displays(file.activities@, id)
            &&& exists|i: int|
                0 <= i < file.activities@.len() && (#[trigger] file.activities@[i]).id == id
                    && file.activities@[i].nr > 0
        },
{
    let n = file.activities@.len() as int;
    lemma_present(file.activities@, n, id);
    lemma_chosen(cfg, present(file.activities@, n), id);
}

/// The values of a sample are those of the interval that reaches from the sample it is compared
/// with to itself.
pub proof fn law_a_sample_has_its_own_interval(file: SaFile, rec: usize, prev: usize)
    ensures
        view_of(file, rec, prev) matches Some(v) ==> v.rec == rec && v.prev == prev,
        view_of(file, rec, prev) is None ==> forall|i: int|
            0 <= i < file.views@.len() ==> (#[trigger] file.views@[i]).rec != rec
                || file.views@[i].prev != prev,
{
    lemma_view(file.views@, rec, prev, file.views@.len() as int);
}

proof fn lemma_view(views: Seq<IntervalView>, rec: usize, prev: usize, n: int)
    requires
        0 <= n <= views.len(),
    ensures
        view_position(views, rec, prev, n) matches Some(i) ==> 0 <= i < n && views[i].rec == rec
            && views[i].prev == prev,
        view_position(views, rec, prev, n) is None ==> forall|i: int|
            0 <= i < n ==> (#[trigger] views[i]).rec != rec || views[i].prev != prev,
    decreases n,
{
    if n > 0 {
        lemma_view(views, rec, prev, n - 1);
    }
}

/// The activities have the numbers from 1 on, in the order of these numbers.
pub proof fn law_activities_are_numbered_from_one(i: int)
    requires
        0 <= i < id_order().len(),
    ensures
        id_order().len() == 43,
        id_order()[i].num() == i + 1,
        id_order()[i].known(),
{
}

/// No two activities have the same number.
pub proof fn law_activities_have_different_numbers(a: ActivityId, b: ActivityId)
    requires
        a.known(),
        b.known(),
        a.num() == b.num(),
    ensures
        a == b,
        1 <= a.num() <= 43,
{
}

/// The numbers with a sign are those of two's complement.
pub proof fn law_signed_numbers_are_in_twos_complement(v: u64)
    ensures
        (as_signed(v) - v) % 0x1_0000_0000_0000_0000 == 0,
        -0x8000_0000_0000_0000 <= as_signed(v) < 0x8000_0000_0000_0000,
        (signed_byte(v) - v) % 256 == 0,
        -128 <= signed_byte(v) < 128,
{
}

/// The number of CPUs is one less than the number of items for them, which has one for all of them
/// together, and never less than 1.
pub proof fn law_cpus_are_counted_without_their_sum(n: u32)
    ensures
        n > 1 ==> cpu_count(Some(n)) + 1 == n,
        n <= 1 ==> cpu_count(Some(n)) == 1,
        cpu_count(None) == 1,
{
}

/// Each option opens the part that belongs to it, and closes the part that it stands in for.
pub proof fn law_options_open_their_parts(cfg: SectionConfig)
    ensures
        cfg.opens(SectionGate::Always),
        cfg.opens(SectionGate::CpuAll) != cfg.opens(SectionGate::CpuDef),
        cfg.opens(SectionGate::CpuAll) == cfg.cpu_all,
        cfg.opens(SectionGate::Memory) == cfg.memory,
        cfg.opens(SectionGate::Swap) == cfg.swap,
        cfg.opens(SectionGate::FsMount) != cfg.opens(SectionGate::FsName),
        cfg.opens(SectionGate::FsMount) == cfg.fs_mount,
        cfg.opens_field(FieldGate::Always),
        cfg.opens_field(FieldGate::MemAll) == cfg.mem_all,
{
}

/// The groups have their own names.
pub proof fn law_groups_have_their_names()
    ensures
        Group::Network.name() == "network"@,
        Group::PowerManagement.name() == "power-management"@,
        Group::Psi.name() == "psi"@,
        Group::Network.attributes() == Group::Psi.attributes(),
        Group::Network.attributes() == " per=\"second\""@,
        Group::PowerManagement.attributes() == ""@,
{
}

/// The count of an activity at a record is that of its first slice there, and 0 where there is
/// none.
pub proof fn law_counts_are_those_of_their_activity(
    slices: Seq<crate::sadf::records::SliceCount>,
    id: ActivityId,
    i: int,
)
    requires
        0 <= i <= slices.len(),
        forall|k: int| 0 <= k < i ==> (#[trigger] slices[k]).id != id,
        i < slices.len() ==> slices[i].id == id,
    ensures
        count_in(slices, id) == (if i < slices.len() {
            slices[i].nr
        } else {
            0
        }),
    decreases slices.len(),
{
    if i > 0 {
        let rest = slices.drop_first();
        assert(slices[0].id != id);
        assert forall|k: int| 0 <= k < i - 1 implies (#[trigger] rest[k]).id != id by {
            assert(rest[k] == slices[k + 1]);
        }
        law_counts_are_those_of_their_activity(rest, id, i - 1);
    }
}

}
