//! What holds of a report as a whole.

use vstd::prelude::*;

use crate::doc::{chars, lemma_chars_concat, Doc, Glyph};
use crate::sar_text::header::{banner_text, FileHeader};
use crate::sar_text::options::{SampleSelect, SarTextOptions};
use crate::sar_text::report::{
    after_record, after_records, all_outside, any_taken, before_stop, handled_records, is_restart,
    is_taken, joined, joined_docs, law_each_restart_has_one_line, law_regions_follow_one_another,
    lemma_restart_lines, outside, planned_regions, region_glyphs, regions_glyphs, restart_lines,
    PlanRecord, RegionModel,
};
use crate::sar_text::run::{part_glyphs, parts_glyphs, PartModel};

verus! {

/// Whether each restart from the record `start` on and before `n` comes before any sample that is
/// taken there.
pub open spec fn restarts_come_first(records: Seq<PlanRecord>, start: int, n: int) -> bool {
    forall|i: int|
        start <= i < n && is_restart(#[trigger] records[i]) ==> !any_taken(records, start, i)
}

proof fn lemma_taken_grows(records: Seq<PlanRecord>, start: int, a: int, b: int)
    requires
        a <= b,
        any_taken(records, start, a),
    ensures
        any_taken(records, start, b),
{
    let i = choose|i: int| start <= i < a && is_taken(#[trigger] records[i]);
    assert(start <= i < b && is_taken(records[i]));
}

proof fn lemma_restarts_first(
    records: Seq<PlanRecord>,
    n: int,
    opts: SarTextOptions,
    select: SampleSelect,
    cpu_nr: Option<u32>,
)
    requires
        0 <= n <= records.len() < usize::MAX,
    ensures
        ({
            let p = after_records(records, n, opts, select, cpu_nr);
            &&& forall|k: int|
                0 <= k < p.regions.len() ==> restarts_come_first(
                    records,
                    (#[trigger] p.regions[k]).start,
                    p.regions[k].end,
                )
            &&& p.slices.cut matches Some(c) ==> c <= n
            &&& !p.adopted ==> p.slices.cut is None
            &&& !p.stopped ==> {
                &&& restarts_come_first(records, p.current.start, n)
                &&& p.adopted == any_taken(records, p.current.start, n)
            }
            &&& p.stopped ==> restarts_come_first(records, p.current.start, p.current.end)
        }),
    decreases n,
{
    if n > 0 {
        lemma_restarts_first(records, n - 1, opts, select, cpu_nr);
        let p = after_records(records, n - 1, opts, select, cpu_nr);
        let q = after_records(records, n, opts, select, cpu_nr);
        let rec = records[n - 1];
        assert(q == after_record(p, n - 1, rec, opts));
        if !p.stopped {
            let start = p.current.start;
            if q.regions.len() > p.regions.len() {
                assert(q.regions =~= p.regions.push(q.regions.last()));
                assert(restarts_come_first(records, start, q.regions.last().end));
                assert(!any_taken(records, q.current.start, n));
            } else {
                assert(any_taken(records, start, n) == (any_taken(records, start, n - 1) || (start
                    <= n - 1 && is_taken(rec)))) by {
                    if any_taken(records, start, n - 1) {
                        lemma_taken_grows(records, start, n - 1, n);
                    }
                    if start <= n - 1 && is_taken(rec) {
                        assert(start <= n - 1 < n && is_taken(records[n - 1]));
                    }
                }
                lemma_start(records, n - 1, opts, select, cpu_nr);
            }
        }
    }
}

proof fn lemma_start(
    records: Seq<PlanRecord>,
    n: int,
    opts: SarTextOptions,
    select: SampleSelect,
    cpu_nr: Option<u32>,
)
    requires
        0 <= n <= records.len(),
    ensures
        0 <= after_records(records, n, opts, select, cpu_nr).current.start <= n,
    decreases n,
{
    if n > 0 {
        lemma_start(records, n - 1, opts, select, cpu_nr);
    }
}

proof fn lemma_planned_first(
    records: Seq<PlanRecord>,
    opts: SarTextOptions,
    select: SampleSelect,
    cpu_nr: Option<u32>,
    k: int,
)
    requires
        records.len() < usize::MAX,
        0 <= k < planned_regions(records, opts, select, cpu_nr).len(),
    ensures
        ({
            let r = planned_regions(records, opts, select, cpu_nr)[k];
            restarts_come_first(records, r.start, r.end)
        }),
{
    let n = records.len() as int;
    lemma_restarts_first(records, n, opts, select, cpu_nr);
    let p = after_records(records, n, opts, select, cpu_nr);
    let rs = planned_regions(records, opts, select, cpu_nr);
    if k < p.regions.len() {
        assert(rs[k] == p.regions[k]);
    }
}

proof fn lemma_handled(records: Seq<PlanRecord>, start: int, n: int)
    requires
        0 <= start <= n <= records.len(),
        restarts_come_first(records, start, n),
    ensures
        forall|k: int|
            0 <= k < handled_records(records, start, n).len() ==> {
                &&& start <= #[trigger] handled_records(records, start, n)[k] < n
                &&& !is_restart(records[handled_records(records, start, n)[k]])
            },
    decreases n - start,
{
    if n > start {
        lemma_handled(records, start, n - 1);
        let all = handled_records(records, start, n);
        let before = handled_records(records, start, n - 1);
        assert forall|k: int| 0 <= k < all.len() implies {
            &&& start <= #[trigger] all[k] < n
            &&& !is_restart(records[all[k]])
        } by {
            if k < before.len() {
                assert(all[k] == before[k]);
            } else {
                assert(all[k] == n - 1);
            }
        }
    }
}

/// Each stretch of a report lies within the records.
pub proof fn law_regions_lie_within(
    records: Seq<PlanRecord>,
    opts: SarTextOptions,
    select: SampleSelect,
    cpu_nr: Option<u32>,
    k: int,
)
    requires
        records.len() < usize::MAX,
        0 <= k < planned_regions(records, opts, select, cpu_nr).len(),
    ensures
        ({
            let r = planned_regions(records, opts, select, cpu_nr)[k];
            0 <= r.start <= r.end <= records.len()
        }),
{
    law_regions_follow_one_another(records, opts, select, cpu_nr);
}

/// No block of a report is given a restart: the records that the blocks of a stretch handle are
/// samples and comments within the stretch.
pub proof fn law_blocks_are_given_no_restart(
    records: Seq<PlanRecord>,
    opts: SarTextOptions,
    select: SampleSelect,
    cpu_nr: Option<u32>,
    k: int,
)
    requires
        records.len() < usize::MAX,
        0 <= k < planned_regions(records, opts, select, cpu_nr).len(),
    ensures
        ({
            let r = planned_regions(records, opts, select, cpu_nr)[k];
            let handled = handled_records(records, r.start, r.end);
            forall|i: int|
                0 <= i < handled.len() ==> {
                    &&& r.start <= #[trigger] handled[i] < r.end
                    &&& !is_restart(records[handled[i]])
                }
        }),
{
    let r = planned_regions(records, opts, select, cpu_nr)[k];
    law_regions_lie_within(records, opts, select, cpu_nr, k);
    lemma_planned_first(records, opts, select, cpu_nr, k);
    lemma_handled(records, r.start, r.end);
}

/// A part of a report.
pub enum ReportPart {
    /// The first line.
    Banner(Seq<char>),
    /// The line of a restart.
    Restart(Seq<char>),
    /// A part of a block: a sample, a comment or averages.
    Block(PartModel),
}

/// What is shown of a part.
pub open spec fn report_glyphs(p: ReportPart) -> Seq<Glyph> {
    match p {
        ReportPart::Banner(s) => chars(s),
        ReportPart::Restart(s) => chars(s),
        ReportPart::Block(b) => part_glyphs(b),
    }
}

/// What is shown of parts, one after the other.
pub open spec fn all_glyphs(ps: Seq<ReportPart>) -> Seq<Glyph>
    decreases ps.len(),
{
    if ps.len() == 0 {
        Seq::empty()
    } else {
        all_glyphs(ps.drop_last()) + report_glyphs(ps.last())
    }
}

/// The lines of restarts among parts.
pub open spec fn restarts_shown(ps: Seq<ReportPart>) -> Seq<Seq<char>>
    decreases ps.len(),
{
    if ps.len() == 0 {
        Seq::empty()
    } else {
        let before = restarts_shown(ps.drop_last());
        match ps.last() {
            ReportPart::Restart(s) => before.push(s),
            _ => before,
        }
    }
}

/// The lines of restarts as parts.
pub open spec fn as_restarts(lines: Seq<Seq<char>>) -> Seq<ReportPart> {
    Seq::new(lines.len(), |i: int| ReportPart::Restart(lines[i]))
}

/// The parts of a block as parts of a report.
pub open spec fn as_block(ps: Seq<PartModel>) -> Seq<ReportPart> {
    Seq::new(ps.len(), |i: int| ReportPart::Block(ps[i]))
}

/// The parts of blocks, one block after the other.
pub open spec fn as_blocks(blocks: Seq<Seq<PartModel>>) -> Seq<ReportPart>
    decreases blocks.len(),
{
    if blocks.len() == 0 {
        Seq::empty()
    } else {
        as_blocks(blocks.drop_last()) + as_block(blocks.last())
    }
}

/// The parts of a stretch where comments are not shown: the restarts before its first sample, its
/// blocks, the restart that ends it.
pub open spec fn region_parts(r: RegionModel, blocks: Seq<Seq<PartModel>>) -> Seq<ReportPart> {
    as_restarts(r.leading) + as_blocks(blocks) + match r.terminator {
        Some(t) => seq![ReportPart::Restart(t)],
        None => Seq::empty(),
    }
}

/// The parts of the first `n` stretches.
pub open spec fn regions_parts(
    rs: Seq<RegionModel>,
    blocks: Seq<Seq<Seq<PartModel>>>,
    n: int,
) -> Seq<ReportPart>
    decreases n,
{
    if n <= 0 {
        Seq::empty()
    } else {
        regions_parts(rs, blocks, n - 1) + region_parts(rs[n - 1], blocks[n - 1])
    }
}

/// The parts of a report.
pub open spec fn report_parts(
    banner: Seq<char>,
    rs: Seq<RegionModel>,
    blocks: Seq<Seq<Seq<PartModel>>>,
) -> Seq<ReportPart> {
    seq![ReportPart::Banner(banner)] + regions_parts(rs, blocks, rs.len() as int)
}

proof fn lemma_parts_concat(a: Seq<ReportPart>, b: Seq<ReportPart>)
    ensures
        all_glyphs(a + b) == all_glyphs(a) + all_glyphs(b),
        restarts_shown(a + b) == restarts_shown(a) + restarts_shown(b),
    decreases b.len(),
{
    if b.len() == 0 {
        assert(a + b =~= a);
        assert(all_glyphs(a) + all_glyphs(b) =~= all_glyphs(a));
        assert(restarts_shown(a) + restarts_shown(b) =~= restarts_shown(a));
    } else {
        lemma_parts_concat(a, b.drop_last());
        assert((a + b).drop_last() =~= a + b.drop_last());
        assert(all_glyphs(a + b) =~= all_glyphs(a) + all_glyphs(b));
        assert(restarts_shown(a + b) =~= restarts_shown(a) + restarts_shown(b));
    }
}

proof fn lemma_as_restarts(lines: Seq<Seq<char>>)
    ensures
        all_glyphs(as_restarts(lines)) == chars(joined(lines)),
        restarts_shown(as_restarts(lines)) == lines,
    decreases lines.len(),
{
    if lines.len() == 0 {
        assert(chars(joined(lines)) =~= Seq::empty());
        assert(lines =~= Seq::empty());
    } else {
        lemma_as_restarts(lines.drop_last());
        assert(as_restarts(lines).drop_last() =~= as_restarts(lines.drop_last()));
        lemma_chars_concat(joined(lines.drop_last()), lines.last());
        assert(lines.drop_last().push(lines.last()) =~= lines);
    }
}

proof fn lemma_as_block(ps: Seq<PartModel>)
    ensures
        all_glyphs(as_block(ps)) == parts_glyphs(ps),
        restarts_shown(as_block(ps)) == Seq::<Seq<char>>::empty(),
    decreases ps.len(),
{
    if ps.len() > 0 {
        lemma_as_block(ps.drop_last());
        assert(as_block(ps).drop_last() =~= as_block(ps.drop_last()));
    }
}

proof fn lemma_as_blocks(blocks: Seq<Seq<PartModel>>, docs: Seq<Doc>)
    requires
        docs.len() == blocks.len(),
        forall|j: int| 0 <= j < docs.len() ==> (#[trigger] docs[j])@ == parts_glyphs(blocks[j]),
    ensures
        all_glyphs(as_blocks(blocks)) == joined_docs(docs),
        restarts_shown(as_blocks(blocks)) == Seq::<Seq<char>>::empty(),
    decreases blocks.len(),
{
    if blocks.len() > 0 {
        assert forall|j: int| 0 <= j < docs.drop_last().len() implies (
        #[trigger] docs.drop_last()[j])@ == parts_glyphs(blocks.drop_last()[j]) by {
            assert(docs.drop_last()[j] == docs[j]);
        }
        lemma_as_blocks(blocks.drop_last(), docs.drop_last());
        lemma_as_block(blocks.last());
        lemma_parts_concat(as_blocks(blocks.drop_last()), as_block(blocks.last()));
        assert(docs[docs.len() - 1]@ == parts_glyphs(blocks[docs.len() - 1]));
        assert(restarts_shown(as_blocks(blocks)) =~= Seq::empty());
    }
}

proof fn lemma_one_region(r: RegionModel, blocks: Seq<Seq<PartModel>>, docs: Seq<Doc>)
    requires
        r.trailing.len() == 0,
        docs.len() == blocks.len(),
        forall|j: int| 0 <= j < docs.len() ==> (#[trigger] docs[j])@ == parts_glyphs(blocks[j]),
    ensures
        all_glyphs(region_parts(r, blocks)) == region_glyphs(r, docs),
        restarts_shown(region_parts(r, blocks)) == outside(r),
{
    let end: Seq<Seq<char>> = match r.terminator {
        Some(t) => seq![t],
        None => Seq::empty(),
    };
    let last: Seq<ReportPart> = match r.terminator {
        Some(t) => seq![ReportPart::Restart(t)],
        None => Seq::empty(),
    };
    assert(last =~= as_restarts(end));
    lemma_as_restarts(r.leading);
    lemma_as_restarts(end);
    lemma_as_blocks(blocks, docs);
    lemma_parts_concat(as_restarts(r.leading), as_blocks(blocks));
    lemma_parts_concat(as_restarts(r.leading) + as_blocks(blocks), last);
    assert(chars(joined(r.trailing)) =~= Seq::empty());
    assert(joined(end) =~= (match r.terminator {
        Some(t) => t,
        None => Seq::empty(),
    })) by {
        if let Some(t) = r.terminator {
            assert(end.drop_last() =~= Seq::empty());
            assert(joined(end.drop_last()) + t =~= t);
        }
    }
    assert(all_glyphs(region_parts(r, blocks)) =~= region_glyphs(r, docs));
    assert(restarts_shown(region_parts(r, blocks)) =~= outside(r));
}

proof fn lemma_regions(
    rs: Seq<RegionModel>,
    blocks: Seq<Seq<Seq<PartModel>>>,
    docs: Seq<Vec<Doc>>,
    n: int,
)
    requires
        0 <= n <= rs.len(),
        rs.len() == blocks.len() == docs.len(),
        forall|i: int| 0 <= i < rs.len() ==> (#[trigger] rs[i]).trailing.len() == 0,
        forall|i: int| 0 <= i < rs.len() ==> (#[trigger] docs[i])@.len() == blocks[i].len(),
        forall|i: int, j: int|
            0 <= i < rs.len() && 0 <= j < docs[i]@.len() ==> (#[trigger] docs[i]@[j])@
                == parts_glyphs(blocks[i][j]),
    ensures
        all_glyphs(regions_parts(rs, blocks, n)) == regions_glyphs(rs, docs, n),
        restarts_shown(regions_parts(rs, blocks, n)) == all_outside(rs.take(n)),
    decreases n,
{
    if n > 0 {
        lemma_regions(rs, blocks, docs, n - 1);
        lemma_one_region(rs[n - 1], blocks[n - 1], docs[n - 1]@);
        lemma_parts_concat(
            regions_parts(rs, blocks, n - 1),
            region_parts(rs[n - 1], blocks[n - 1]),
        );
        assert(rs.take(n).drop_last() =~= rs.take(n - 1));
    } else {
        assert(rs.take(0) =~= Seq::empty());
    }
}

proof fn lemma_no_trailing(
    records: Seq<PlanRecord>,
    n: int,
    opts: SarTextOptions,
    select: SampleSelect,
    cpu_nr: Option<u32>,
)
    requires
        0 <= n <= records.len(),
        !opts.comment,
    ensures
        ({
            let p = after_records(records, n, opts, select, cpu_nr);
            &&& p.current.trailing.len() == 0
            &&& forall|i: int| 0 <= i < p.regions.len() ==> (#[trigger] p.regions[i]).trailing.len()
                == 0
        }),
    decreases n,
{
    if n > 0 {
        lemma_no_trailing(records, n - 1, opts, select, cpu_nr);
        let p = after_records(records, n - 1, opts, select, cpu_nr);
        let q = after_records(records, n, opts, select, cpu_nr);
        assert(q == after_record(p, n - 1, records[n - 1], opts));
        if q.regions.len() > p.regions.len() {
            assert(q.regions =~= p.regions.push(q.regions.last()));
        }
    }
}

/// A report as a whole holds one line for each restart in the time range, in the order of the
/// file: its banner comes first, and then, stretch by stretch, the restarts before the first
/// sample, the blocks, and the restart that ends the stretch. What a block shows is made of
/// samples, comments and averages, whatever its activity is. Here `docs` are the texts of the
/// blocks, `blocks` their parts, and comments are not shown.
pub proof fn law_a_report_holds_each_restart_once(
    h: FileHeader,
    records: Seq<PlanRecord>,
    opts: SarTextOptions,
    select: SampleSelect,
    cpu_nr: Option<u32>,
    blocks: Seq<Seq<Seq<PartModel>>>,
    docs: Seq<Vec<Doc>>,
)
    requires
        !opts.comment,
        ({
            let rs = planned_regions(records, opts, select, cpu_nr);
            &&& rs.len() == blocks.len() == docs.len()
            &&& forall|i: int| 0 <= i < rs.len() ==> (#[trigger] docs[i])@.len() == blocks[i].len()
            &&& forall|i: int, j: int|
                0 <= i < rs.len() && 0 <= j < docs[i]@.len() ==> (#[trigger] docs[i]@[j])@
                    == parts_glyphs(blocks[i][j])
        }),
    ensures
        ({
            let rs = planned_regions(records, opts, select, cpu_nr);
            let parts = report_parts(banner_text(h, opts.time), rs, blocks);
            &&& all_glyphs(parts) == chars(banner_text(h, opts.time)) + regions_glyphs(
                rs,
                docs,
                rs.len() as int,
            )
            &&& parts[0] == ReportPart::Banner(banner_text(h, opts.time))
            &&& restarts_shown(parts) == restart_lines(
                records,
                before_stop(records, records.len() as int),
                opts,
                cpu_nr,
            ).0
        }),
{
    let rs = planned_regions(records, opts, select, cpu_nr);
    let n = records.len() as int;
    let banner = ReportPart::Banner(banner_text(h, opts.time));
    lemma_no_trailing(records, n, opts, select, cpu_nr);
    let p = after_records(records, n, opts, select, cpu_nr);
    assert forall|i: int| 0 <= i < rs.len() implies (#[trigger] rs[i]).trailing.len() == 0 by {
        if i < p.regions.len() {
            assert(rs[i] == p.regions[i]);
        }
    }
    lemma_regions(rs, blocks, docs, rs.len() as int);
    lemma_parts_concat(seq![banner], regions_parts(rs, blocks, rs.len() as int));
    law_each_restart_has_one_line(records, opts, select, cpu_nr);
    assert(rs.take(rs.len() as int) =~= rs);
    assert(seq![banner].drop_last() =~= Seq::empty());
    assert(all_glyphs(Seq::<ReportPart>::empty()) =~= Seq::empty());
    assert(restarts_shown(Seq::<ReportPart>::empty()) =~= Seq::empty());
    assert(all_glyphs(seq![banner]) =~= chars(banner_text(h, opts.time)));
    assert(restarts_shown(seq![banner]) =~= Seq::empty());
    assert(restarts_shown(report_parts(banner_text(h, opts.time), rs, blocks)) =~= all_outside(rs));
}

/// Where comments are not shown, the lines before the blocks of the stretch `k` are those of the
/// restarts between its start and its first sample, and the lines of all stretches before it are
/// those of the restarts before its start.
pub proof fn law_restarts_stand_where_they_happened(
    records: Seq<PlanRecord>,
    opts: SarTextOptions,
    select: SampleSelect,
    cpu_nr: Option<u32>,
    k: int,
    m: int,
)
    requires
        records.len() < usize::MAX,
        !opts.comment,
        0 <= k < planned_regions(records, opts, select, cpu_nr).len(),
        ({
            let r = planned_regions(records, opts, select, cpu_nr)[k];
            r.start <= m <= r.end && any_taken(records, r.start, m)
        }),
    ensures
        ({
            let rs = planned_regions(records, opts, select, cpu_nr);
            &&& all_outside(rs.take(k)) == restart_lines(records, rs[k].start, opts, cpu_nr).0
            &&& all_outside(rs.take(k)) + rs[k].leading == restart_lines(records, m, opts, cpu_nr).0
        }),
{
    let n = records.len() as int;
    lemma_places(records, n, opts, select, cpu_nr);
    lemma_restarts_first(records, n, opts, select, cpu_nr);
    law_regions_lie_within(records, opts, select, cpu_nr, k);
    let p = after_records(records, n, opts, select, cpu_nr);
    let rs = planned_regions(records, opts, select, cpu_nr);
    if k < p.regions.len() {
        assert(rs[k] == p.regions[k]);
        assert(rs.take(k) =~= p.regions.take(k));
        assert(stands_right(p.regions, k, records, opts, cpu_nr));
    } else {
        assert(rs.take(k) =~= p.regions);
        lemma_before_stop(records, n);
        lemma_quiet(records, m, before_stop(records, n), opts, cpu_nr, rs[k].start);
    }
}

/// Whether the lines of the stretch `k` stand where the restarts happened.
pub open spec fn stands_right(
    rs: Seq<RegionModel>,
    k: int,
    records: Seq<PlanRecord>,
    opts: SarTextOptions,
    cpu_nr: Option<u32>,
) -> bool {
    &&& all_outside(rs.take(k)) == restart_lines(records, rs[k].start, opts, cpu_nr).0
    &&& forall|m: int|
        rs[k].start <= m <= rs[k].end && #[trigger] any_taken(records, rs[k].start, m)
            ==> all_outside(rs.take(k)) + rs[k].leading == restart_lines(records, m, opts, cpu_nr).0
}

proof fn lemma_before_stop(records: Seq<PlanRecord>, n: int)
    requires
        0 <= n,
    ensures
        0 <= before_stop(records, n) <= n,
    decreases n,
{
    if n > 0 {
        lemma_before_stop(records, n - 1);
    }
}

/// After the first sample of a stretch there is no restart in it.
proof fn lemma_quiet(
    records: Seq<PlanRecord>,
    m: int,
    n: int,
    opts: SarTextOptions,
    cpu_nr: Option<u32>,
    start: int,
)
    requires
        0 <= start <= m <= n <= records.len(),
        any_taken(records, start, m),
        restarts_come_first(records, start, n),
    ensures
        restart_lines(records, m, opts, cpu_nr) == restart_lines(records, n, opts, cpu_nr),
    decreases n - m,
{
    if m < n {
        lemma_quiet(records, m, n - 1, opts, cpu_nr, start);
        lemma_taken_grows(records, start, m, n - 1);
        assert(!is_restart(records[n - 1]));
    }
}

proof fn lemma_places(
    records: Seq<PlanRecord>,
    n: int,
    opts: SarTextOptions,
    select: SampleSelect,
    cpu_nr: Option<u32>,
)
    requires
        0 <= n <= records.len() < usize::MAX,
        !opts.comment,
    ensures
        ({
            let p = after_records(records, n, opts, select, cpu_nr);
            &&& all_outside(p.regions) == restart_lines(
                records,
                p.current.start,
                opts,
                cpu_nr,
            ).0
            &&& all_outside(p.regions) + p.current.leading == restart_lines(
                records,
                before_stop(records, n),
                opts,
                cpu_nr,
            ).0
            &&& forall|k: int|
                0 <= k < p.regions.len() ==> #[trigger] stands_right(
                    p.regions,
                    k,
                    records,
                    opts,
                    cpu_nr,
                )
            &&& !p.stopped ==> before_stop(records, n) == n
            &&& p.stopped ==> {
                &&& p.current.end <= before_stop(records, n)
                &&& restarts_come_first(records, p.current.start, before_stop(records, n))
            }
            &&& p.slices.cut matches Some(c) ==> c <= n
        }),
    decreases n,
{
    lemma_restart_lines(records, n, opts, select, cpu_nr);
    if n > 0 {
        lemma_places(records, n - 1, opts, select, cpu_nr);
        lemma_restart_lines(records, n - 1, opts, select, cpu_nr);
        lemma_restarts_first(records, n - 1, opts, select, cpu_nr);
        lemma_start(records, n - 1, opts, select, cpu_nr);
        let p = after_records(records, n - 1, opts, select, cpu_nr);
        let q = after_records(records, n, opts, select, cpu_nr);
        assert(q == after_record(p, n - 1, records[n - 1], opts));
        if q.regions.len() > p.regions.len() {
            let ended = q.regions.last();
            let last = p.regions.len() as int;
            assert(q.regions =~= p.regions.push(ended));
            assert(q.current.leading.len() == 0);
            assert(all_outside(q.regions) + q.current.leading =~= all_outside(q.regions));
            assert forall|k: int| 0 <= k < q.regions.len() implies #[trigger] stands_right(
                q.regions,
                k,
                records,
                opts,
                cpu_nr,
            ) by {
                if k < last {
                    assert(q.regions.take(k) =~= p.regions.take(k));
                    assert(stands_right(p.regions, k, records, opts, cpu_nr));
                    assert(q.regions[k] == p.regions[k]);
                } else {
                    assert(q.regions.take(k) =~= p.regions);
                    assert forall|m: int|
                        ended.start <= m <= ended.end && #[trigger] any_taken(
                            records,
                            ended.start,
                            m,
                        ) implies all_outside(q.regions.take(k)) + ended.leading == restart_lines(
                        records,
                        m,
                        opts,
                        cpu_nr,
                    ).0 by {
                        lemma_quiet(records, m, n - 1, opts, cpu_nr, ended.start);
                    }
                }
            }
        } else {
            assert(q.regions =~= p.regions);
        }
    }
}

}
