//! The course of a report: which blocks it has, which records each of them is given, and what
//! they make of them.

use vstd::prelude::*;

use crate::doc::{chars, Doc, Glyph};
use crate::model::ActivityId;
use crate::sar_text::block::{
    average_glyphs, copy_numbers, fits, is_fresh, EndFacts, RecordEvent, SampleHead, SarBlock, Verdict,
};
use crate::sar_text::groups::SampleItems;
use crate::sar_text::header::{comment_text, stamp_text};
use crate::sar_text::layout::activity_models;
use crate::sar_text::lines::LineFacts;
use crate::sar_text::options::{SampleSelect, SarTextOptions};
use crate::sar_text::report::{
    block_records, handled_records, is_restart, numbers, plan_regions, planned_regions,
    region_models, PlanRecord, Region,
};
use crate::sar_text::report_laws::{law_blocks_are_given_no_restart, law_regions_lie_within};

verus! {

/// A part of a block.
#[derive(Debug)]
pub enum BlockPart {
    /// A sample.
    Sample { rec: usize, text: Doc },
    /// A comment.
    Comment { rec: usize, text: Doc },
    /// The averages.
    Averages { text: Doc },
}

/// What a [`BlockPart`] holds.
pub enum PartModel {
    Sample { rec: usize, text: Seq<Glyph> },
    Comment { rec: usize, text: Seq<Glyph> },
    Averages { text: Seq<Glyph> },
}

impl BlockPart {
    pub open spec fn model(self) -> PartModel {
        match self {
            BlockPart::Sample { rec, text } => PartModel::Sample { rec, text: text@ },
            BlockPart::Comment { rec, text } => PartModel::Comment { rec, text: text@ },
            BlockPart::Averages { text } => PartModel::Averages { text: text@ },
        }
    }
}

/// What a list of [`BlockPart`] holds.
pub open spec fn part_models(v: Seq<BlockPart>) -> Seq<PartModel> {
    Seq::new(v.len(), |i: int| v[i].model())
}

/// What is shown of a part.
pub open spec fn part_glyphs(p: PartModel) -> Seq<Glyph> {
    match p {
        PartModel::Sample { text, .. } => text,
        PartModel::Comment { text, .. } => text,
        PartModel::Averages { text } => text,
    }
}

/// What is shown of parts, one after the other.
pub open spec fn parts_glyphs(ps: Seq<PartModel>) -> Seq<Glyph>
    decreases ps.len(),
{
    if ps.len() == 0 {
        Seq::empty()
    } else {
        parts_glyphs(ps.drop_last()) + part_glyphs(ps.last())
    }
}

/// What a block is to be given next.
#[derive(Clone, Copy, PartialEq, Eq, Structural, Debug)]
pub enum Next {
    /// A statistics record: [`BlockRun::sample`].
    Sample { rec: usize },
    /// A comment: [`BlockRun::comment`].
    Comment { rec: usize },
    /// What is known at the end: [`BlockRun::finish`].
    End,
}

/// A block on its way through the records of its stretch.
#[derive(Debug)]
pub struct BlockRun<'a> {
    pub block: SarBlock<'a>,
    pub records: &'a Vec<PlanRecord>,
    /// The records that the block is given.
    pub todo: Vec<usize>,
    /// How many of them it has been given.
    pub at: usize,
    /// What it has made of them.
    pub parts: Vec<BlockPart>,
}

/// A stretch with its blocks.
#[derive(Debug)]
pub struct RegionRun<'a> {
    pub region: Region,
    /// In the order in which they are shown.
    pub blocks: Vec<BlockRun<'a>>,
}

impl<'a> BlockRun<'a> {
    /// Whether the records that the block is given are there, and no restart is among them.
    pub open spec fn wf(self) -> bool {
        &&& self.at <= self.todo@.len()
        &&& forall|k: int|
            0 <= k < self.todo@.len() ==> (#[trigger] self.todo@[k]) < self.records@.len()
                && !is_restart(self.records@[self.todo@[k] as int])
    }

    /// What the block is to be given next.
    pub open spec fn next_of(self) -> Next {
        if self.at >= self.todo@.len() {
            Next::End
        } else {
            let rec = self.todo@[self.at as int];
            match self.records@[rec as int] {
                PlanRecord::Sample { .. } => Next::Sample { rec },
                PlanRecord::Event { .. } => Next::Comment { rec },
            }
        }
    }

    /// What the block is to be given next.
    pub fn next(&self) -> (r: Next)
        requires
            self.wf(),
        ensures
            r == self.next_of(),
    {
        if self.at >= self.todo.len() {
            return Next::End;
        }
        let rec: usize = self.todo[self.at];
        match &self.records[rec] {
            PlanRecord::Sample { .. } => Next::Sample { rec },
            PlanRecord::Event { .. } => Next::Comment { rec },
        }
    }

    /// Whether `after` has the records of this run, and has been given `more` of them.
    pub open spec fn goes_on(self, after: BlockRun<'_>, more: int) -> bool {
        &&& after.wf()
        &&& after.records == self.records
        &&& after.todo == self.todo
        &&& after.at == self.at + more
    }

    /// Gives the block the comment that is next. It is shown where comments are.
    pub fn comment(&mut self)
        requires
            old(self).wf(),
            old(self).next_of() is Comment,
        ensures
            old(self).goes_on(*final(self), 1),
            final(self).block == old(self).block,
            part_models(final(self).parts@) == part_models(old(self).parts@).push(
                PartModel::Comment {
                    rec: old(self).next_of()->Comment_rec,
                    text: comment_glyphs(
                        old(self).records@[old(self).next_of()->Comment_rec as int],
                        *old(self).block.opts,
                    ),
                },
            ),
    {
        let given: usize = self.todo.len();
        let rec: usize = self.todo[self.at];
        let ghost had = part_models(self.parts@);
        assert(!is_restart(self.records@[rec as int]));
        let text = match &self.records[rec] {
            PlanRecord::Event { event, .. } => match event {
                RecordEvent::Comment { .. } => {
                    let none = EndFacts { online: Vec::new(), items: Vec::new() };
                    self.block.event(event, &none)
                },
                RecordEvent::Restart { .. } => Doc::new(),
            },
            PlanRecord::Sample { .. } => Doc::new(),
        };
        let part = BlockPart::Comment { rec, text };
        self.parts.push(part);
        assert(self.at < given);
        self.at = self.at + 1;
        assert(part_models(self.parts@) =~= had.push(part.model()));
    }

    /// Gives the block the statistics record that is next. Where it is to be shown,
    /// [`BlockRun::show`] is to follow; else the block goes on to the next record.
    pub fn sample(&mut self, head: &SampleHead, items: Option<&SampleItems<'_>>) -> (r: Verdict)
        requires
            old(self).wf(),
            old(self).next_of() is Sample,
            items matches Some(s) ==> old(self).block.can_read(*s),
        ensures
            old(self).goes_on(
                *final(self),
                if r is Show {
                    0
                } else {
                    1
                },
            ),
            final(self).parts == old(self).parts,
            match items {
                None => r == Verdict::Ignored && final(self).block == old(self).block,
                Some(s) => old(self).block.has_read(final(self).block, *head, *s, r),
            },
    {
        let given: usize = self.todo.len();
        assert(self.at < given);
        let r = self.block.record(head, items);
        match r {
            Verdict::Show { .. } => {},
            _ => {
                self.at = self.at + 1;
            },
        }
        r
    }

    /// Shows the statistics record that is next.
    pub fn show(
        &mut self,
        head: &SampleHead,
        prev: &SampleItems<'_>,
        curr: &SampleItems<'_>,
        online: &Vec<bool>,
        facts: &Vec<LineFacts>,
    )
        requires
            old(self).wf(),
            old(self).next_of() is Sample,
            old(self).block.can_show(*prev, *curr, online@, facts@),
        ensures
            old(self).goes_on(*final(self), 1),
            old(self).block.has_shown(final(self).block, *head, *prev, *curr, online@, facts@),
            part_models(final(self).parts@) == part_models(old(self).parts@).push(
                PartModel::Sample {
                    rec: old(self).next_of()->Sample_rec,
                    text: old(self).block.sample_glyphs(
                        old(self).block.columns_at(*curr, online@),
                        *head,
                        old(self).block.shown_rows(*prev, *curr, online@, facts@),
                    ),
                },
            ),
    {
        let given: usize = self.todo.len();
        let rec: usize = self.todo[self.at];
        let ghost had = part_models(self.parts@);
        let text = self.block.show(head, prev, curr, online, facts);
        let part = BlockPart::Sample { rec, text };
        self.parts.push(part);
        assert(self.at < given);
        self.at = self.at + 1;
        assert(part_models(self.parts@) =~= had.push(part.model()));
    }

    /// Ends the block with its averages, and returns all of it.
    pub fn finish(self, ends: &EndFacts) -> (r: Doc)
        requires
            self.next_of() is End,
            fits(self.block, *ends),
        ensures
            r@ == parts_glyphs(
                part_models(self.parts@).push(
                    PartModel::Averages { text: average_glyphs(self.block, *ends) },
                ),
            ),
    {
        let mut block = self.block;
        let last = block.finish(ends);
        let ghost all = part_models(self.parts@);
        let ghost whole = all.push(PartModel::Averages { text: last@ });
        let mut out = join_parts(self.parts);
        assert(whole.drop_last() =~= all);
        out.join(last);
        out
    }
}

/// What is shown of a comment.
pub open spec fn comment_glyphs(rec: PlanRecord, opts: SarTextOptions) -> Seq<Glyph> {
    match rec {
        PlanRecord::Event { event: RecordEvent::Comment { time, text }, .. } => if opts.comment {
            chars(comment_text(stamp_text(time, opts.time), text@))
        } else {
            Seq::empty()
        },
        _ => Seq::empty(),
    }
}

fn join_parts(parts: Vec<BlockPart>) -> (r: Doc)
    ensures
        r@ == parts_glyphs(part_models(parts@)),
{
    let ghost all = part_models(parts@);
    let mut rest = parts;
    let mut out = Doc::new();
    let ghost mut done: int = 0;
    assert(all.take(0) =~= Seq::<PartModel>::empty());
    assert(part_models(rest@) =~= all.skip(0));
    while rest.len() > 0
        invariant
            0 <= done <= all.len(),
            rest@.len() == all.len() - done,
            part_models(rest@) == all.skip(done),
            out@ == parts_glyphs(all.take(done)),
        decreases rest.len(),
    {
        let ghost had = rest@;
        let ghost before = part_models(rest@);
        let p = rest.remove(0);
        proof {
            assert(before[0] == p.model());
            assert(all[done] == p.model());
            assert forall|i: int| 0 <= i < rest@.len() implies #[trigger] part_models(rest@)[i]
                == all.skip(done + 1)[i] by {
                assert(rest@[i] == had[i + 1]);
                assert(before[i + 1] == all.skip(done)[i + 1]);
            }
            assert(part_models(rest@) =~= all.skip(done + 1));
            assert(all.take(done + 1).drop_last() =~= all.take(done));
            assert(all.take(done + 1).last() == all[done]);
        }
        match p {
            BlockPart::Sample { text, .. } => out.join(text),
            BlockPart::Comment { text, .. } => out.join(text),
            BlockPart::Averages { text } => out.join(text),
        }
        proof {
            done = done + 1;
        }
    }
    assert(all.take(done) =~= all);
    out
}

/// Where the blocks of the first `n` activities end among those of a stretch.
pub open spec fn blocks_upto(activities: Seq<ActivityId>, opts: SarTextOptions, n: int) -> int
    decreases n,
{
    if n <= 0 {
        0
    } else {
        blocks_upto(activities, opts, n - 1) + activity_models(activities[n - 1], opts).len()
    }
}

/// Whether `b` is the block `v` of the activity `id` at the start of the stretch `r`.
pub open spec fn starts_block(
    b: BlockRun<'_>,
    records: Seq<PlanRecord>,
    r: Region,
    id: ActivityId,
    v: int,
    opts: SarTextOptions,
    select: SampleSelect,
) -> bool {
    &&& b.wf()
    &&& b.records@ == records
    &&& b.at == 0
    &&& b.parts@.len() == 0
    &&& numbers(b.todo@) == handled_records(records, r.start as int, r.end as int)
    &&& is_fresh(b.block)
    &&& b.block.view.model() == activity_models(id, opts)[v]
    &&& *b.block.opts == opts
    &&& b.block.select == select
    &&& b.block.file_cpu_nr == r.cpu_nr
}

/// Whether `run` holds the stretch `run.region` at its start: for each activity in turn, each of
/// its blocks.
pub open spec fn starts_region(
    run: RegionRun<'_>,
    records: Seq<PlanRecord>,
    activities: Seq<ActivityId>,
    opts: SarTextOptions,
    select: SampleSelect,
    n: int,
) -> bool {
    &&& run.blocks@.len() == blocks_upto(activities, opts, n)
    &&& forall|a: int, v: int|
        #![trigger run.blocks@[blocks_upto(activities, opts, a) + v]]
        0 <= a < n && 0 <= v < activity_models(activities[a], opts).len() ==> starts_block(
            run.blocks@[blocks_upto(activities, opts, a) + v],
            records,
            run.region,
            activities[a],
            v,
            opts,
            select,
        )
}

proof fn lemma_blocks_grow(activities: Seq<ActivityId>, opts: SarTextOptions, a: int, n: int)
    requires
        0 <= a < n,
    ensures
        blocks_upto(activities, opts, a) + activity_models(activities[a], opts).len()
            <= blocks_upto(activities, opts, n),
        0 <= blocks_upto(activities, opts, a),
    decreases n,
{
    if a > 0 {
        lemma_blocks_grow(activities, opts, a - 1, a);
    }
    if a < n - 1 {
        lemma_blocks_grow(activities, opts, a, n - 1);
    }
}

fn start_region<'a>(
    records: &'a Vec<PlanRecord>,
    opts: &'a SarTextOptions,
    select: SampleSelect,
    activities: &Vec<ActivityId>,
    region: Region,
) -> (r: RegionRun<'a>)
    requires
        region.start <= region.end <= records@.len(),
        forall|k: int|
            0 <= k < handled_records(records@, region.start as int, region.end as int).len()
                ==> !is_restart(
                records@[#[trigger] handled_records(
                    records@,
                    region.start as int,
                    region.end as int,
                )[k]],
            ),
        forall|k: int|
            0 <= k < handled_records(records@, region.start as int, region.end as int).len() ==> 0
                <= #[trigger] handled_records(
                records@,
                region.start as int,
                region.end as int,
            )[k] < records@.len(),
    ensures
        r.region == region,
        starts_region(r, records@, activities@, *opts, select, activities@.len() as int),
{
    let todo = block_records(records, region.start, region.end);
    let ghost wanted = handled_records(records@, region.start as int, region.end as int);
    assert(numbers(todo@) == wanted);
    assert forall|k: int| 0 <= k < todo@.len() implies (#[trigger] todo@[k]) < records@.len()
        && !is_restart(records@[todo@[k] as int]) by {
        assert(numbers(todo@)[k] == todo@[k]);
        assert(wanted[k] == todo@[k]);
    }
    let cpu_nr: Option<u32> = region.cpu_nr;
    let mut run = RegionRun { region, blocks: Vec::new() };
    let mut i: usize = 0;
    while i < activities.len()
        invariant
            i <= activities@.len(),
            run.region == region,
            cpu_nr == region.cpu_nr,
            numbers(todo@) == handled_records(
                records@,
                region.start as int,
                region.end as int,
            ),
            forall|k: int|
                0 <= k < todo@.len() ==> (#[trigger] todo@[k]) < records@.len() && !is_restart(
                    records@[todo@[k] as int],
                ),
            starts_region(run, records@, activities@, *opts, select, i as int),
        decreases activities.len() - i,
    {
        let id = activities[i];
        let ghost base = blocks_upto(activities@, *opts, i as int);
        let ghost old_blocks = run.blocks@;
        let mut fresh = SarBlock::blocks_for(id, opts, cpu_nr, select);
        let ghost all = fresh@;
        let ghost mut done: int = 0;
        assert(all.skip(0) =~= all);
        while fresh.len() > 0
            invariant
                i < activities@.len(),
                id == activities@[i as int],
                run.region == region,
                cpu_nr == region.cpu_nr,
                base == blocks_upto(activities@, *opts, i as int),
                base == old_blocks.len(),
                0 <= done <= all.len(),
                all.len() == activity_models(id, *opts).len(),
                fresh@ == all.skip(done),
                forall|k: int|
                    #![trigger all[k]]
                    0 <= k < all.len() ==> {
                        &&& all[k].view.model() == activity_models(id, *opts)[k]
                        &&& all[k].opts == opts
                        &&& all[k].select == select
                        &&& all[k].file_cpu_nr == cpu_nr
                        &&& is_fresh(all[k])
                    },
                numbers(todo@) == handled_records(
                    records@,
                    region.start as int,
                    region.end as int,
                ),
                forall|k: int|
                    0 <= k < todo@.len() ==> (#[trigger] todo@[k]) < records@.len() && !is_restart(
                        records@[todo@[k] as int],
                    ),
                run.blocks@.len() == base + done,
                forall|k: int| 0 <= k < base ==> #[trigger] run.blocks@[k] == old_blocks[k],
                forall|v: int|
                    #![trigger run.blocks@[base + v]]
                    0 <= v < done ==> starts_block(
                        run.blocks@[base + v],
                        records@,
                        region,
                        id,
                        v,
                        *opts,
                        select,
                    ),
            decreases fresh.len(),
        {
            let block = fresh.remove(0);
            assert(block == all[done]);
            assert(fresh@ =~= all.skip(done + 1));
            let b = BlockRun { block, records, todo: copy_numbers(&todo), at: 0, parts: Vec::new() };
            assert(starts_block(b, records@, region, id, done, *opts, select));
            run.blocks.push(b);
            proof {
                done = done + 1;
            }
        }
        proof {
            assert(done == all.len());
            assert forall|a: int, v: int|
                #![trigger run.blocks@[blocks_upto(activities@, *opts, a) + v]]
                0 <= a < i + 1 && 0 <= v < activity_models(activities@[a], *opts).len() implies
                    starts_block(
                run.blocks@[blocks_upto(activities@, *opts, a) + v],
                records@,
                region,
                activities@[a],
                v,
                *opts,
                select,
            ) by {
                if a < i {
                    lemma_blocks_grow(activities@, *opts, a, i as int);
                    let k = blocks_upto(activities@, *opts, a) + v;
                    assert(run.blocks@[k] == old_blocks[k]);
                } else {
                    assert(blocks_upto(activities@, *opts, a) == base);
                }
            }
        }
        i = i + 1;
    }
    run
}

/// The course of a report: its stretches, each with its blocks. No block is given a restart.
pub fn plan_report<'a>(
    records: &'a Vec<PlanRecord>,
    opts: &'a SarTextOptions,
    select: SampleSelect,
    cpu_nr: Option<u32>,
    activities: &Vec<ActivityId>,
) -> (r: Vec<RegionRun<'a>>)
    requires
        records@.len() < usize::MAX,
    ensures
        r@.len() == planned_regions(records@, *opts, select, cpu_nr).len(),
        forall|i: int|
            #![trigger r@[i]]
            0 <= i < r@.len() ==> {
                &&& r@[i].region.model() == planned_regions(records@, *opts, select, cpu_nr)[i]
                &&& starts_region(
                    r@[i],
                    records@,
                    activities@,
                    *opts,
                    select,
                    activities@.len() as int,
                )
            },
{
    let mut regions = plan_regions(records, opts, select, cpu_nr);
    let ghost all = regions@;
    let ghost planned = planned_regions(records@, *opts, select, cpu_nr);
    let mut out: Vec<RegionRun<'a>> = Vec::new();
    assert(all.skip(0) =~= all);
    assert(region_models(all) == planned);
    while regions.len() > 0
        invariant
            records@.len() < usize::MAX,
            planned == planned_regions(records@, *opts, select, cpu_nr),
            region_models(all) == planned,
            out@.len() + regions@.len() == all.len(),
            regions@ == all.skip(out@.len() as int),
            forall|i: int|
                #![trigger out@[i]]
                0 <= i < out@.len() ==> {
                    &&& out@[i].region.model() == planned[i]
                    &&& starts_region(
                        out@[i],
                        records@,
                        activities@,
                        *opts,
                        select,
                        activities@.len() as int,
                    )
                },
        decreases regions.len(),
    {
        let ghost k = out@.len() as int;
        let region = regions.remove(0);
        proof {
            assert(region == all[k]);
            assert(region_models(all)[k] == region.model());
            assert(regions@ =~= all.skip(k + 1));
            law_blocks_are_given_no_restart(records@, *opts, select, cpu_nr, k);
            law_regions_lie_within(records@, *opts, select, cpu_nr, k);
        }
        let run = start_region(records, opts, select, activities, region);
        out.push(run);
    }
    out
}

}
