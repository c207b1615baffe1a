//! A data file, as far as the formats need it.

use vstd::prelude::*;

use crate::model::{list_contains, listed, ActivityId};
use crate::sadf::access::{find_sample, sample_position, ActivityPair, ActivitySample, IntervalView};
use crate::sadf::config::SadfConfig;
use crate::sadf::logic2::{
    followed_activities, followed_by, fresh_memory, run, script_from, Action, Pass, RunSetup,
    Tracker,
};
use crate::sadf::records::{indexes, RawRecord, RecordIndex};
use crate::sadf::select::RecordSelect;
use crate::sadf::table::{
    act_ids, act_order, lookup, lookup_all, spec_models, table, tables_of, ActivitySpec,
};
use crate::sar_text::header::FileHeader;

verus! {

/// An activity in the list of a file.
#[derive(Debug)]
pub struct FileActivityEntry {
    pub id: ActivityId,
    pub magic: u32,
    pub nr: i32,
    pub nr2: i32,
    pub size: u32,
    /// Whether each record says how many items it holds.
    pub has_nr: bool,
    pub types_nr: Option<[u32; 3]>,
    /// The magic number of the current layout; `None` where the activity is unknown.
    pub current_magic: Option<u32>,
    /// Whether the layout is one that is displayed.
    pub displayed: bool,
}

/// The start of a file.
#[derive(Debug)]
pub struct FileMagic {
    pub format_magic: u16,
    /// The release that wrote the file.
    pub version: String,
    pub upgraded: Option<u32>,
    pub hdr_types_nr: Option<[u32; 3]>,
}

/// The rest of the header of a file.
#[derive(Debug)]
pub struct FileLayout {
    pub act_types_nr: Option<[u32; 3]>,
    pub rec_types_nr: Option<[u32; 3]>,
    pub sizeof_long: u32,
    pub hz: Option<u64>,
    pub act_nr: u32,
    pub extra_next: Option<u32>,
}

/// A data file. What was computed of its intervals comes with it: an interval for each pair of
/// records that the script of a format names.
#[derive(Debug)]
pub struct SaFile {
    pub path: String,
    pub magic: FileMagic,
    pub header: FileHeader,
    pub layout: FileLayout,
    pub activities: Vec<FileActivityEntry>,
    pub records: Vec<RawRecord>,
    pub views: Vec<IntervalView>,
    /// Activities without items whose layout is unknown, with the value 0 for each column.
    pub zeros: Vec<ActivitySample>,
}

/// Whether an activity of a file is displayed.
pub open spec fn displays(entries: Seq<FileActivityEntry>, id: ActivityId) -> bool {
    exists|i: int| 0 <= i < entries.len() && (#[trigger] entries[i]).id == id && entries[i].displayed
}

fn displays_activity(entries: &Vec<FileActivityEntry>, id: ActivityId) -> (r: bool)
    ensures
        r == displays(entries@, id),
{
    let mut i: usize = 0;
    while i < entries.len()
        invariant
            i <= entries@.len(),
            forall|k: int| 0 <= k < i ==> !((#[trigger] entries@[k]).id == id && entries@[k].displayed),
        decreases entries.len() - i,
    {
        if entries[i].id == id && entries[i].displayed {
            return true;
        }
        i = i + 1;
    }
    false
}

/// Whether a file lists an activity with items.
pub open spec fn lists(entries: Seq<FileActivityEntry>, id: ActivityId) -> bool {
    exists|i: int| 0 <= i < entries.len() && (#[trigger] entries[i]).id == id && entries[i].nr > 0
}

fn lists_activity(entries: &Vec<FileActivityEntry>, id: ActivityId) -> (r: bool)
    ensures
        r == lists(entries@, id),
{
    let mut i: usize = 0;
    while i < entries.len()
        invariant
            i <= entries@.len(),
            forall|k: int| 0 <= k < i ==> !((#[trigger] entries@[k]).id == id && entries@[k].nr > 0),
        decreases entries.len() - i,
    {
        if entries[i].id == id && entries[i].nr > 0 {
            return true;
        }
        i = i + 1;
    }
    false
}

/// The activities of the first `n` entries that have items and are displayed, each once.
pub open spec fn present(entries: Seq<FileActivityEntry>, n: int) -> Seq<ActivityId>
    decreases n,
{
    if n <= 0 {
        Seq::empty()
    } else {
        let before = present(entries, n - 1);
        let e = entries[n - 1];
        if e.nr > 0 && displays(entries, e.id) && e.id.known() && !listed(before, e.id) {
            before.push(e.id)
        } else {
            before
        }
    }
}

/// The activities of a file that have items and are displayed, in the order of the file.
pub fn present_ids(file: &SaFile) -> (r: Vec<ActivityId>)
    ensures
        r@ == present(file.activities@, file.activities@.len() as int),
{
    let mut out: Vec<ActivityId> = Vec::new();
    let mut i: usize = 0;
    while i < file.activities.len()
        invariant
            i <= file.activities@.len(),
            out@ == present(file.activities@, i as int),
        decreases file.activities.len() - i,
    {
        let id = file.activities[i].id;
        if file.activities[i].nr > 0 && displays_activity(&file.activities, id) && id.is_known()
            && !list_contains(&out, id) {
            out.push(id);
        }
        i = i + 1;
    }
    out
}

/// The tables of the activities of a file that have items and are displayed.
pub fn present_specs(file: &SaFile) -> (r: Vec<ActivitySpec>)
    ensures
        ({
            let ids = present(file.activities@, file.activities@.len() as int);
            spec_models(r@) == tables_of(ids, ids.len() as int)
        }),
{
    lookup_all(&present_ids(file))
}

/// The activities of a list that are selected.
pub open spec fn chosen(cfg: SadfConfig, ids: Seq<ActivityId>) -> Seq<ActivityId>
    decreases ids.len(),
{
    if ids.len() == 0 {
        Seq::empty()
    } else if cfg.selects(ids.last()) {
        chosen(cfg, ids.drop_last()).push(ids.last())
    } else {
        chosen(cfg, ids.drop_last())
    }
}

/// The selected activities of a file.
pub open spec fn selection(file: SaFile, cfg: SadfConfig) -> Seq<ActivityId> {
    chosen(cfg, present(file.activities@, file.activities@.len() as int))
}

/// The selected activities of a file.
pub fn selected_ids(file: &SaFile, cfg: &SadfConfig) -> (r: Vec<ActivityId>)
    ensures
        r@ == selection(*file, *cfg),
{
    let ids = present_ids(file);
    let mut out: Vec<ActivityId> = Vec::new();
    let mut i: usize = 0;
    assert(ids@.take(0) =~= Seq::empty());
    while i < ids.len()
        invariant
            i <= ids@.len(),
            out@ == chosen(*cfg, ids@.take(i as int)),
        decreases ids.len() - i,
    {
        proof {
            assert(ids@.take(i + 1).drop_last() =~= ids@.take(i as int));
            assert(ids@.take(i + 1).last() == ids@[i as int]);
        }
        if cfg.is_selected(ids[i]) {
            out.push(ids[i]);
        }
        i = i + 1;
    }
    assert(ids@.take(ids@.len() as int) =~= ids@);
    out
}

/// The tables of the selected activities of a file.
pub fn selected_specs(file: &SaFile, cfg: &SadfConfig) -> (r: Vec<ActivitySpec>)
    ensures
        spec_models(r@) == tables_of(
            selection(*file, *cfg),
            selection(*file, *cfg).len() as int,
        ),
{
    lookup_all(&selected_ids(file, cfg))
}

/// Whether the file lists any activity that is selected. One whose layout is unknown counts.
pub fn any_selected_in_file(file: &SaFile, cfg: &SadfConfig) -> (r: bool)
    ensures
        r == exists|i: int|
            0 <= i < file.activities@.len() && (#[trigger] file.activities@[i]).id.known()
                && cfg.selects(file.activities@[i].id),
{
    let mut i: usize = 0;
    while i < file.activities.len()
        invariant
            i <= file.activities@.len(),
            forall|k: int|
                0 <= k < i ==> !((#[trigger] file.activities@[k]).id.known() && cfg.selects(
                    file.activities@[k].id,
                )),
        decreases file.activities.len() - i,
    {
        let id = file.activities[i].id;
        if id.is_known() && cfg.is_selected(id) {
            return true;
        }
        i = i + 1;
    }
    false
}

/// A pass for each section in `at`.
pub open spec fn section_passes(id: ActivityId, at: Seq<int>) -> Seq<Pass> {
    Seq::new(at.len(), |i: int| Pass::Activity { id, section: at[i] as usize })
}

/// A pass for each section of the activities that is shown.
pub open spec fn passes_of(ids: Seq<ActivityId>, cfg: SadfConfig, n: int) -> Seq<Pass>
    decreases n,
{
    if n <= 0 {
        Seq::empty()
    } else {
        match table(ids[n - 1]) {
            Some(m) => passes_of(ids, cfg, n - 1) + section_passes(
                ids[n - 1],
                m.active(cfg.section),
            ),
            None => passes_of(ids, cfg, n - 1),
        }
    }
}

/// A pass for each section of the activities that is shown.
pub fn activity_passes(ids: &Vec<ActivityId>, cfg: &SadfConfig) -> (r: Vec<Pass>)
    ensures
        r@ == passes_of(ids@, *cfg, ids@.len() as int),
{
    let mut out: Vec<Pass> = Vec::new();
    let mut i: usize = 0;
    while i < ids.len()
        invariant
            i <= ids@.len(),
            out@ == passes_of(ids@, *cfg, i as int),
        decreases ids.len() - i,
    {
        let id = ids[i];
        match lookup(id) {
            Some(s) => {
                let at = s.active_positions(&cfg.section);
                let ghost want = s.model().active(cfg.section);
                let ghost before = out@;
                let mut k: usize = 0;
                assert(out@ =~= before + section_passes(id, want.take(0)));
                while k < at.len()
                    invariant
                        k <= at@.len(),
                        at@.len() == want.len(),
                        forall|j: int| 0 <= j < at@.len() ==> #[trigger] at@[j] == want[j],
                        out@ == before + section_passes(id, want.take(k as int)),
                    decreases at.len() - k,
                {
                    out.push(Pass::Activity { id, section: at[k] });
                    k = k + 1;
                    assert(out@ =~= before + section_passes(id, want.take(k as int)));
                }
                assert(want.take(at@.len() as int) =~= want);
            },
            None => {},
        }
        i = i + 1;
    }
    out
}

/// An activity that is shown where the order is that of the tables.
#[derive(Clone, Copy, PartialEq, Eq, Structural, Debug)]
pub struct ActEntry {
    pub id: ActivityId,
    /// Whether the layout is unknown and the value 0 is shown for each column.
    pub zero: bool,
}

/// Whether an activity without items is shown as zeros: it is selected, and the file lists it in
/// a layout that is not displayed.
pub open spec fn shown_as_zero(file: SaFile, cfg: SadfConfig, id: ActivityId) -> bool {
    &&& table(id) matches Some(m) && m.item is Single
    &&& !displays(file.activities@, id)
    &&& lists(file.activities@, id)
    &&& cfg.selects(id)
    &&& sample_position(file.zeros@, id, file.zeros@.len() as int) is Some
}

/// What is shown of the first `n` activities in the order of the tables.
pub open spec fn entries_of(file: SaFile, cfg: SadfConfig, n: int) -> Seq<ActEntry>
    decreases n,
{
    if n <= 0 {
        Seq::empty()
    } else {
        let before = entries_of(file, cfg, n - 1);
        let id = act_order()[n - 1];
        if listed(selection(file, cfg), id) {
            before.push(ActEntry { id, zero: false })
        } else if shown_as_zero(file, cfg, id) {
            before.push(ActEntry { id, zero: true })
        } else {
            before
        }
    }
}

/// What is shown where the order is that of the tables.
pub fn act_entries(file: &SaFile, cfg: &SadfConfig) -> (r: Vec<ActEntry>)
    ensures
        r@ == entries_of(*file, *cfg, act_order().len() as int),
{
    let shown = selected_ids(file, cfg);
    let ids = act_ids();
    let mut out: Vec<ActEntry> = Vec::new();
    let mut i: usize = 0;
    while i < ids.len()
        invariant
            i <= ids@.len(),
            ids@ == act_order(),
            shown@ == selection(*file, *cfg),
            out@ == entries_of(*file, *cfg, i as int),
        decreases ids.len() - i,
    {
        let id = ids[i];
        if list_contains(&shown, id) {
            out.push(ActEntry { id, zero: false });
        } else {
            let single = match lookup(id) {
                Some(s) => s.item.is_single(),
                None => false,
            };
            if single && !displays_activity(&file.activities, id) && lists_activity(
                &file.activities,
                id,
            ) && cfg.is_selected(id) && find_sample(&file.zeros, id).is_some() {
                out.push(ActEntry { id, zero: true });
            }
        }
        i = i + 1;
    }
    out
}

/// The activity of an entry in an interval.
pub open spec fn pair_of(entry: ActEntry, file: SaFile, view: IntervalView) -> Option<
    ActivityPair<'static>,
> {
    if entry.zero {
        match sample_position(file.zeros@, entry.id, file.zeros@.len() as int) {
            Some(i) => Some(
                ActivityPair {
                    id: entry.id,
                    sample: &file.zeros@[i],
                    itv_cs: view.itv_cs,
                    has_prev: true,
                    continuous: true,
                },
            ),
            None => None,
        }
    } else {
        crate::sadf::access::pair_in(view, entry.id)
    }
}

impl ActEntry {
    /// The activity in an interval.
    pub fn pair<'a>(&self, file: &'a SaFile, view: &'a IntervalView) -> (r: Option<
        ActivityPair<'a>,
    >)
        ensures
            r == pair_of(*self, *file, *view),
    {
        if self.zero {
            match find_sample(&file.zeros, self.id) {
                Some(i) => Some(
                    ActivityPair {
                        id: self.id,
                        sample: &file.zeros[i],
                        itv_cs: view.itv_cs,
                        has_prev: true,
                        continuous: true,
                    },
                ),
                None => None,
            }
        } else {
            ActivityPair::from_view(view, self.id)
        }
    }
}

/// Where the interval between two records is.
pub open spec fn view_position(views: Seq<IntervalView>, rec: usize, prev: usize, n: int) -> Option<
    int,
>
    decreases n,
{
    if n <= 0 {
        None
    } else {
        match view_position(views, rec, prev, n - 1) {
            Some(i) => Some(i),
            None => if views[n - 1].rec == rec && views[n - 1].prev == prev {
                Some(n - 1)
            } else {
                None
            },
        }
    }
}

/// The interval between two records.
pub open spec fn view_of(file: SaFile, rec: usize, prev: usize) -> Option<IntervalView> {
    match view_position(file.views@, rec, prev, file.views@.len() as int) {
        Some(i) => Some(file.views@[i]),
        None => None,
    }
}

/// The interval between two records.
pub fn find_view(file: &SaFile, rec: usize, prev: usize) -> (r: Option<&IntervalView>)
    ensures
        crate::sadf::access::owned(r) == view_of(*file, rec, prev),
{
    let mut found: Option<usize> = None;
    let mut i: usize = 0;
    while i < file.views.len()
        invariant
            i <= file.views@.len(),
            match found {
                Some(k) => view_position(file.views@, rec, prev, i as int) == Some(k as int) && k
                    < file.views@.len(),
                None => view_position(file.views@, rec, prev, i as int) is None,
            },
        decreases file.views.len() - i,
    {
        if found.is_none() && file.views[i].rec == rec && file.views[i].prev == prev {
            found = Some(i);
        }
        i = i + 1;
    }
    match found {
        Some(k) => Some(&file.views[k]),
        None => None,
    }
}

/// The numbers of items in the list of a file.
pub open spec fn item_counts(entries: Seq<FileActivityEntry>) -> Seq<(ActivityId, i32)> {
    Seq::new(entries.len(), |i: int| (entries[i].id, entries[i].nr))
}

fn list_item_counts(entries: &Vec<FileActivityEntry>) -> (r: Vec<(ActivityId, i32)>)
    ensures
        r@ == item_counts(entries@),
{
    let mut out: Vec<(ActivityId, i32)> = Vec::new();
    let mut i: usize = 0;
    while i < entries.len()
        invariant
            i <= entries@.len(),
            out@ == item_counts(entries@).take(i as int),
        decreases entries.len() - i,
    {
        out.push((entries[i].id, entries[i].nr));
        i = i + 1;
        assert(out@ =~= item_counts(entries@).take(i as int));
    }
    assert(item_counts(entries@).take(i as int) =~= item_counts(entries@));
    out
}

/// What a format that goes activity by activity shows of a file, in its order.
#[derive(Debug)]
pub struct Script {
    pub index: RecordIndex,
    pub passes: Vec<Pass>,
    pub actions: Vec<Action>,
}

impl Script {
    /// Whether this is the script of a file for these passes.
    pub open spec fn is_of(
        self,
        file: SaFile,
        passes: Seq<Pass>,
        select: RecordSelect,
        comments: bool,
        debug: bool,
    ) -> bool {
        let followed = followed_by(passes, passes.len() as int);
        &&& self.passes@ == passes
        &&& indexes(self.index, file.records@, followed, debug, file.records@.len() as int)
        &&& self.actions@ == script_from(
            RunSetup { index: &self.index, comments, select, passes: &self.passes },
            fresh_memory(item_counts(file.activities@), followed, file.header.cpu_nr),
            0,
        )
    }

    /// The script of a file for these passes.
    pub fn make(
        file: &SaFile,
        passes: Vec<Pass>,
        select: RecordSelect,
        comments: bool,
        debug: bool,
    ) -> (r: Self)
        ensures
            r.is_of(*file, passes@, select, comments, debug),
    {
        let followed = followed_activities(&passes);
        let index = RecordIndex::build(&file.records, &followed, debug);
        let start = Tracker::new(
            &list_item_counts(&file.activities),
            &followed,
            file.header.cpu_nr,
        );
        let actions = run(
            &RunSetup { index: &index, comments, select, passes: &passes },
            start,
        );
        Script { index, passes, actions }
    }
}

}
