//! The items of an interval: which item of the sample before belongs to an item, and the values
//! that it shows.
//!
//! Displayed values are computed elsewhere, from the two samples of the interval. They come with
//! the interval; nothing is computed here.

use vstd::prelude::*;

use crate::model::{
    ActivityId, Availability, ComputeIssue, Computed, DecodePlan, ItemSnapshot, text_position,
};
use crate::text::same_text;

verus! {

/// A column of an activity.
#[derive(Debug)]
pub struct ColumnMeta {
    pub public_name: String,
    /// The name of the field in the file; empty where the column is none.
    pub wire_name: String,
}

/// How the items of an activity are arranged.
#[derive(Clone, Copy, PartialEq, Eq, Structural, Debug)]
pub enum ItemShape {
    /// One after the other.
    List,
    /// In rows of `nr2` items.
    Matrix,
}

/// The columns of an activity.
#[derive(Debug)]
pub struct ActivityDef {
    pub id: ActivityId,
    pub shape: ItemShape,
    pub columns: Vec<ColumnMeta>,
}

/// The items of an activity in one record.
#[derive(Debug)]
pub struct ActivitySnapshot {
    pub id: ActivityId,
    pub nr: u32,
    pub nr2: u32,
    pub items: Vec<ItemSnapshot>,
}

/// What was computed of an item, by its columns.
#[derive(Debug)]
pub struct ItemFacts {
    /// The values with what the file lacks filled in.
    pub shown: Vec<Computed>,
    /// The values with nothing filled in.
    pub strict: Vec<Computed>,
    /// Whether the item is room that no device uses.
    pub unused: bool,
    /// Whether the item is a CPU that was off.
    pub offline: bool,
    /// Whether the counters say that the device was registered anew.
    pub replaced: bool,
}

/// What was computed of the ticks of a CPU.
#[derive(Debug)]
pub struct CpuFacts {
    /// Whether the CPU was off: no tick was counted.
    pub offline: bool,
    /// Whether no tick passed in the interval.
    pub tickless: bool,
    /// The earlier item, with what ran backwards put right.
    pub prev: ItemSnapshot,
}

/// What was computed of a row of items, by its columns. A column has one value for the row or
/// one for each item.
#[derive(Debug)]
pub struct RowFacts {
    pub shown: Vec<Vec<Computed>>,
    pub strict: Vec<Vec<Computed>>,
}

/// One activity of an interval.
#[derive(Debug)]
pub struct ActivitySample {
    pub def: ActivityDef,
    pub plan: DecodePlan,
    pub curr: ActivitySnapshot,
    /// The record before, where it holds the activity.
    pub prev: Option<ActivitySnapshot>,
    /// What was computed of the items, by their positions.
    pub items: Vec<ItemFacts>,
    /// What was computed of the rows, where the items are arranged in rows.
    pub rows: Vec<RowFacts>,
    /// The CPUs that were off, by their positions.
    pub offline: Vec<bool>,
    /// What was computed of the ticks of each CPU, where the activity counts them.
    pub cpus: Vec<CpuFacts>,
    /// An item of zeros.
    pub zero: ItemSnapshot,
}

/// A record compared with an earlier one.
#[derive(Debug)]
pub struct IntervalView {
    /// The position of the record.
    pub rec: usize,
    /// The position of the earlier record.
    pub prev: usize,
    /// The length of the interval in hundredths of a second.
    pub itv_cs: u64,
    pub has_prev: bool,
    pub continuous: bool,
    pub activities: Vec<ActivitySample>,
}

/// How an item may be compared.
#[derive(Clone, Copy, PartialEq, Eq, Structural, Debug)]
pub struct ComputeContext {
    pub itv_cs: u64,
    /// Whether there is an item to compare with.
    pub has_prev: bool,
    pub continuous: bool,
    /// Whether the item stands for all others.
    pub aggregate_item: bool,
}

/// One activity of an interval.
#[derive(Debug)]
pub struct ActivityPair<'a> {
    pub id: ActivityId,
    pub sample: &'a ActivitySample,
    pub itv_cs: u64,
    pub has_prev: bool,
    pub continuous: bool,
}

/// The items of one row.
#[derive(Debug)]
pub struct MatrixRow<'a> {
    pub prev: Vec<Option<&'a ItemSnapshot>>,
    pub curr: Vec<&'a ItemSnapshot>,
    pub facts: Option<&'a RowFacts>,
}

/// An item, or a row of items with the first of them in front.
#[derive(Debug)]
pub struct ItemPair<'a> {
    pub index: usize,
    pub def: &'a ActivityDef,
    pub plan: &'a DecodePlan,
    /// The item that it is compared with.
    pub prev: Option<&'a ItemSnapshot>,
    pub curr: &'a ItemSnapshot,
    pub ctx: ComputeContext,
    pub facts: Option<&'a ItemFacts>,
    pub row: Option<MatrixRow<'a>>,
}

/// The items of one row.
#[verifier::ext_equal]
pub struct RowModel {
    pub prev: Seq<Option<ItemSnapshot>>,
    pub curr: Seq<ItemSnapshot>,
    pub facts: Option<RowFacts>,
}

/// An item, or a row of items.
#[verifier::ext_equal]
pub struct ItemModel {
    pub index: int,
    pub def: ActivityDef,
    pub plan: DecodePlan,
    pub prev: Option<ItemSnapshot>,
    pub curr: ItemSnapshot,
    pub ctx: ComputeContext,
    pub facts: Option<ItemFacts>,
    pub row: Option<RowModel>,
}

/// What a reference refers to.
pub open spec fn owned<T>(r: Option<&T>) -> Option<T> {
    match r {
        Some(x) => Some(*x),
        None => None,
    }
}

impl<'a> MatrixRow<'a> {
    pub open spec fn model(self) -> RowModel {
        RowModel {
            prev: Seq::new(self.prev@.len(), |i: int| owned(self.prev@[i])),
            curr: Seq::new(self.curr@.len(), |i: int| *self.curr@[i]),
            facts: owned(self.facts),
        }
    }
}

/// Where a list first holds an item with the key `key`.
pub open spec fn key_position(items: Seq<ItemSnapshot>, key: Seq<char>, n: int) -> Option<int>
    decreases n,
{
    if n <= 0 {
        None
    } else {
        match key_position(items, key, n - 1) {
            Some(i) => Some(i),
            None => if items[n - 1].key matches Some(k) && k@ == key {
                Some(n - 1)
            } else {
                None
            },
        }
    }
}

fn find_key<'a>(items: &'a Vec<ItemSnapshot>, key: &str) -> (r: Option<&'a ItemSnapshot>)
    ensures
        match r {
            Some(x) => key_position(items@, key@, items@.len() as int) matches Some(i)
                && items@[i] == *x && 0 <= i < items@.len(),
            None => key_position(items@, key@, items@.len() as int) is None,
        },
{
    let mut found: Option<usize> = None;
    let mut i: usize = 0;
    while i < items.len()
        invariant
            i <= items.len(),
            match found {
                Some(k) => key_position(items@, key@, i as int) == Some(k as int) && k
                    < items@.len(),
                None => key_position(items@, key@, i as int) is None,
            },
        decreases items.len() - i,
    {
        if found.is_none() {
            match &items[i].key {
                Some(k) => if same_text(k.as_str(), key) {
                    found = Some(i);
                },
                None => {},
            }
        }
        i = i + 1;
    }
    match found {
        Some(k) => Some(&items[k]),
        None => None,
    }
}

/// The item of the earlier record that belongs to the item `curr` at `index`: the one of the
/// same key, or the one at the same position where the item has no key.
pub open spec fn partner(prev: Option<ActivitySnapshot>, curr: ItemSnapshot, index: int) -> Option<
    ItemSnapshot,
> {
    match prev {
        None => None,
        Some(p) => match curr.key {
            Some(key) => match key_position(p.items@, key@, p.items@.len() as int) {
                Some(i) => Some(p.items@[i]),
                None => None,
            },
            None => if 0 <= index < p.items@.len() {
                Some(p.items@[index])
            } else {
                None
            },
        },
    }
}

proof fn lemma_key_position(items: Seq<ItemSnapshot>, key: Seq<char>, n: int)
    requires
        0 <= n <= items.len(),
    ensures
        key_position(items, key, n) matches Some(i) ==> 0 <= i < n && (items[i].key matches Some(k)
            && k@ == key),
    decreases n,
{
    if n > 0 {
        lemma_key_position(items, key, n - 1);
    }
}

/// An item with a key is compared with an item of the same key only, wherever that stands in
/// the earlier record.
pub proof fn law_partner_has_the_same_key(
    prev: Option<ActivitySnapshot>,
    curr: ItemSnapshot,
    index: int,
)
    requires
        curr.key is Some,
        partner(prev, curr, index) is Some,
    ensures
        partner(prev, curr, index)->0.key matches Some(k) && k@ == curr.key->0@,
{
    let p = prev->0;
    lemma_key_position(p.items@, curr.key->0@, p.items@.len() as int);
}

fn find_partner<'a>(
    prev: &'a Option<ActivitySnapshot>,
    curr: &ItemSnapshot,
    index: usize,
) -> (r: Option<&'a ItemSnapshot>)
    ensures
        owned(r) == partner(*prev, *curr, index as int),
{
    match prev {
        None => None,
        Some(p) => match &curr.key {
            Some(key) => find_key(&p.items, key.as_str()),
            None => if index < p.items.len() {
                Some(&p.items[index])
            } else {
                None
            },
        },
    }
}

/// Where an activity is in an interval.
pub open spec fn sample_position(list: Seq<ActivitySample>, id: ActivityId, n: int) -> Option<int>
    decreases n,
{
    if n <= 0 {
        None
    } else {
        match sample_position(list, id, n - 1) {
            Some(i) => Some(i),
            None => if list[n - 1].curr.id == id {
                Some(n - 1)
            } else {
                None
            },
        }
    }
}

/// Where an activity is in an interval.
pub fn find_sample(list: &Vec<ActivitySample>, id: ActivityId) -> (r: Option<usize>)
    ensures
        match r {
            Some(i) => sample_position(list@, id, list@.len() as int) == Some(i as int) && i
                < list@.len(),
            None => sample_position(list@, id, list@.len() as int) is None,
        },
{
    let mut found: Option<usize> = None;
    let mut i: usize = 0;
    while i < list.len()
        invariant
            i <= list.len(),
            match found {
                Some(k) => sample_position(list@, id, i as int) == Some(k as int) && k < list@.len(),
                None => sample_position(list@, id, i as int) is None,
            },
        decreases list.len() - i,
    {
        if found.is_none() && list[i].curr.id == id {
            found = Some(i);
        }
        i = i + 1;
    }
    found
}

/// One activity of an interval, where the interval holds it.
pub open spec fn pair_in(view: IntervalView, id: ActivityId) -> Option<ActivityPair<'static>> {
    match sample_position(view.activities@, id, view.activities@.len() as int) {
        Some(i) => Some(
            ActivityPair {
                id,
                sample: &view.activities@[i],
                itv_cs: view.itv_cs,
                has_prev: view.has_prev,
                continuous: view.continuous,
            },
        ),
        None => None,
    }
}

/// Where the item in column `col` of row `row` is stored.
pub open spec fn cell_position(row: int, nr2: int, col: int) -> int {
    row * nr2 + col
}

/// Where the item in column `col` of row `row` is stored, where that is before `len`.
fn cell_before(row: usize, nr2: u32, col: usize, len: usize) -> (r: Option<usize>)
    ensures
        match r {
            Some(p) => p == cell_position(row as int, nr2 as int, col as int) && p < len,
            None => cell_position(row as int, nr2 as int, col as int) >= len,
        },
{
    assert(0 <= row * nr2 <= 0xffff_ffff_ffff_ffff * 0xffff_ffff) by (nonlinear_arith)
        requires
            0 <= row <= 0xffff_ffff_ffff_ffff,
            0 <= nr2 <= 0xffff_ffff,
    ;
    let p: u128 = row as u128 * nr2 as u128 + col as u128;
    if p < len as u128 {
        Some(p as usize)
    } else {
        None
    }
}

/// The second dimension of the items, at least 1.
pub open spec fn columns_of(nr2: u32) -> u32 {
    if nr2 == 0 {
        1
    } else {
        nr2
    }
}

impl<'a> ActivityPair<'a> {
    /// One activity of an interval, where the interval holds it.
    pub fn from_view(view: &'a IntervalView, id: ActivityId) -> (r: Option<Self>)
        ensures
            r == pair_in(*view, id),
    {
        match find_sample(&view.activities, id) {
            Some(i) => Some(
                ActivityPair {
                    id,
                    sample: &view.activities[i],
                    itv_cs: view.itv_cs,
                    has_prev: view.has_prev,
                    continuous: view.continuous,
                },
            ),
            None => None,
        }
    }

    /// The items of the record.
    pub open spec fn items_now(self) -> Seq<ItemSnapshot> {
        self.sample.curr.items@
    }

    /// The second dimension of the items, at least 1.
    pub open spec fn width(self) -> u32 {
        columns_of(self.sample.curr.nr2)
    }

    /// The second dimension of the items, at least 1.
    pub fn item_columns(&self) -> (r: u32)
        ensures
            r == self.width(),
            r >= 1,
    {
        if self.sample.curr.nr2 == 0 {
            1
        } else {
            self.sample.curr.nr2
        }
    }

    /// The number of items.
    pub fn len(&self) -> (r: usize)
        ensures
            r == self.items_now().len(),
    {
        self.sample.curr.items.len()
    }

    /// Whether the activity has no items.
    pub fn is_empty(&self) -> (r: bool)
        ensures
            r == (self.items_now().len() == 0),
    {
        self.sample.curr.items.len() == 0
    }

    /// Whether the item at `index`, shown under `label_index`, stands for all others. In a
    /// matrix of interrupts that is the first row; in another matrix the first column.
    pub open spec fn aggregates(self, index: int, label_index: int) -> bool {
        if self.sample.def.shape == ItemShape::Matrix {
            if self.id == ActivityId::IRQ {
                index < self.width()
            } else {
                index % self.width() as int == 0
            }
        } else {
            label_index == 0
        }
    }

    fn is_aggregate_slot(&self, index: usize, label_index: usize) -> (r: bool)
        ensures
            r == self.aggregates(index as int, label_index as int),
    {
        let nr2: u32 = self.item_columns();
        match self.sample.def.shape {
            ItemShape::Matrix => if self.id == ActivityId::IRQ {
                (index as u64) < nr2 as u64
            } else {
                index as u64 % nr2 as u64 == 0
            },
            ItemShape::List => label_index == 0,
        }
    }

    /// How the item at `index` may be compared. Without a partner there is nothing to compare
    /// it with.
    pub open spec fn context(self, index: int, label_index: int) -> ComputeContext {
        let matched = partner(self.sample.prev, self.items_now()[index], index) is Some;
        ComputeContext {
            itv_cs: self.itv_cs,
            has_prev: self.has_prev && matched,
            continuous: self.continuous && matched,
            aggregate_item: self.aggregates(index, label_index),
        }
    }

    fn slot_context(&self, index: usize, label_index: usize, matched: bool) -> (r: ComputeContext)
        requires
            index < self.items_now().len(),
            matched == (partner(
                self.sample.prev,
                self.items_now()[index as int],
                index as int,
            ) is Some),
        ensures
            r == self.context(index as int, label_index as int),
    {
        ComputeContext {
            itv_cs: self.itv_cs,
            has_prev: self.has_prev && matched,
            continuous: self.continuous && matched,
            aggregate_item: self.is_aggregate_slot(index, label_index),
        }
    }

    /// What was computed of the item at `index`.
    pub open spec fn facts_at(self, index: int) -> Option<ItemFacts> {
        if 0 <= index < self.sample.items@.len() {
            Some(self.sample.items@[index])
        } else {
            None
        }
    }

    fn item_facts(&self, index: usize) -> (r: Option<&'a ItemFacts>)
        ensures
            owned(r) == self.facts_at(index as int),
    {
        if index < self.sample.items.len() {
            Some(&self.sample.items[index])
        } else {
            None
        }
    }

    /// The item at `index`, shown under `label_index`.
    pub open spec fn item_at(self, index: int, label_index: int) -> Option<ItemModel> {
        if 0 <= index < self.items_now().len() {
            Some(
                ItemModel {
                    index: label_index,
                    def: self.sample.def,
                    plan: self.sample.plan,
                    prev: partner(self.sample.prev, self.items_now()[index], index),
                    curr: self.items_now()[index],
                    ctx: self.context(index, label_index),
                    facts: self.facts_at(index),
                    row: None,
                },
            )
        } else {
            None
        }
    }

    /// The item at `index`.
    pub fn item(&self, index: usize) -> (r: Option<ItemPair<'a>>)
        ensures
            item_model(r) == self.item_at(index as int, index as int),
    {
        self.item_indexed(index, index)
    }

    /// The item at `index`, shown under `label_index`.
    pub fn item_indexed(&self, index: usize, label_index: usize) -> (r: Option<ItemPair<'a>>)
        ensures
            item_model(r) == self.item_at(index as int, label_index as int),
    {
        if index >= self.sample.curr.items.len() {
            return None;
        }
        let curr = &self.sample.curr.items[index];
        let prev = find_partner(&self.sample.prev, curr, index);
        let matched = prev.is_some();
        Some(
            ItemPair {
                index: label_index,
                def: &self.sample.def,
                plan: &self.sample.plan,
                prev,
                curr,
                ctx: self.slot_context(index, label_index, matched),
                facts: self.item_facts(index),
                row: None,
            },
        )
    }

    /// Whether the interrupts of the file are a matrix of CPUs and interrupts. It is shown with
    /// its rows and columns exchanged. Older files hold one number for each interrupt.
    pub open spec fn transposed(self) -> bool {
        self.id == ActivityId::IRQ && (self.sample.curr.nr2 > 1
            || self.sample.plan.names_interrupts())
    }

    /// Whether the interrupts of the file are a matrix of CPUs and interrupts.
    pub fn irq_is_transposed(&self) -> (r: bool)
        ensures
            r == self.transposed(),
    {
        self.id == ActivityId::IRQ && (self.sample.curr.nr2 > 1 || self.sample.plan.has_irq_names())
    }

    /// The number of rows that are shown.
    pub open spec fn row_count(self) -> int {
        if self.sample.def.shape != ItemShape::Matrix {
            self.items_now().len() as int
        } else if self.transposed() {
            self.sample.curr.nr2 as int
        } else {
            self.sample.curr.nr as int
        }
    }

    /// Where the item `slot` of the row `row` is stored.
    pub open spec fn slot_position(self, row: int, slot: int) -> int {
        if self.transposed() {
            cell_position(slot, self.width() as int, row)
        } else {
            cell_position(row, self.width() as int, slot)
        }
    }

    /// The number of items that a row has room for.
    pub open spec fn row_room(self) -> int {
        if self.transposed() {
            self.sample.curr.nr as int
        } else {
            self.width() as int
        }
    }

    /// The number of items of a row: those before the first that the record does not hold.
    pub open spec fn row_size(self, row: int, room: int) -> int
        decreases room,
    {
        if room <= 0 {
            0
        } else {
            let before = self.row_size(row, room - 1);
            if before == room - 1 && self.slot_position(row, room - 1) < self.items_now().len() {
                room
            } else {
                before
            }
        }
    }

    /// The items of a row.
    pub open spec fn row_items(self, row: int) -> RowModel {
        let n = self.row_size(row, self.row_room());
        RowModel {
            prev: Seq::new(
                n as nat,
                |k: int|
                    partner(
                        self.sample.prev,
                        self.items_now()[self.slot_position(row, k)],
                        self.slot_position(row, k),
                    ),
            ),
            curr: Seq::new(n as nat, |k: int| self.items_now()[self.slot_position(row, k)]),
            facts: if 0 <= row < self.sample.rows@.len() {
                Some(self.sample.rows@[row])
            } else {
                None
            },
        }
    }

    /// What is shown as one item: a row of a matrix, else an item.
    pub open spec fn row_at(self, row: int) -> Option<ItemModel> {
        if self.sample.def.shape != ItemShape::Matrix {
            self.item_at(row, row)
        } else if self.row_size(row, self.row_room()) == 0 {
            None
        } else {
            let head = self.item_at(self.slot_position(row, 0), row)->0;
            Some(ItemModel { row: Some(self.row_items(row)), ..head })
        }
    }

    fn slot_before(&self, row: usize, slot: usize) -> (r: Option<usize>)
        ensures
            match r {
                Some(p) => p == self.slot_position(row as int, slot as int) && p
                    < self.items_now().len(),
                None => self.slot_position(row as int, slot as int) >= self.items_now().len(),
            },
    {
        let nr2: u32 = self.item_columns();
        if self.irq_is_transposed() {
            cell_before(slot, nr2, row, self.sample.curr.items.len())
        } else {
            cell_before(row, nr2, slot, self.sample.curr.items.len())
        }
    }
}

/// What an item holds.
pub open spec fn item_model(r: Option<ItemPair<'_>>) -> Option<ItemModel> {
    match r {
        Some(x) => Some(x.model()),
        None => None,
    }
}

impl<'a> ItemPair<'a> {
    pub open spec fn model(self) -> ItemModel {
        ItemModel {
            index: self.index as int,
            def: *self.def,
            plan: *self.plan,
            prev: owned(self.prev),
            curr: *self.curr,
            ctx: self.ctx,
            facts: owned(self.facts),
            row: match self.row {
                Some(row) => Some(row.model()),
                None => None,
            },
        }
    }
}

/// What a list of items holds.
pub open spec fn item_models(list: Seq<ItemPair<'_>>) -> Seq<ItemModel> {
    Seq::new(list.len(), |i: int| list[i].model())
}

/// A list with an item appended where there is one.
pub open spec fn with_item(list: Seq<ItemModel>, item: Option<ItemModel>) -> Seq<ItemModel> {
    match item {
        Some(x) => list.push(x),
        None => list,
    }
}

proof fn lemma_row_ends(pair: ActivityPair<'_>, row: int, a: int, b: int)
    requires
        0 <= a <= b,
        pair.row_size(row, a) < a,
    ensures
        pair.row_size(row, b) == pair.row_size(row, a),
    decreases b - a,
{
    if a < b {
        lemma_row_ends(pair, row, a, b - 1);
    }
}

impl<'a> ActivityPair<'a> {
    /// The first items, one after the other.
    pub open spec fn items_upto(self, n: int) -> Seq<ItemModel>
        decreases n,
    {
        if n <= 0 {
            Seq::empty()
        } else {
            with_item(self.items_upto(n - 1), self.item_at(n - 1, n - 1))
        }
    }

    /// All items.
    pub fn items(&self) -> (r: Vec<ItemPair<'a>>)
        ensures
            item_models(r@) == self.items_upto(self.items_now().len() as int),
    {
        let mut out: Vec<ItemPair<'a>> = Vec::new();
        let mut i: usize = 0;
        assert(item_models(out@) =~= self.items_upto(0));
        while i < self.sample.curr.items.len()
            invariant
                i <= self.sample.curr.items@.len(),
                item_models(out@) == self.items_upto(i as int),
            decreases self.sample.curr.items.len() - i,
        {
            let ghost before = out@;
            match self.item(i) {
                Some(x) => {
                    out.push(x);
                    assert(item_models(out@) =~= item_models(before).push(x.model()));
                },
                None => {},
            }
            i = i + 1;
        }
        out
    }

    /// What is shown as one item: a row of a matrix, else an item.
    pub fn matrix_row(&self, row: usize) -> (r: Option<ItemPair<'a>>)
        ensures
            item_model(r) == self.row_at(row as int),
    {
        match self.sample.def.shape {
            ItemShape::List => {
                return self.item(row);
            },
            ItemShape::Matrix => {},
        }
        let room: usize = if self.irq_is_transposed() {
            self.sample.curr.nr as usize
        } else {
            self.item_columns() as usize
        };
        let mut prev: Vec<Option<&'a ItemSnapshot>> = Vec::new();
        let mut curr: Vec<&'a ItemSnapshot> = Vec::new();
        let mut slot: usize = 0;
        let mut ended = false;
        while slot < room && !ended
            invariant
                room == self.row_room(),
                slot <= room,
                prev@.len() == curr@.len(),
                prev@.len() == self.row_size(row as int, slot as int),
                ended ==> self.row_size(row as int, slot as int) < slot,
                !ended ==> self.row_size(row as int, slot as int) == slot,
                forall|k: int|
                    0 <= k < prev@.len() ==> self.slot_position(row as int, k)
                        < self.items_now().len() && owned(#[trigger] prev@[k]) == partner(
                        self.sample.prev,
                        self.items_now()[self.slot_position(row as int, k)],
                        self.slot_position(row as int, k),
                    ),
                forall|k: int|
                    0 <= k < curr@.len() ==> *(#[trigger] curr@[k])
                        == self.items_now()[self.slot_position(row as int, k)],
            decreases room - slot, if ended { 0int } else { 1int },
        {
            match self.slot_before(row, slot) {
                Some(p) => {
                    let c = &self.sample.curr.items[p];
                    prev.push(find_partner(&self.sample.prev, c, p));
                    curr.push(c);
                },
                None => {
                    ended = true;
                },
            }
            slot = slot + 1;
        }
        proof {
            if ended {
                lemma_row_ends(*self, row as int, slot as int, room as int);
            }
        }
        if curr.len() == 0 {
            return None;
        }
        assert(owned(prev@[0]) == partner(
            self.sample.prev,
            self.items_now()[self.slot_position(row as int, 0)],
            self.slot_position(row as int, 0),
        ));
        let p: usize = match self.slot_before(row, 0) {
            Some(p) => p,
            None => {
                return None;
            },
        };
        let facts = if row < self.sample.rows.len() {
            Some(&self.sample.rows[row])
        } else {
            None
        };
        match self.item_indexed(p, row) {
            Some(head) => {
                let m = MatrixRow { prev, curr, facts };
                assert(m.model() =~= self.row_items(row as int));
                Some(
                    ItemPair {
                        index: head.index,
                        def: head.def,
                        plan: head.plan,
                        prev: head.prev,
                        curr: head.curr,
                        ctx: head.ctx,
                        facts: head.facts,
                        row: Some(m),
                    },
                )
            },
            None => None,
        }
    }

    /// The item stored in column `col` of row `row`.
    pub fn cell(&self, row: usize, col: usize) -> (r: Option<ItemPair<'a>>)
        ensures
            ({
                let p = cell_position(row as int, self.width() as int, col as int);
                item_model(r) == self.item_at(p, p)
            }),
    {
        match cell_before(row, self.item_columns(), col, self.sample.curr.items.len()) {
            Some(p) => self.item(p),
            None => None,
        }
    }

    /// The item of a matrix in column `col` of row `row`.
    pub open spec fn cell_at(self, row: int, col: int) -> Option<ItemModel> {
        if self.sample.def.shape == ItemShape::Matrix {
            let p = cell_position(row, self.width() as int, col);
            self.item_at(p, p)
        } else {
            None
        }
    }

    /// The item of a matrix in column `col` of row `row`.
    pub fn matrix_item(&self, row: usize, col: usize) -> (r: Option<ItemPair<'a>>)
        ensures
            item_model(r) == self.cell_at(row as int, col as int),
    {
        match self.sample.def.shape {
            ItemShape::List => None,
            ItemShape::Matrix => self.cell(row, col),
        }
    }

    fn output_row_count(&self) -> (r: usize)
        ensures
            r == self.row_count(),
    {
        match self.sample.def.shape {
            ItemShape::List => self.sample.curr.items.len(),
            ItemShape::Matrix => if self.irq_is_transposed() {
                self.sample.curr.nr2 as usize
            } else {
                self.sample.curr.nr as usize
            },
        }
    }

    /// What is shown of the first `n` rows.
    pub open spec fn rows_upto(self, n: int) -> Seq<ItemModel>
        decreases n,
    {
        if n <= 0 {
            Seq::empty()
        } else {
            with_item(self.rows_upto(n - 1), self.row_at(n - 1))
        }
    }

    /// All that is shown as an item.
    pub fn output_items(&self) -> (r: Vec<ItemPair<'a>>)
        ensures
            item_models(r@) == self.rows_upto(self.row_count()),
    {
        let n: usize = self.output_row_count();
        let mut out: Vec<ItemPair<'a>> = Vec::new();
        let mut i: usize = 0;
        assert(item_models(out@) =~= self.rows_upto(0));
        while i < n
            invariant
                i <= n,
                item_models(out@) == self.rows_upto(i as int),
            decreases n - i,
        {
            let ghost before = out@;
            match self.matrix_row(i) {
                Some(x) => {
                    out.push(x);
                    assert(item_models(out@) =~= item_models(before).push(x.model()));
                },
                None => {},
            }
            i = i + 1;
        }
        out
    }

    /// All that is shown as an item, without room that no device uses.
    pub fn compat_items(&self) -> (r: Vec<ItemPair<'a>>)
        ensures
            item_models(r@) == used_only(self.rows_upto(self.row_count())),
    {
        let mut rest = self.output_items();
        let mut out: Vec<ItemPair<'a>> = Vec::new();
        let ghost all = item_models(rest@);
        assert(item_models(out@) =~= used_only(all.take(0)));
        let n: usize = rest.len();
        let mut i: usize = 0;
        assert(item_models(rest@) =~= all.skip(0));
        while i < n
            invariant
                i <= n,
                n == all.len(),
                rest@.len() == n - i,
                item_models(rest@) == all.skip(i as int),
                item_models(out@) == used_only(all.take(i as int)),
            decreases n - i,
        {
            let ghost before = out@;
            let ghost here = rest@;
            let x = rest.remove(0);
            proof {
                assert(item_models(here)[0] == x.model());
                assert(all.skip(i as int)[0] == all[i as int]);
                assert forall|k: int| 0 <= k < rest@.len() implies #[trigger] item_models(rest@)[k]
                    == all.skip(i + 1)[k] by {
                    assert(rest@[k] == here[k + 1]);
                    assert(item_models(here)[k + 1] == all.skip(i as int)[k + 1]);
                }
                assert(item_models(rest@) =~= all.skip(i + 1));
                assert(all.take(i + 1).drop_last() =~= all.take(i as int));
                assert(all.take(i + 1).last() == all[i as int]);
            }
            if !x.is_unused() {
                out.push(x);
                assert(item_models(out@) =~= item_models(before).push(x.model()));
            }
            i = i + 1;
        }
        assert(all.take(n as int) =~= all);
        out
    }
}

/// The items that are not room that no device uses.
pub open spec fn used_only(list: Seq<ItemModel>) -> Seq<ItemModel>
    decreases list.len(),
{
    if list.len() == 0 {
        Seq::empty()
    } else if list.last().unused() {
        used_only(list.drop_last())
    } else {
        used_only(list.drop_last()).push(list.last())
    }
}

/// A value of a list; missing where the list does not reach.
pub open spec fn value_at(values: Seq<Computed>, i: int) -> Computed {
    if 0 <= i < values.len() {
        values[i]
    } else {
        Err(ComputeIssue::UnsupportedBySource)
    }
}

/// The first of the values of a row.
pub open spec fn first_of(values: Seq<Computed>) -> Computed {
    if values.len() > 0 {
        values[0]
    } else {
        Err(ComputeIssue::NeedsItemGroup)
    }
}

fn first_value(values: &Vec<Computed>) -> (r: Computed)
    ensures
        r == first_of(values@),
{
    if values.len() > 0 {
        values[0]
    } else {
        Err(ComputeIssue::NeedsItemGroup)
    }
}

fn copied(values: &Vec<Computed>) -> (r: Vec<Computed>)
    ensures
        r@ == values@,
{
    let mut out: Vec<Computed> = Vec::new();
    let mut i: usize = 0;
    while i < values.len()
        invariant
            i <= values.len(),
            out@ == values@.take(i as int),
        decreases values.len() - i,
    {
        out.push(values[i]);
        i = i + 1;
        assert(out@ =~= values@.take(i as int));
    }
    assert(values@.take(values@.len() as int) =~= values@);
    out
}

/// The values of a column of a row; none where the row has no such column.
pub open spec fn row_column(values: Seq<Vec<Computed>>, column: int) -> Seq<Computed> {
    if 0 <= column < values.len() {
        values[column]@
    } else {
        Seq::empty()
    }
}

fn copied_column(values: &Vec<Vec<Computed>>, column: usize) -> (r: Vec<Computed>)
    ensures
        r@ == row_column(values@, column as int),
{
    if column < values.len() {
        copied(&values[column])
    } else {
        Vec::new()
    }
}

/// Where a list of columns first holds the name `name`.
pub open spec fn column_position(columns: Seq<ColumnMeta>, name: Seq<char>, n: int) -> Option<int>
    decreases n,
{
    if n <= 0 {
        None
    } else {
        match column_position(columns, name, n - 1) {
            Some(i) => Some(i),
            None => if columns[n - 1].public_name@ == name {
                Some(n - 1)
            } else {
                None
            },
        }
    }
}

/// The sum of values, as unsigned numbers of 64 bits; what is missing of the first value that
/// is not there.
pub open spec fn sum_of(values: Seq<Availability>) -> Availability
    decreases values.len(),
{
    if values.len() == 0 {
        Availability::Present(0)
    } else {
        match (sum_of(values.drop_last()), values.last()) {
            (Availability::Present(x), Availability::Present(y)) => Availability::Present(
                ((x + y) % 0x1_0000_0000_0000_0000) as u64,
            ),
            (Availability::Present(_), other) => other,
            (other, _) => other,
        }
    }
}

/// The difference of two values, as unsigned numbers of 64 bits; what is missing where one is
/// not there, the second first.
pub open spec fn difference_of(x: Availability, y: Availability) -> Availability {
    match (x, y) {
        (Availability::Present(a), Availability::Present(b)) => Availability::Present(
            ((a - b) % 0x1_0000_0000_0000_0000) as u64,
        ),
        (Availability::Present(_), other) => other,
        (other, _) => other,
    }
}

impl ItemModel {
    /// Whether the item is room that no device uses.
    pub open spec fn unused(self) -> bool {
        self.facts matches Some(f) && f.unused
    }

    /// Whether the item is a CPU that was off.
    pub open spec fn offline(self) -> bool {
        self.facts matches Some(f) && f.offline
    }

    /// The key of the item.
    pub open spec fn key(self) -> Option<Seq<char>> {
        match self.curr.key {
            Some(k) => Some(k@),
            None => None,
        }
    }

    /// The column of this name.
    pub open spec fn column_index(self, name: Seq<char>) -> Option<int> {
        column_position(self.def.columns@, name, self.def.columns@.len() as int)
    }

    /// The displayed values of a column: one, or those of the row.
    pub open spec fn row_values(self, column: int) -> Seq<Computed> {
        match self.row {
            Some(row) => match row.facts {
                Some(f) => row_column(f.shown@, column),
                None => Seq::empty(),
            },
            None => seq![self.single_value(column)],
        }
    }

    /// The displayed value of a column of an item that is no row.
    pub open spec fn single_value(self, column: int) -> Computed {
        match self.facts {
            Some(f) => if column < self.def.columns@.len() {
                value_at(f.shown@, column)
            } else {
                Err(ComputeIssue::UnsupportedBySource)
            },
            None => Err(ComputeIssue::UnsupportedBySource),
        }
    }

    /// The displayed value of a column. A row shows its first value.
    pub open spec fn computed(self, column: int) -> Computed {
        match self.row {
            Some(_) => first_of(self.row_values(column)),
            None => self.single_value(column),
        }
    }

    /// The displayed value of the column of this name.
    pub open spec fn computed_by_name(self, name: Seq<char>) -> Computed {
        match self.column_index(name) {
            Some(i) => self.computed(i),
            None => Err(ComputeIssue::UnsupportedBySource),
        }
    }

    /// The values of a column with nothing filled in.
    pub open spec fn row_values_strict(self, column: int) -> Seq<Computed> {
        match self.row {
            Some(row) => match row.facts {
                Some(f) => row_column(f.strict@, column),
                None => Seq::empty(),
            },
            None => seq![self.single_value_strict(column)],
        }
    }

    /// The value of a column of an item that is no row, with nothing filled in.
    pub open spec fn single_value_strict(self, column: int) -> Computed {
        match self.facts {
            Some(f) => if column < self.def.columns@.len() {
                value_at(f.strict@, column)
            } else {
                Err(ComputeIssue::UnsupportedBySource)
            },
            None => Err(ComputeIssue::UnsupportedBySource),
        }
    }

    /// The value of a column with nothing filled in.
    pub open spec fn computed_strict(self, column: int) -> Computed {
        match self.row {
            Some(_) => first_of(self.row_values_strict(column)),
            None => self.single_value_strict(column),
        }
    }

    /// The value of a column as it was read.
    pub open spec fn raw_curr(self, column: int) -> Availability {
        self.plan.column(self.curr.values@, column)
    }

    /// The value of a column of the item that this one is compared with.
    pub open spec fn raw_prev(self, column: int) -> Availability {
        if self.ctx.has_prev {
            match self.prev {
                Some(p) => self.plan.column(p.values@, column),
                None => Availability::MissingInSample,
            }
        } else {
            Availability::MissingInSample
        }
    }

    /// The value of the column of this name, before or now.
    pub open spec fn raw_by_name(self, name: Seq<char>, previous: bool) -> Availability {
        match self.column_index(name) {
            Some(i) => if previous {
                self.raw_prev(i)
            } else {
                self.raw_curr(i)
            },
            None => Availability::UnsupportedBySource,
        }
    }

    /// The sum of columns, before or now.
    pub open spec fn raw_sum(self, names: Seq<&'static str>, previous: bool) -> Availability {
        sum_of(Seq::new(names.len(), |i: int| self.raw_by_name(names[i]@, previous)))
    }

    /// The difference of two columns, before or now.
    pub open spec fn raw_diff(self, a: Seq<char>, b: Seq<char>, previous: bool) -> Availability {
        difference_of(self.raw_by_name(a, previous), self.raw_by_name(b, previous))
    }

    /// The text of the field `wire` of the file.
    pub open spec fn text_by_wire(self, wire: Seq<char>) -> Option<Seq<char>> {
        if wire.len() == 0 {
            None
        } else {
            match text_position(self.plan.text_fields@, wire) {
                Some(i) => self.curr.text_at(i),
                None => None,
            }
        }
    }

    /// The text of the column of this name.
    pub open spec fn text(self, name: Seq<char>) -> Option<Seq<char>> {
        match self.column_index(name) {
            Some(i) => self.text_by_wire(self.def.columns@[i].wire_name@),
            None => None,
        }
    }

    /// Whether the column of this name is a text in the file.
    pub open spec fn is_text_column(self, name: Seq<char>) -> bool {
        match self.column_index(name) {
            Some(i) => {
                let wire = self.def.columns@[i].wire_name@;
                wire.len() > 0 && text_position(self.plan.text_fields@, wire) is Some
            },
            None => false,
        }
    }
}

impl<'a> ItemPair<'a> {
    /// An item that is no row.
    pub fn single(
        index: usize,
        def: &'a ActivityDef,
        plan: &'a DecodePlan,
        prev: Option<&'a ItemSnapshot>,
        curr: &'a ItemSnapshot,
        ctx: ComputeContext,
        facts: Option<&'a ItemFacts>,
    ) -> (r: Self)
        ensures
            r.model() == (ItemModel {
                index: index as int,
                def: *def,
                plan: *plan,
                prev: owned(prev),
                curr: *curr,
                ctx,
                facts: owned(facts),
                row: None,
            }),
    {
        ItemPair { index, def, plan, prev, curr, ctx, facts, row: None }
    }

    /// Whether the item is room that no device uses.
    pub fn is_unused(&self) -> (r: bool)
        ensures
            r == self.model().unused(),
    {
        match self.facts {
            Some(f) => f.unused,
            None => false,
        }
    }

    /// Whether the item is a CPU that was off.
    pub fn is_offline(&self) -> (r: bool)
        ensures
            r == self.model().offline(),
    {
        match self.facts {
            Some(f) => f.offline,
            None => false,
        }
    }

    /// Whether the counters say that the device was registered anew.
    pub fn is_replaced(&self) -> (r: bool)
        ensures
            r == (self.model().facts matches Some(f) && f.replaced),
    {
        match self.facts {
            Some(f) => f.replaced,
            None => false,
        }
    }

    /// The key of the item.
    pub fn key(&self) -> (r: Option<&'a str>)
        ensures
            match r {
                Some(k) => self.model().key() == Some(k@),
                None => self.model().key() is None,
            },
    {
        match &self.curr.key {
            Some(k) => Some(k.as_str()),
            None => None,
        }
    }

    /// The column of this name.
    pub fn column_index(&self, name: &str) -> (r: Option<usize>)
        ensures
            match r {
                Some(i) => self.model().column_index(name@) == Some(i as int) && i
                    < self.def.columns@.len(),
                None => self.model().column_index(name@) is None,
            },
    {
        let mut found: Option<usize> = None;
        let mut i: usize = 0;
        while i < self.def.columns.len()
            invariant
                i <= self.def.columns@.len(),
                match found {
                    Some(k) => column_position(self.def.columns@, name@, i as int) == Some(
                        k as int,
                    ) && k < self.def.columns@.len(),
                    None => column_position(self.def.columns@, name@, i as int) is None,
                },
            decreases self.def.columns.len() - i,
        {
            if found.is_none() && same_text(self.def.columns[i].public_name.as_str(), name) {
                found = Some(i);
            }
            i = i + 1;
        }
        found
    }

    /// The column at a position.
    pub fn column_meta(&self, column: usize) -> (r: Option<&'a ColumnMeta>)
        ensures
            owned(r) == (if column < self.def.columns@.len() {
                Some(self.def.columns@[column as int])
            } else {
                None
            }),
    {
        if column < self.def.columns.len() {
            Some(&self.def.columns[column])
        } else {
            None
        }
    }

    fn value_of_item(&self, column: usize) -> (r: Computed)
        ensures
            r == self.model().single_value(column as int),
    {
        match self.facts {
            Some(f) => if column < self.def.columns.len() && column < f.shown.len() {
                f.shown[column]
            } else {
                Err(ComputeIssue::UnsupportedBySource)
            },
            None => Err(ComputeIssue::UnsupportedBySource),
        }
    }

    fn strict_value_of_item(&self, column: usize) -> (r: Computed)
        ensures
            r == self.model().single_value_strict(column as int),
    {
        match self.facts {
            Some(f) => if column < self.def.columns.len() && column < f.strict.len() {
                f.strict[column]
            } else {
                Err(ComputeIssue::UnsupportedBySource)
            },
            None => Err(ComputeIssue::UnsupportedBySource),
        }
    }

    /// The displayed value of a column. A row shows its first value.
    pub fn computed(&self, column: usize) -> (r: Computed)
        ensures
            r == self.model().computed(column as int),
    {
        match &self.row {
            Some(_) => first_value(&self.row_values(column)),
            None => self.value_of_item(column),
        }
    }

    /// The displayed values of a column: one, or those of the row.
    pub fn row_values(&self, column: usize) -> (r: Vec<Computed>)
        ensures
            r@ == self.model().row_values(column as int),
    {
        match &self.row {
            Some(row) => match row.facts {
                Some(f) => copied_column(&f.shown, column),
                None => Vec::new(),
            },
            None => {
                let mut out: Vec<Computed> = Vec::new();
                out.push(self.value_of_item(column));
                assert(out@ =~= self.model().row_values(column as int));
                out
            },
        }
    }

    /// The values of a column with nothing filled in.
    pub fn row_values_strict(&self, column: usize) -> (r: Vec<Computed>)
        ensures
            r@ == self.model().row_values_strict(column as int),
    {
        match &self.row {
            Some(row) => match row.facts {
                Some(f) => copied_column(&f.strict, column),
                None => Vec::new(),
            },
            None => {
                let mut out: Vec<Computed> = Vec::new();
                out.push(self.strict_value_of_item(column));
                assert(out@ =~= self.model().row_values_strict(column as int));
                out
            },
        }
    }

    /// The number of items of the row; 1 for an item.
    pub fn row_len(&self) -> (r: usize)
        ensures
            r == (match self.model().row {
                Some(row) => row.curr.len(),
                None => 1,
            }),
    {
        match &self.row {
            Some(row) => row.curr.len(),
            None => 1,
        }
    }

    /// The value of a column with nothing filled in.
    pub fn computed_strict(&self, column: usize) -> (r: Computed)
        ensures
            r == self.model().computed_strict(column as int),
    {
        match &self.row {
            Some(_) => first_value(&self.row_values_strict(column)),
            None => self.strict_value_of_item(column),
        }
    }

    /// The displayed value of the column of this name.
    pub fn computed_by_name(&self, name: &str) -> (r: Computed)
        ensures
            r == self.model().computed_by_name(name@),
    {
        match self.column_index(name) {
            Some(i) => self.computed(i),
            None => Err(ComputeIssue::UnsupportedBySource),
        }
    }

    /// The value of a column as it was read.
    pub fn raw_curr(&self, column: usize) -> (r: Availability)
        ensures
            r == self.model().raw_curr(column as int),
    {
        self.plan.column_value(&self.curr.values, column)
    }

    /// The value of a column of the item that this one is compared with.
    pub fn raw_prev(&self, column: usize) -> (r: Availability)
        ensures
            r == self.model().raw_prev(column as int),
    {
        if !self.ctx.has_prev {
            return Availability::MissingInSample;
        }
        match self.prev {
            Some(p) => self.plan.column_value(&p.values, column),
            None => Availability::MissingInSample,
        }
    }

    /// The value of the column of this name as it was read.
    pub fn raw_curr_by_name(&self, name: &str) -> (r: Availability)
        ensures
            r == self.model().raw_by_name(name@, false),
    {
        match self.column_index(name) {
            Some(i) => self.raw_curr(i),
            None => Availability::UnsupportedBySource,
        }
    }

    /// The value of the column of this name of the item that this one is compared with.
    pub fn raw_prev_by_name(&self, name: &str) -> (r: Availability)
        ensures
            r == self.model().raw_by_name(name@, true),
    {
        match self.column_index(name) {
            Some(i) => self.raw_prev(i),
            None => Availability::UnsupportedBySource,
        }
    }

    /// The sum of columns, before or now. Where a value is missing there is no sum.
    pub fn raw_sum(&self, names: &[&'static str], previous: bool) -> (r: Availability)
        ensures
            r == self.model().raw_sum(names@, previous),
    {
        let ghost values = Seq::new(
            names@.len(),
            |i: int| self.model().raw_by_name(names@[i]@, previous),
        );
        let mut total: Availability = Availability::Present(0);
        let mut i: usize = 0;
        assert(values.take(0) =~= Seq::empty());
        while i < names.len()
            invariant
                i <= names@.len(),
                values == Seq::new(
                    names@.len(),
                    |i: int| self.model().raw_by_name(names@[i]@, previous),
                ),
                total == sum_of(values.take(i as int)),
            decreases names.len() - i,
        {
            proof {
                assert(values.take(i + 1).drop_last() =~= values.take(i as int));
                assert(values.take(i + 1).last() == values[i as int]);
            }
            let v = if previous {
                self.raw_prev_by_name(names[i])
            } else {
                self.raw_curr_by_name(names[i])
            };
            total =
            match (total, v) {
                (Availability::Present(x), Availability::Present(y)) => Availability::Present(
                    ((x as u128 + y as u128) % 0x1_0000_0000_0000_0000) as u64,
                ),
                (Availability::Present(_), other) => other,
                (other, _) => other,
            };
            i = i + 1;
        }
        assert(values.take(names@.len() as int) =~= values);
        total
    }

    /// The difference of two columns, before or now.
    pub fn raw_diff(&self, a: &str, b: &str, previous: bool) -> (r: Availability)
        ensures
            r == self.model().raw_diff(a@, b@, previous),
    {
        let (x, y) = if previous {
            (self.raw_prev_by_name(a), self.raw_prev_by_name(b))
        } else {
            (self.raw_curr_by_name(a), self.raw_curr_by_name(b))
        };
        match (x, y) {
            (Availability::Present(p), Availability::Present(q)) => Availability::Present(
                ((p as u128 + 0x1_0000_0000_0000_0000 - q as u128) % 0x1_0000_0000_0000_0000) as u64,
            ),
            (Availability::Present(_), other) => other,
            (other, _) => other,
        }
    }

    /// The text of the column of this name.
    pub fn text(&self, name: &str) -> (r: Option<&'a str>)
        ensures
            match r {
                Some(t) => self.model().text(name@) == Some(t@),
                None => self.model().text(name@) is None,
            },
    {
        match self.column_index(name) {
            Some(i) => self.text_by_wire(self.def.columns[i].wire_name.as_str()),
            None => None,
        }
    }

    /// The text of the field `wire` of the file.
    pub fn text_by_wire(&self, wire: &str) -> (r: Option<&'a str>)
        ensures
            match r {
                Some(t) => self.model().text_by_wire(wire@) == Some(t@),
                None => self.model().text_by_wire(wire@) is None,
            },
    {
        if wire.is_empty() {
            return None;
        }
        match self.plan.text_index(wire) {
            Some(i) => self.curr.text(i),
            None => None,
        }
    }

    /// Whether the column of this name is a text in the file.
    pub fn is_text_column(&self, name: &str) -> (r: bool)
        ensures
            r == self.model().is_text_column(name@),
    {
        match self.column_index(name) {
            Some(i) => {
                let wire = self.def.columns[i].wire_name.as_str();
                !wire.is_empty() && self.plan.text_index(wire).is_some()
            },
            None => false,
        }
    }
}

}
