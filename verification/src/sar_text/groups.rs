//! The items of a sample in the order of their lines.

use vstd::prelude::*;

use crate::model::{ActivityId, Availability, DecodePlan, ItemSnapshot};
use crate::sar_text::columns::NET_DUPLEX;
use crate::sar_text::layout::Layout;
use crate::sar_text::options::{has_number, holds_number, CpuSelection};
use crate::sar_text::rows::{item_key, key_of, ItemKey, KeyModel};

verus! {

/// Where the item of a line comes from.
#[derive(Clone, Copy, PartialEq, Eq, Structural, Debug)]
pub enum Primary {
    /// The sample.
    Item(usize),
    /// The sum over the CPUs, which takes the place of the first item.
    Aggregate,
}

/// The items that one line stands for.
#[derive(Debug)]
pub struct ItemGroup {
    /// The number of the line. With CPUs, 0 stands for all of them and `n` for CPU `n - 1`.
    pub index: usize,
    pub primary: Primary,
    /// The items that make up the values of the line, where there are several.
    pub slots: Vec<usize>,
}

/// What an [`ItemGroup`] holds.
#[verifier::ext_equal]
pub struct GroupModel {
    pub index: int,
    pub primary: Primary,
    pub slots: Seq<int>,
}

/// The numbers of a list.
pub open spec fn ints(v: Seq<usize>) -> Seq<int> {
    Seq::new(v.len(), |i: int| v[i] as int)
}

impl ItemGroup {
    pub open spec fn model(self) -> GroupModel {
        GroupModel { index: self.index as int, primary: self.primary, slots: ints(self.slots@) }
    }
}

/// What a list of [`ItemGroup`] holds.
pub open spec fn group_models(v: Seq<ItemGroup>) -> Seq<GroupModel> {
    Seq::new(v.len(), |i: int| v[i].model())
}

/// What decides how the items of a sample are grouped.
pub struct Grouping {
    pub layout: Layout,
    pub cpus: CpuSelection,
    /// The number of items.
    pub items: int,
    /// The size of the second dimension, at least 1.
    pub nr2: int,
    /// Whether interrupts have names.
    pub named: bool,
    /// The CPUs that have a column in the interrupt report.
    pub irq_cols: Seq<usize>,
    /// Whether a sum over the CPUs takes the place of the first item.
    pub aggregated: bool,
}

/// The size of the second dimension.
pub open spec fn width_of(nr2: u32) -> int {
    if nr2 == 0 {
        1
    } else {
        nr2 as int
    }
}

fn width(nr2: u32) -> (r: usize)
    ensures
        r == width_of(nr2),
        r >= 1,
{
    if nr2 == 0 {
        1
    } else {
        nr2 as usize
    }
}

/// The lines of the first `n` CPUs.
pub open spec fn cpu_groups(g: Grouping, n: int) -> Seq<GroupModel>
    decreases n,
{
    if n <= 0 {
        Seq::empty()
    } else {
        let i = n - 1;
        let before = cpu_groups(g, i);
        if g.cpus.selects(i) {
            before.push(
                GroupModel {
                    index: i,
                    primary: if i == 0 && g.aggregated {
                        Primary::Aggregate
                    } else {
                        Primary::Item(i as usize)
                    },
                    slots: Seq::empty(),
                },
            )
        } else {
            before
        }
    }
}

/// The items of the interrupt `irq` on those of the first `n` CPUs that have a column.
pub open spec fn irq_slots(g: Grouping, irq: int, n: int) -> Seq<int>
    decreases n,
{
    if n <= 0 {
        Seq::empty()
    } else {
        let before = irq_slots(g, irq, n - 1);
        if has_number(g.irq_cols, n - 1) {
            before.push((n - 1) * g.nr2 + irq)
        } else {
            before
        }
    }
}

/// The lines of the first `n` interrupts.
pub open spec fn irq_groups(g: Grouping, n: int) -> Seq<GroupModel>
    decreases n,
{
    if n <= 0 {
        Seq::empty()
    } else {
        let before = irq_groups(g, n - 1);
        if n - 1 < g.items {
            before.push(
                GroupModel {
                    index: n - 1,
                    primary: Primary::Item((n - 1) as usize),
                    slots: irq_slots(g, n - 1, g.items / g.nr2),
                },
            )
        } else {
            before
        }
    }
}

/// The lines of the frequencies of the first `n` CPUs.
pub open spec fn freq_groups(g: Grouping, n: int) -> Seq<GroupModel>
    decreases n,
{
    if n <= 0 {
        Seq::empty()
    } else {
        let i = n - 1;
        let before = freq_groups(g, i);
        if g.cpus.selects(i) {
            before.push(
                GroupModel {
                    index: i,
                    primary: Primary::Item((i * g.nr2) as usize),
                    slots: Seq::new(g.nr2 as nat, |k: int| i * g.nr2 + k),
                },
            )
        } else {
            before
        }
    }
}

/// The lines of a sample.
pub open spec fn groups_of(g: Grouping) -> Seq<GroupModel> {
    match g.layout {
        Layout::Single => if g.items > 0 {
            seq![GroupModel { index: 0, primary: Primary::Item(0), slots: Seq::empty() }]
        } else {
            Seq::empty()
        },
        Layout::List => Seq::new(
            g.items as nat,
            |i: int| GroupModel { index: i, primary: Primary::Item(i as usize), slots: Seq::empty() },
        ),
        Layout::Cpu => cpu_groups(g, g.items),
        // A generation without a CPU dimension has one item for each interrupt.
        Layout::IrqMatrix => if g.nr2 == 1 && !g.named {
            Seq::new(
                g.items as nat,
                |i: int|
                    GroupModel { index: i, primary: Primary::Item(i as usize), slots: seq![i] },
            )
        } else {
            irq_groups(g, g.nr2)
        },
        Layout::FreqMatrix => freq_groups(g, g.items / g.nr2),
    }
}

fn list_groups(n: usize, with_slot: bool) -> (r: Vec<ItemGroup>)
    ensures
        group_models(r@) == Seq::new(
            n as nat,
            |i: int|
                GroupModel {
                    index: i,
                    primary: Primary::Item(i as usize),
                    slots: if with_slot {
                        seq![i]
                    } else {
                        Seq::empty()
                    },
                },
        ),
{
    let mut out: Vec<ItemGroup> = Vec::new();
    let ghost want = |i: int|
        GroupModel {
            index: i,
            primary: Primary::Item(i as usize),
            slots: if with_slot {
                seq![i]
            } else {
                Seq::empty()
            },
        };
    let mut i: usize = 0;
    while i < n
        invariant
            i <= n,
            out@.len() == i,
            forall|k: int| 0 <= k < i ==> (#[trigger] out@[k]).model() == want(k),
            forall|k: int| #[trigger]
                want(k) == (GroupModel {
                    index: k,
                    primary: Primary::Item(k as usize),
                    slots: if with_slot {
                        seq![k]
                    } else {
                        Seq::empty()
                    },
                }),
        decreases n - i,
    {
        let mut slots: Vec<usize> = Vec::new();
        if with_slot {
            slots.push(i);
        }
        let g = ItemGroup { index: i, primary: Primary::Item(i), slots };
        proof {
            assert(g.model().slots =~= want(i as int).slots);
            assert(g.model() == want(i as int));
        }
        out.push(g);
        i = i + 1;
    }
    assert(group_models(out@) =~= Seq::new(n as nat, want));
    out
}

/// What decides how the items of a sample are grouped.
pub open spec fn grouping(
    layout: Layout,
    cpus: CpuSelection,
    items: int,
    nr2: u32,
    named: bool,
    irq_cols: Seq<usize>,
    aggregated: bool,
) -> Grouping {
    Grouping { layout, cpus, items, nr2: width_of(nr2), named, irq_cols, aggregated }
}

fn group_cpus(cpus: &CpuSelection, items: usize, aggregated: bool, g: Ghost<Grouping>) -> (r: Vec<
    ItemGroup,
>)
    requires
        g@.cpus == *cpus,
        g@.items == items,
        g@.aggregated == aggregated,
    ensures
        group_models(r@) == cpu_groups(g@, items as int),
{
    let mut out: Vec<ItemGroup> = Vec::new();
    let mut i: usize = 0;
    assert(group_models(out@) =~= cpu_groups(g@, 0));
    while i < items
        invariant
            i <= items,
            g@.cpus == *cpus,
            g@.aggregated == aggregated,
            group_models(out@) == cpu_groups(g@, i as int),
        decreases items - i,
    {
        let ghost before = group_models(out@);
        if cpus.includes(i) {
            let primary = if i == 0 && aggregated {
                Primary::Aggregate
            } else {
                Primary::Item(i)
            };
            let group = ItemGroup { index: i, primary, slots: Vec::new() };
            assert(group.model().slots =~= Seq::<int>::empty());
            out.push(group);
            assert(group_models(out@) =~= before.push(group.model()));
        }
        i = i + 1;
        assert(group_models(out@) == cpu_groups(g@, i as int));
    }
    out
}

proof fn lemma_slot_in_range(c: int, cpus: int, nr2: int, k: int, items: int)
    requires
        0 <= c < cpus,
        cpus == items / nr2,
        nr2 >= 1,
        0 <= items,
        0 <= k < nr2,
    ensures
        0 <= c * nr2 <= c * nr2 + k < items,
        0 <= (c + 1) * nr2 <= items,
        (c + 1) * nr2 == c * nr2 + nr2,
{
    assert((c + 1) * nr2 == c * nr2 + nr2) by (nonlinear_arith);
    assert(cpus * nr2 <= items) by (nonlinear_arith)
        requires
            cpus == items / nr2,
            nr2 >= 1,
            0 <= items,
    ;
    assert((c + 1) * nr2 <= cpus * nr2) by (nonlinear_arith)
        requires
            c + 1 <= cpus,
            nr2 >= 1,
    ;
    assert(0 <= c * nr2) by (nonlinear_arith)
        requires
            0 <= c,
            nr2 >= 1,
    ;
}

fn group_irqs(irq_cols: &Vec<usize>, items: usize, nr2: usize, g: Ghost<Grouping>) -> (r: Vec<
    ItemGroup,
>)
    requires
        nr2 >= 1,
        g@.nr2 == nr2,
        g@.items == items,
        g@.irq_cols == irq_cols@,
    ensures
        group_models(r@) == irq_groups(g@, nr2 as int),
{
    let cpus: usize = items / nr2;
    let mut out: Vec<ItemGroup> = Vec::new();
    let mut irq: usize = 0;
    assert(group_models(out@) =~= irq_groups(g@, 0));
    while irq < nr2
        invariant
            irq <= nr2,
            nr2 >= 1,
            cpus == items / nr2,
            g@.nr2 == nr2,
            g@.items == items,
            g@.irq_cols == irq_cols@,
            group_models(out@) == irq_groups(g@, irq as int),
        decreases nr2 - irq,
    {
        let ghost before = group_models(out@);
        let mut slots: Vec<usize> = Vec::new();
        let mut c: usize = 0;
        assert(ints(slots@) =~= irq_slots(g@, irq as int, 0));
        while c < cpus
            invariant
                c <= cpus,
                irq < nr2,
                cpus == items / nr2,
                g@.nr2 == nr2,
                g@.items == items,
                g@.irq_cols == irq_cols@,
                ints(slots@) == irq_slots(g@, irq as int, c as int),
            decreases cpus - c,
        {
            let ghost old_slots = ints(slots@);
            if holds_number(irq_cols, c) {
                proof {
                    lemma_slot_in_range(
                        c as int,
                        cpus as int,
                        nr2 as int,
                        irq as int,
                        items as int,
                    );
                }
                slots.push(c * nr2 + irq);
                assert(ints(slots@) =~= old_slots.push(c * nr2 + irq));
            }
            c = c + 1;
            assert(ints(slots@) == irq_slots(g@, irq as int, c as int));
        }
        if irq < items {
            let group = ItemGroup { index: irq, primary: Primary::Item(irq), slots };
            out.push(group);
            assert(group_models(out@) =~= before.push(group.model()));
        }
        irq = irq + 1;
        assert(group_models(out@) == irq_groups(g@, irq as int));
    }
    out
}

fn group_freqs(cpus: &CpuSelection, items: usize, nr2: usize, g: Ghost<Grouping>) -> (r: Vec<
    ItemGroup,
>)
    requires
        nr2 >= 1,
        g@.nr2 == nr2,
        g@.items == items,
        g@.cpus == *cpus,
    ensures
        group_models(r@) == freq_groups(g@, items as int / nr2 as int),
{
    let n: usize = items / nr2;
    let mut out: Vec<ItemGroup> = Vec::new();
    let mut i: usize = 0;
    assert(group_models(out@) =~= freq_groups(g@, 0));
    while i < n
        invariant
            i <= n,
            nr2 >= 1,
            n == items / nr2,
            g@.nr2 == nr2,
            g@.items == items,
            g@.cpus == *cpus,
            group_models(out@) == freq_groups(g@, i as int),
        decreases n - i,
    {
        let ghost before = group_models(out@);
        if cpus.includes(i) {
            proof {
                lemma_slot_in_range(i as int, n as int, nr2 as int, 0, items as int);
            }
            let base: usize = i * nr2;
            let mut slots: Vec<usize> = Vec::new();
            let mut k: usize = 0;
            while k < nr2
                invariant
                    k <= nr2,
                    base == i * nr2,
                    base + nr2 <= items,
                    slots@.len() == k,
                    forall|j: int| 0 <= j < k ==> #[trigger] slots@[j] == base + j,
                decreases nr2 - k,
            {
                slots.push(base + k);
                k = k + 1;
            }
            let group = ItemGroup { index: i, primary: Primary::Item(base), slots };
            assert(group.model().slots =~= Seq::new(nr2 as nat, |k: int| i * nr2 + k));
            out.push(group);
            assert(group_models(out@) =~= before.push(group.model()));
            assert(group_models(out@) =~= freq_groups(g@, i + 1));
        }
        i = i + 1;
        assert(group_models(out@) == freq_groups(g@, i as int));
    }
    out
}

/// The lines of a sample with `items` items.
pub fn iter_groups(
    layout: Layout,
    cpus: &CpuSelection,
    items: usize,
    nr2: u32,
    named: bool,
    irq_cols: &Vec<usize>,
    aggregated: bool,
) -> (r: Vec<ItemGroup>)
    ensures
        group_models(r@) == groups_of(
            grouping(layout, *cpus, items as int, nr2, named, irq_cols@, aggregated),
        ),
{
    let ghost g = grouping(layout, *cpus, items as int, nr2, named, irq_cols@, aggregated);
    let w: usize = width(nr2);
    match layout {
        Layout::Single => {
            let r = list_groups(
                if items > 0 {
                    1
                } else {
                    0
                },
                false,
            );
            assert(group_models(r@) =~= groups_of(g));
            r
        },
        Layout::List => {
            let r = list_groups(items, false);
            assert(group_models(r@) =~= groups_of(g));
            r
        },
        Layout::Cpu => group_cpus(cpus, items, aggregated, Ghost(g)),
        Layout::IrqMatrix => if w == 1 && !named {
            let r = list_groups(items, true);
            assert(group_models(r@) =~= groups_of(g));
            r
        } else {
            group_irqs(irq_cols, items, w, Ghost(g))
        },
        Layout::FreqMatrix => group_freqs(cpus, items, w, Ghost(g)),
    }
}

/// Those of the first `n` CPUs that are selected.
pub open spec fn selected_cpus(cpus: CpuSelection, n: int) -> Seq<int>
    decreases n,
{
    if n <= 0 {
        Seq::empty()
    } else if cpus.selects(n - 1) {
        selected_cpus(cpus, n - 1).push(n - 1)
    } else {
        selected_cpus(cpus, n - 1)
    }
}

/// The columns of the interrupt report: the selected CPUs, or the total alone where there is
/// no CPU dimension.
pub open spec fn irq_column_list(cpus: CpuSelection, items: int, nr2: u32, named: bool) -> Seq<
    int,
> {
    if width_of(nr2) == 1 && !named {
        selected_cpus(cpus, 1)
    } else {
        selected_cpus(cpus, items / width_of(nr2))
    }
}

/// The columns of the interrupt report.
pub fn irq_columns(cpus: &CpuSelection, items: usize, nr2: u32, named: bool) -> (r: Vec<usize>)
    ensures
        ints(r@) == irq_column_list(*cpus, items as int, nr2, named),
{
    let w: usize = width(nr2);
    let n: usize = if w == 1 && !named {
        1
    } else {
        items / w
    };
    let mut out: Vec<usize> = Vec::new();
    let mut c: usize = 0;
    assert(ints(out@) =~= selected_cpus(*cpus, 0));
    while c < n
        invariant
            c <= n,
            ints(out@) == selected_cpus(*cpus, c as int),
        decreases n - c,
    {
        let ghost before = ints(out@);
        if cpus.includes(c) {
            out.push(c);
            assert(ints(out@) =~= before.push(c as int));
        }
        c = c + 1;
        assert(ints(out@) == selected_cpus(*cpus, c as int));
    }
    out
}

/// A sample of one activity.
pub struct SampleItems<'a> {
    pub plan: &'a DecodePlan,
    pub items: &'a Vec<ItemSnapshot>,
    pub nr2: u32,
    /// The sum over the CPUs, where it takes the place of the first item: in the report on CPUs,
    /// where it is computed with the CPUs that are off in mind, and where
    /// [`recomputes_aggregate`] holds.
    pub aggregate: Option<&'a ItemSnapshot>,
}

/// Whether the first item of an activity is made anew as the plain sum of the others.
#[verifier::allow_in_spec]
pub fn recomputes_aggregate(id: ActivityId) -> (r: bool)
    returns
        id == ActivityId::NET_SOFT,
{
    id == ActivityId::NET_SOFT
}

impl<'a> SampleItems<'a> {
    /// Whether the sample is one of an activity: the sum over the CPUs is there where the first
    /// item is made anew from others, and the first item is replaced in no report but those.
    pub open spec fn suits(self, id: ActivityId) -> bool {
        &&& recomputes_aggregate(id) && self.items@.len() > 1 ==> self.aggregate is Some
        &&& self.aggregate is Some ==> id == ActivityId::CPU || recomputes_aggregate(id)
    }

    /// Whether the sample is one of an activity.
    pub fn is_for(&self, id: ActivityId) -> (r: bool)
        ensures
            r == self.suits(id),
    {
        if self.aggregate.is_some() {
            id == ActivityId::CPU || recomputes_aggregate(id)
        } else {
            !recomputes_aggregate(id) || self.items.len() <= 1
        }
    }

    /// Whether the items of a group are there.
    pub open spec fn holds(self, g: GroupModel) -> bool {
        match g.primary {
            Primary::Item(p) => p < self.items@.len(),
            Primary::Aggregate => self.aggregate is Some,
        }
    }

    /// The item that a line goes by.
    pub open spec fn lead(self, g: GroupModel) -> ItemSnapshot {
        match g.primary {
            Primary::Item(p) => self.items@[p as int],
            Primary::Aggregate => *self.aggregate->0,
        }
    }

    /// The item that a line goes by.
    pub fn lead_item(&self, g: &ItemGroup) -> (r: &'a ItemSnapshot)
        requires
            self.holds(g.model()),
        ensures
            *r == self.lead(g.model()),
    {
        match g.primary {
            Primary::Item(p) => &self.items[p],
            Primary::Aggregate => self.aggregate.unwrap(),
        }
    }

    /// The lines of the sample.
    pub open spec fn lines(self, layout: Layout, cpus: CpuSelection, irq_cols: Seq<usize>) -> Seq<
        GroupModel,
    > {
        groups_of(
            grouping(
                layout,
                cpus,
                self.items@.len() as int,
                self.nr2,
                self.plan.names_interrupts(),
                irq_cols,
                self.aggregate is Some,
            ),
        )
    }

    /// The lines of the sample.
    pub fn groups(&self, layout: Layout, cpus: &CpuSelection, irq_cols: &Vec<usize>) -> (r: Vec<
        ItemGroup,
    >)
        ensures
            group_models(r@) == self.lines(layout, *cpus, irq_cols@),
            forall|i: int| 0 <= i < r@.len() ==> self.holds(#[trigger] r@[i].model()),
            forall|i: int| 0 <= i < r@.len() ==> (#[trigger] r@[i]).index < self.items@.len(),
    {
        let r = iter_groups(
            layout,
            cpus,
            self.items.len(),
            self.nr2,
            self.plan.has_irq_names(),
            irq_cols,
            self.aggregate.is_some(),
        );
        proof {
            let g = grouping(
                layout,
                *cpus,
                self.items@.len() as int,
                self.nr2,
                self.plan.names_interrupts(),
                irq_cols@,
                self.aggregate is Some,
            );
            lemma_groups_in_range(g);
            assert forall|i: int| 0 <= i < r@.len() implies self.holds(#[trigger] r@[i].model()) by {
                assert(group_models(r@)[i] == r@[i].model());
                assert(in_range(g, groups_of(g)[i]));
            }
            assert forall|i: int| 0 <= i < r@.len() implies (#[trigger] r@[i]).index
                < self.items@.len() by {
                assert(group_models(r@)[i] == r@[i].model());
                assert(in_range(g, groups_of(g)[i]));
            }
        }
        r
    }
}

/// Whether a group speaks of items that there are.
pub open spec fn in_range(g: Grouping, m: GroupModel) -> bool {
    &&& 0 <= m.index < g.items
    &&& match m.primary {
        Primary::Item(p) => p < g.items,
        Primary::Aggregate => g.aggregated,
    }
    &&& forall|k: int| 0 <= k < m.slots.len() ==> 0 <= #[trigger] m.slots[k] < g.items
}

proof fn lemma_cpu_groups_in_range(g: Grouping, n: int)
    requires
        0 <= n <= g.items <= usize::MAX,
    ensures
        forall|i: int| 0 <= i < cpu_groups(g, n).len() ==> in_range(g, #[trigger] cpu_groups(g, n)[i]),
    decreases n,
{
    if n > 0 {
        lemma_cpu_groups_in_range(g, n - 1);
        let before = cpu_groups(g, n - 1);
        let all = cpu_groups(g, n);
        assert forall|j: int| 0 <= j < before.len() implies all[j] == #[trigger] before[j] by {
        }
    }
}

proof fn lemma_irq_slots_in_range(g: Grouping, irq: int, n: int)
    requires
        0 <= n <= g.items / g.nr2,
        g.nr2 >= 1,
        0 <= irq < g.nr2,
        0 <= g.items,
    ensures
        forall|i: int|
            0 <= i < irq_slots(g, irq, n).len() ==> 0 <= #[trigger] irq_slots(g, irq, n)[i] < g.items,
    decreases n,
{
    if n > 0 {
        lemma_irq_slots_in_range(g, irq, n - 1);
        let before = irq_slots(g, irq, n - 1);
        let all = irq_slots(g, irq, n);
        assert forall|j: int| 0 <= j < before.len() implies all[j] == #[trigger] before[j] by {
        }
        lemma_slot_in_range(n - 1, g.items / g.nr2, g.nr2, irq, g.items);
    }
}

proof fn lemma_irq_groups_in_range(g: Grouping, n: int)
    requires
        0 <= n <= g.nr2,
        0 <= g.items <= usize::MAX,
        g.nr2 >= 1,
    ensures
        forall|i: int| 0 <= i < irq_groups(g, n).len() ==> in_range(g, #[trigger] irq_groups(g, n)[i]),
    decreases n,
{
    if n > 0 {
        lemma_irq_groups_in_range(g, n - 1);
        let before = irq_groups(g, n - 1);
        let all = irq_groups(g, n);
        assert forall|j: int| 0 <= j < before.len() implies all[j] == #[trigger] before[j] by {
        }
        assert(0 <= g.items / g.nr2) by (nonlinear_arith)
            requires
                0 <= g.items,
                g.nr2 >= 1,
        ;
        lemma_irq_slots_in_range(g, n - 1, g.items / g.nr2);
    }
}

proof fn lemma_freq_groups_in_range(g: Grouping, n: int)
    requires
        0 <= n <= g.items / g.nr2,
        0 <= g.items <= usize::MAX,
        g.nr2 >= 1,
    ensures
        forall|i: int|
            0 <= i < freq_groups(g, n).len() ==> in_range(g, #[trigger] freq_groups(g, n)[i]),
    decreases n,
{
    if n > 0 {
        lemma_freq_groups_in_range(g, n - 1);
        let before = freq_groups(g, n - 1);
        let all = freq_groups(g, n);
        assert forall|j: int| 0 <= j < before.len() implies all[j] == #[trigger] before[j] by {
        }
        let i = n - 1;
        lemma_slot_in_range(i, g.items / g.nr2, g.nr2, 0, g.items);
        assert(i <= i * g.nr2) by (nonlinear_arith)
            requires
                0 <= i,
                g.nr2 >= 1,
        ;
        let slots = Seq::new(g.nr2 as nat, |k: int| i * g.nr2 + k);
        assert forall|k: int| 0 <= k < slots.len() implies 0 <= #[trigger] slots[k] < g.items by {
            lemma_slot_in_range(i, g.items / g.nr2, g.nr2, k, g.items);
        }
    }
}

/// Each line of a sample stands for items that the sample has.
pub proof fn lemma_groups_in_range(g: Grouping)
    requires
        0 <= g.items <= usize::MAX,
        g.nr2 >= 1,
    ensures
        forall|i: int| 0 <= i < groups_of(g).len() ==> in_range(g, #[trigger] groups_of(g)[i]),
{
    match g.layout {
        Layout::Cpu => {
            lemma_cpu_groups_in_range(g, g.items);
        },
        Layout::IrqMatrix => {
            lemma_irq_groups_in_range(g, g.nr2);
        },
        Layout::FreqMatrix => {
            assert(0 <= g.items / g.nr2) by (nonlinear_arith)
                requires
                    0 <= g.items,
                    g.nr2 >= 1,
            ;
            lemma_freq_groups_in_range(g, g.items / g.nr2);
        },
        _ => {},
    }
}

/// The key of a line.
pub open spec fn group_key(id: ActivityId, s: SampleItems<'_>, g: GroupModel) -> KeyModel {
    key_of(id, *s.plan, s.lead(g), g.index)
}

/// The first line with a key.
pub open spec fn find_key(
    id: ActivityId,
    s: SampleItems<'_>,
    groups: Seq<GroupModel>,
    key: KeyModel,
) -> Option<int>
    decreases groups.len(),
{
    if groups.len() == 0 {
        None
    } else {
        match find_key(id, s, groups.drop_last(), key) {
            Some(i) => Some(i),
            None => if group_key(id, s, groups.last()) == key {
                Some(groups.len() - 1)
            } else {
                None
            },
        }
    }
}

/// The first line with a key.
pub fn position_of_key(
    id: ActivityId,
    s: &SampleItems<'_>,
    groups: &Vec<ItemGroup>,
    key: &ItemKey,
) -> (r: Option<usize>)
    requires
        forall|i: int| 0 <= i < groups@.len() ==> s.holds(#[trigger] groups@[i].model()),
    ensures
        match r {
            Some(i) => find_key(id, *s, group_models(groups@), key.model()) == Some(i as int) && i
                < groups@.len(),
            None => find_key(id, *s, group_models(groups@), key.model()) is None,
        },
{
    let ghost gs = group_models(groups@);
    let mut i: usize = 0;
    let mut found: Option<usize> = None;
    proof {
        assert(gs.take(0) =~= Seq::<GroupModel>::empty());
    }
    while i < groups.len()
        invariant
            i <= groups.len(),
            gs == group_models(groups@),
            forall|i: int| 0 <= i < groups@.len() ==> s.holds(#[trigger] groups@[i].model()),
            match found {
                Some(k) => find_key(id, *s, gs.take(i as int), key.model()) == Some(k as int) && k
                    < groups@.len(),
                None => find_key(id, *s, gs.take(i as int), key.model()) is None,
            },
        decreases groups.len() - i,
    {
        proof {
            assert(gs.take(i + 1).drop_last() =~= gs.take(i as int));
            assert(gs.take(i + 1).last() == groups@[i as int].model());
        }
        if found.is_none() {
            let k = item_key(id, s.plan, s.lead_item(&groups[i]), groups[i].index);
            if k.same(key) {
                found = Some(i);
            }
        }
        i = i + 1;
    }
    assert(gs.take(groups@.len() as int) =~= gs);
    found
}

/// The position of the value that does not count when two samples of an interface are
/// compared.
pub open spec fn skipped_value(id: ActivityId, plan: DecodePlan) -> Option<usize> {
    if id == ActivityId::NET_DEV && NET_DUPLEX < plan.column_fields@.len() {
        plan.column_fields@[NET_DUPLEX as int]
    } else {
        None
    }
}

/// Whether an item has not changed.
pub open spec fn unchanged(
    skip: Option<usize>,
    prev: Seq<Availability>,
    curr: Seq<Availability>,
) -> bool {
    prev.len() == curr.len() && forall|i: int|
        0 <= i < curr.len() ==> #[trigger] curr[i] == prev[i] || skip == Some(i as usize)
}

/// Whether an item has not changed.
pub fn same_sample(
    id: ActivityId,
    plan: &DecodePlan,
    prev: &Vec<Availability>,
    curr: &Vec<Availability>,
) -> (r: bool)
    ensures
        r == unchanged(skipped_value(id, *plan), prev@, curr@),
{
    let skip: Option<usize> = if id == ActivityId::NET_DEV && NET_DUPLEX
        < plan.column_fields.len() {
        plan.column_fields[NET_DUPLEX]
    } else {
        None
    };
    if prev.len() != curr.len() {
        return false;
    }
    let mut i: usize = 0;
    while i < curr.len()
        invariant
            i <= curr.len(),
            prev@.len() == curr@.len(),
            skip == skipped_value(id, *plan),
            forall|k: int|
                0 <= k < i ==> #[trigger] curr@[k] == prev@[k] || skip == Some(k as usize),
        decreases curr.len() - i,
    {
        let skipped = match skip {
            Some(s) => s == i,
            None => false,
        };
        if !skipped && curr[i] != prev[i] {
            assert(curr@[i as int] != prev@[i as int]);
            return false;
        }
        i = i + 1;
    }
    true
}

/// The values of an item that was not there before: all 0.
pub open spec fn zero_values(n: int) -> Seq<Availability> {
    Seq::new(n as nat, |i: int| Availability::Present(0))
}

/// The values of an item that was not there before.
pub fn zero_item(n: usize) -> (r: Vec<Availability>)
    ensures
        r@ == zero_values(n as int),
{
    let mut out: Vec<Availability> = Vec::new();
    let mut i: usize = 0;
    while i < n
        invariant
            i <= n,
            out@.len() == i,
            forall|k: int| 0 <= k < i ==> #[trigger] out@[k] == Availability::Present(0),
        decreases n - i,
    {
        out.push(Availability::Present(0));
        i = i + 1;
    }
    assert(out@ =~= zero_values(n as int));
    out
}

}
