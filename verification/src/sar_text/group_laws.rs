//! Which items make up the lines of a sample, and which lines are left out.

use vstd::prelude::*;

use crate::model::ActivityId;
use crate::sar_text::block::star_labels;
use crate::sar_text::groups::{
    cpu_groups, find_key, freq_groups, group_key, groups_of, irq_groups, irq_slots, selected_cpus,
    GroupModel, Grouping, Primary,
};
use crate::sar_text::header::StarLabel;
use crate::sar_text::layout::{BlockView, Layout};
use crate::sar_text::lines::{is_omitted, is_shown, rows_of, Comparison, LineFacts};
use crate::sar_text::options::{has_number, CpuSelection};

verus! {

/// The CPU at the first place is all of them together, and is shown where it was asked for; the
/// others are shown where their number was.
pub proof fn law_cpus_are_selected_by_number(cpus: CpuSelection, i: int)
    requires
        0 <= i,
    ensures
        cpus is All ==> cpus.selects(i),
        cpus is Aggregate ==> (cpus.selects(i) <==> i == 0),
        cpus is Listed && i > 0 ==> (cpus.selects(i) <==> exists|k: int|
            0 <= k < cpus->cpus@.len() && #[trigger] cpus->cpus@[k] + 1 == i),
        cpus is Listed ==> (cpus.selects(0) <==> cpus->aggregate),
{
    if cpus is Listed && i > 0 {
        let list = cpus->cpus@;
        if has_number(list, i - 1) {
            let k = choose|k: int| 0 <= k < list.len() && #[trigger] list[k] == i - 1;
            assert(list[k] + 1 == i);
        }
        if exists|k: int| 0 <= k < list.len() && #[trigger] list[k] + 1 == i {
            let k = choose|k: int| 0 <= k < list.len() && #[trigger] list[k] + 1 == i;
            assert(list[k] == i - 1);
        }
    }
}

/// The CPUs that are shown are those selected, in their order.
pub proof fn law_selected_cpus_are_in_order(cpus: CpuSelection, n: int)
    requires
        0 <= n,
    ensures
        forall|i: int| #![trigger cpus.selects(i)]
            0 <= i < n && cpus.selects(i) ==> selected_cpus(cpus, n).contains(i),
        forall|k: int|
            0 <= k < selected_cpus(cpus, n).len() ==> 0 <= #[trigger] selected_cpus(cpus, n)[k] < n
                && cpus.selects(selected_cpus(cpus, n)[k]),
        forall|a: int, b: int|
            0 <= a < b < selected_cpus(cpus, n).len() ==> #[trigger] selected_cpus(cpus, n)[a]
                < #[trigger] selected_cpus(cpus, n)[b],
    decreases n,
{
    if n > 0 {
        law_selected_cpus_are_in_order(cpus, n - 1);
        let before = selected_cpus(cpus, n - 1);
        let all = selected_cpus(cpus, n);
        assert forall|i: int| #![trigger cpus.selects(i)]
            0 <= i < n && cpus.selects(i) implies all.contains(i) by {
            if i < n - 1 {
                let k = choose|k: int| 0 <= k < before.len() && before[k] == i;
                assert(all[k] == i);
            } else {
                assert(all[before.len() as int] == i);
            }
        }
    }
}

/// The headings of the columns of the interrupts name the CPUs of the columns: the first place is
/// that of all of them, and each of the others has a number that is one below its place.
pub proof fn law_columns_of_interrupts_name_their_cpu(cols: Seq<usize>, k: int)
    requires
        0 <= k < cols.len(),
    ensures
        star_labels(cols).len() == cols.len(),
        cols[k] == 0 ==> star_labels(cols)[k] == StarLabel::Aggregate,
        cols[k] > 0 ==> (star_labels(cols)[k] matches StarLabel::Index(n) && n + 1 == cols[k]),
{
}

proof fn lemma_slots(g: Grouping, irq: int, n: int)
    requires
        0 <= n,
    ensures
        forall|cpu: int|
            0 <= cpu < n && #[trigger] has_number(g.irq_cols, cpu) ==> irq_slots(
                g,
                irq,
                n,
            ).contains(cpu * g.nr2 + irq),
        forall|k: int|
            0 <= k < irq_slots(g, irq, n).len() ==> is_slot(g, irq, n, #[trigger] irq_slots(
                g,
                irq,
                n,
            )[k]),
    decreases n,
{
    if n > 0 {
        lemma_slots(g, irq, n - 1);
        let before = irq_slots(g, irq, n - 1);
        let all = irq_slots(g, irq, n);
        assert forall|cpu: int| 0 <= cpu < n && #[trigger] has_number(g.irq_cols, cpu) implies all.contains(
            cpu * g.nr2 + irq,
        ) by {
            if cpu < n - 1 {
                let k = choose|k: int| 0 <= k < before.len() && before[k] == cpu * g.nr2 + irq;
                assert(all[k] == cpu * g.nr2 + irq);
            } else {
                assert(all[before.len() as int] == cpu * g.nr2 + irq);
            }
        }
        assert forall|k: int| 0 <= k < all.len() implies is_slot(g, irq, n, #[trigger] all[k]) by {
            if k < before.len() {
                assert(is_slot(g, irq, n - 1, before[k]));
                let cpu = choose|cpu: int|
                    0 <= cpu < n - 1 && #[trigger] has_number(g.irq_cols, cpu) && before[k] == cpu
                        * g.nr2 + irq;
                assert(has_number(g.irq_cols, cpu));
            } else {
                assert(has_number(g.irq_cols, n - 1));
            }
        }
    }
}

/// Whether a position is that of an interrupt on one of the first `n` CPUs that have a column.
pub open spec fn is_slot(g: Grouping, irq: int, n: int, p: int) -> bool {
    exists|cpu: int|
        0 <= cpu < n && #[trigger] has_number(g.irq_cols, cpu) && p == cpu * g.nr2 + irq
}

proof fn lemma_irq_groups(g: Grouping, n: int)
    requires
        0 <= n <= g.items,
    ensures
        irq_groups(g, n).len() == n,
        forall|i: int|
            0 <= i < n ==> (#[trigger] irq_groups(g, n)[i]).index == i && irq_groups(g, n)[i].slots
                == irq_slots(g, i, g.items / g.nr2),
    decreases n,
{
    if n > 0 {
        lemma_irq_groups(g, n - 1);
    }
}

/// The line of an interrupt takes one item from each CPU that has a column: the one at the row of
/// the CPU and the place of the interrupt.
pub proof fn law_an_interrupt_has_an_item_of_each_cpu(g: Grouping, irq: int)
    requires
        g.layout == Layout::IrqMatrix,
        g.nr2 > 1 || g.named,
        0 <= irq < g.nr2 <= g.items,
    ensures
        groups_of(g).len() == g.nr2,
        groups_of(g)[irq].index == irq,
        forall|cpu: int|
            0 <= cpu < g.items / g.nr2 && #[trigger] has_number(g.irq_cols, cpu) ==> groups_of(
                g,
            )[irq].slots.contains(cpu * g.nr2 + irq),
        forall|k: int|
            0 <= k < groups_of(g)[irq].slots.len() ==> is_slot(
                g,
                irq,
                g.items / g.nr2,
                #[trigger] groups_of(g)[irq].slots[k],
            ),
{
    assert(0 <= g.items / g.nr2) by (nonlinear_arith)
        requires
            0 <= g.items,
            0 < g.nr2,
    ;
    lemma_irq_groups(g, g.nr2);
    lemma_slots(g, irq, g.items / g.nr2);
}

/// The line of a CPU with frequencies takes the items of its own row.
pub proof fn law_frequencies_are_those_of_their_cpu(g: Grouping, n: int, k: int)
    requires
        0 <= k < freq_groups(g, n).len(),
        0 <= g.nr2,
    ensures
        0 <= freq_groups(g, n)[k].index < n,
        g.cpus.selects(freq_groups(g, n)[k].index),
        freq_groups(g, n)[k].slots.len() == g.nr2,
        forall|j: int|
            0 <= j < g.nr2 ==> #[trigger] freq_groups(g, n)[k].slots[j] == freq_groups(g, n)[k].index
                * g.nr2 + j,
    decreases n,
{
    if n > 0 && k < freq_groups(g, n - 1).len() {
        law_frequencies_are_those_of_their_cpu(g, n - 1, k);
        assert(freq_groups(g, n)[k] == freq_groups(g, n - 1)[k]);
    }
}

/// The lines of CPUs are those of the CPUs selected, each of its own item; all of them together are
/// the sum where there is one.
pub proof fn law_lines_of_cpus_are_those_selected(g: Grouping, n: int, k: int)
    requires
        0 <= k < cpu_groups(g, n).len(),
        n <= usize::MAX,
    ensures
        0 <= cpu_groups(g, n)[k].index < n,
        g.cpus.selects(cpu_groups(g, n)[k].index),
        cpu_groups(g, n)[k].primary == (if cpu_groups(g, n)[k].index == 0 && g.aggregated {
            Primary::Aggregate
        } else {
            Primary::Item(cpu_groups(g, n)[k].index as usize)
        }),
    decreases n,
{
    if n > 0 && k < cpu_groups(g, n - 1).len() {
        law_lines_of_cpus_are_those_selected(g, n - 1, k);
        assert(cpu_groups(g, n)[k] == cpu_groups(g, n - 1)[k]);
    }
}

/// The lines of a list are those of its items, in their order.
pub proof fn law_lines_of_a_list_are_those_of_its_items(g: Grouping, i: int)
    requires
        g.layout == Layout::List,
        0 <= i < g.items <= usize::MAX,
    ensures
        groups_of(g).len() == g.items,
        groups_of(g)[i].index == i,
        groups_of(g)[i].primary == Primary::Item(i as usize),
{
}

/// An item is the one that it was at the sample before exactly where the keys are the same.
pub proof fn law_items_are_found_by_their_key(c: Comparison<'_>, g: GroupModel)
    ensures
        find_key(c.id, c.prev, c.prev_lines, group_key(c.id, c.curr, g)) matches Some(k) ==> {
            &&& 0 <= k < c.prev_lines.len()
            &&& group_key(c.id, c.prev, c.prev_lines[k]) == group_key(c.id, c.curr, g)
        },
        find_key(c.id, c.prev, c.prev_lines, group_key(c.id, c.curr, g)) is None ==> forall|k: int|
            0 <= k < c.prev_lines.len() ==> group_key(c.id, c.prev, #[trigger] c.prev_lines[k])
                != group_key(c.id, c.curr, g),
{
    lemma_found(c, c.prev_lines, group_key(c.id, c.curr, g));
}

proof fn lemma_found(
    c: Comparison<'_>,
    groups: Seq<GroupModel>,
    key: crate::sar_text::rows::KeyModel,
)
    ensures
        find_key(c.id, c.prev, groups, key) matches Some(k) ==> {
            &&& 0 <= k < groups.len()
            &&& group_key(c.id, c.prev, groups[k]) == key
        },
        find_key(c.id, c.prev, groups, key) is None ==> forall|k: int|
            0 <= k < groups.len() ==> group_key(c.id, c.prev, #[trigger] groups[k]) != key,
    decreases groups.len(),
{
    if groups.len() > 0 {
        lemma_found(c, groups.drop_last(), key);
        if find_key(c.id, c.prev, groups, key) is None {
            assert forall|k: int| 0 <= k < groups.len() implies group_key(
                c.id,
                c.prev,
                #[trigger] groups[k],
            ) != key by {
                if k < groups.len() - 1 {
                    assert(groups.drop_last()[k] == groups[k]);
                }
            }
        }
    }
}

/// Lines are left out for want of change only where that was asked for, and only those of an item
/// that was there at the sample before with the same counters.
pub proof fn law_only_unchanged_items_are_left_out(c: Comparison<'_>, g: GroupModel, f: LineFacts)
    ensures
        is_omitted(c, g, f) ==> {
            &&& c.opts.zero_omit
            &&& c.id == ActivityId::IRQ || c.id == ActivityId::SERIAL || c.id == ActivityId::DISK
                || c.id == ActivityId::NET_DEV || c.id == ActivityId::NET_EDEV || c.id
                == ActivityId::FS || c.id == ActivityId::NET_SOFT
            &&& find_key(c.id, c.prev, c.prev_lines, group_key(c.id, c.curr, g)) matches Some(k)
            &&& c.id != ActivityId::NET_DEV && !f.reregistered ==> c.prev.lead(
                c.prev_lines[k],
            ).values@ =~= c.curr.lead(g).values@
        },
{
    if is_omitted(c, g, f) {
        let k = find_key(c.id, c.prev, c.prev_lines, group_key(c.id, c.curr, g))->0;
        if c.id != ActivityId::NET_DEV && !f.reregistered {
            let a = c.prev.lead(c.prev_lines[k]).values@;
            let b = c.curr.lead(g).values@;
            assert forall|i: int| 0 <= i < b.len() implies a[i] == b[i] by {
                assert(b[i] == a[i]);
            }
        }
    }
}

/// An item that is in use and whose CPU is on has a line, unless a selection of names or of changes
/// leaves it out.
pub proof fn law_items_in_use_have_a_line(
    view: BlockView,
    c: Comparison<'_>,
    lines: Seq<GroupModel>,
    facts: Seq<LineFacts>,
    n: int,
    k: int,
)
    requires
        0 <= k < n <= lines.len(),
        n <= facts.len(),
        !facts[k].offline,
        !facts[k].unused,
        !facts[k].cpu_offline,
        c.opts.item_names@.len() == 0,
        !c.opts.zero_omit,
    ensures
        exists|j: int|
            0 <= j < rows_of(view, c, lines, facts, n).len() && (#[trigger] rows_of(
                view,
                c,
                lines,
                facts,
                n,
            )[j]).index == lines[k].index,
    decreases n,
{
    let rows = rows_of(view, c, lines, facts, n);
    let before = rows_of(view, c, lines, facts, n - 1);
    if k < n - 1 {
        law_items_in_use_have_a_line(view, c, lines, facts, n - 1, k);
        let j = choose|j: int|
            0 <= j < before.len() && (#[trigger] before[j]).index == lines[k].index;
        assert(rows[j] == before[j]);
    } else {
        assert(is_shown(c, lines[k], facts[k]));
        assert(rows[before.len() as int].index == lines[k].index);
    }
}

}
