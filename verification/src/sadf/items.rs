//! Which items of an activity are shown.

use vstd::prelude::*;

use crate::model::ActivityId;
use crate::sadf::access::{
    item_model, item_models, ActivityPair, ItemModel, ItemPair,
};
use crate::sadf::config::SadfConfig;
use crate::sadf::render::{item_label, label_of};
use crate::sadf::table::{ActivitySpec, ItemKind};
use crate::sar_text::options::name_passes;
use crate::text::{dec, dec_text};

verus! {

/// Whether an item is shown: it is in use, it was on (where that counts), it is one of the
/// selected CPUs, and it has one of the selected names.
pub open spec fn item_passes(
    cfg: SadfConfig,
    id: ActivityId,
    kind: ItemKind,
    item: ItemModel,
    raw: bool,
) -> bool {
    &&& !item.unused()
    &&& raw || !item.offline()
    &&& kind is Cpu ==> cfg.cpus.selects(item.index)
    &&& kind is Name || kind is Disk ==> name_passes(
        cfg.item_names@,
        id,
        label_of(kind, item).db,
    )
}

fn item_is_shown(cfg: &SadfConfig, spec_of: &ActivitySpec, item: &ItemPair<'_>, raw: bool) -> (r:
    bool)
    ensures
        r == item_passes(*cfg, spec_of.id, spec_of.item, item.model(), raw),
{
    if item.is_unused() {
        return false;
    }
    if !raw && item.is_offline() {
        return false;
    }
    match spec_of.item {
        ItemKind::Cpu => cfg.cpus.includes(item.index),
        ItemKind::Name | ItemKind::Disk => {
            let label = item_label(spec_of, item);
            cfg.name_selected(spec_of.id, label.db.as_str())
        },
        _ => true,
    }
}

/// The items of a list that are shown.
pub open spec fn passing(
    cfg: SadfConfig,
    id: ActivityId,
    kind: ItemKind,
    list: Seq<ItemModel>,
    raw: bool,
) -> Seq<ItemModel>
    decreases list.len(),
{
    if list.len() == 0 {
        Seq::empty()
    } else {
        let before = passing(cfg, id, kind, list.drop_last(), raw);
        if item_passes(cfg, id, kind, list.last(), raw) {
            before.push(list.last())
        } else {
            before
        }
    }
}

/// The items of an activity that are shown. The raw format shows CPUs that were off too.
pub open spec fn items_shown(
    cfg: SadfConfig,
    kind: ItemKind,
    pair: ActivityPair<'_>,
    raw: bool,
) -> Seq<ItemModel> {
    passing(cfg, pair.id, kind, pair.rows_upto(pair.row_count()), raw)
}

/// The items of an activity that are shown.
pub fn selected_items<'a>(
    pair: &ActivityPair<'a>,
    spec_of: &ActivitySpec,
    cfg: &SadfConfig,
    raw: bool,
) -> (r: Vec<ItemPair<'a>>)
    requires
        spec_of.id == pair.id,
    ensures
        item_models(r@) == items_shown(*cfg, spec_of.item, *pair, raw),
{
    let mut rest = pair.output_items();
    let mut out: Vec<ItemPair<'a>> = Vec::new();
    let ghost all = item_models(rest@);
    assert(item_models(out@) =~= passing(*cfg, pair.id, spec_of.item, all.take(0), raw));
    let n: usize = rest.len();
    let mut i: usize = 0;
    assert(item_models(rest@) =~= all.skip(0));
    while i < n
        invariant
            i <= n,
            n == all.len(),
            spec_of.id == pair.id,
            rest@.len() == n - i,
            item_models(rest@) == all.skip(i as int),
            item_models(out@) == passing(
                *cfg,
                pair.id,
                spec_of.item,
                all.take(i as int),
                raw,
            ),
        decreases n - i,
    {
        let ghost before = out@;
        let ghost here = rest@;
        let x = rest.remove(0);
        proof {
            assert(item_models(here)[0] == x.model());
            assert(all.skip(i as int)[0] == all[i as int]);
            assert forall|k: int| 0 <= k < rest@.len() implies #[trigger] item_models(rest@)[k]
                == all.skip(i + 1)[k] by {
                assert(rest@[k] == here[k + 1]);
                assert(item_models(here)[k + 1] == all.skip(i as int)[k + 1]);
            }
            assert(item_models(rest@) =~= all.skip(i + 1));
            assert(all.take(i + 1).drop_last() =~= all.take(i as int));
            assert(all.take(i + 1).last() == all[i as int]);
        }
        if item_is_shown(cfg, spec_of, &x, raw) {
            out.push(x);
            assert(item_models(out@) =~= item_models(before).push(x.model()));
        }
        i = i + 1;
    }
    assert(all.take(n as int) =~= all);
    out
}

/// The numbers of CPUs and of interrupts. An older file counts interrupts for all CPUs
/// together.
pub open spec fn irq_size(pair: ActivityPair<'_>) -> (int, int) {
    if pair.transposed() {
        (pair.sample.curr.nr as int, pair.sample.curr.nr2 as int)
    } else {
        (1, pair.sample.curr.nr as int)
    }
}

/// The count of an interrupt on a CPU.
pub open spec fn irq_at(pair: ActivityPair<'_>, cpu: int, irq: int) -> Option<ItemModel> {
    if pair.transposed() {
        pair.cell_at(cpu, irq)
    } else if cpu == 0 {
        pair.item_at(irq, irq)
    } else {
        None
    }
}

/// The name of an interrupt, which the line for all CPUs holds. In an older file interrupts
/// have numbers, and the first item is their sum.
pub open spec fn irq_title(pair: ActivityPair<'_>, irq: int) -> Seq<char> {
    let key = match irq_at(pair, 0, irq) {
        Some(item) => item.key(),
        None => None,
    };
    match key {
        Some(k) => k,
        None => if irq == 0 {
            "sum"@
        } else {
            dec((irq - 1) as nat)
        },
    }
}

/// Whether the counts of a CPU are shown.
pub open spec fn irq_cpu_passes(cfg: SadfConfig, pair: ActivityPair<'_>, cpu: int, raw: bool) -> bool {
    &&& cfg.cpus.selects(cpu)
    &&& raw || !(0 <= cpu < pair.sample.offline@.len() && pair.sample.offline@[cpu])
}

/// Whether the counts of any of the first `n` CPUs are shown.
pub open spec fn any_irq_cpu(cfg: SadfConfig, pair: ActivityPair<'_>, n: int, raw: bool) -> bool {
    exists|cpu: int| 0 <= cpu < n && #[trigger] irq_cpu_passes(cfg, pair, cpu, raw)
}

/// The numbers of CPUs and of interrupts.
pub fn irq_dimensions(pair: &ActivityPair<'_>) -> (r: (usize, usize))
    ensures
        (r.0 as int, r.1 as int) == irq_size(*pair),
{
    if pair.irq_is_transposed() {
        (pair.sample.curr.nr as usize, pair.sample.curr.nr2 as usize)
    } else {
        (1, pair.sample.curr.nr as usize)
    }
}

/// The count of an interrupt on a CPU.
pub fn irq_item<'a>(pair: &ActivityPair<'a>, cpu: usize, irq: usize) -> (r: Option<ItemPair<'a>>)
    ensures
        item_model(r) == irq_at(*pair, cpu as int, irq as int),
{
    if pair.irq_is_transposed() {
        pair.matrix_item(cpu, irq)
    } else if cpu == 0 {
        pair.item(irq)
    } else {
        None
    }
}

/// The name of an interrupt.
pub fn irq_name(pair: &ActivityPair<'_>, irq: usize) -> (r: String)
    ensures
        r@ == irq_title(*pair, irq as int),
{
    match irq_item(pair, 0, irq) {
        Some(item) => match item.key() {
            Some(k) => {
                return k.to_owned();
            },
            None => {},
        },
        None => {},
    }
    if irq == 0 {
        "sum".to_owned()
    } else {
        dec_text(irq as u64 - 1)
    }
}

/// Whether the counts of a CPU are shown.
pub fn irq_cpu_selected(cfg: &SadfConfig, pair: &ActivityPair<'_>, cpu: usize, raw: bool) -> (r:
    bool)
    ensures
        r == irq_cpu_passes(*cfg, *pair, cpu as int, raw),
{
    if !cfg.cpus.includes(cpu) {
        return false;
    }
    raw || !(cpu < pair.sample.offline.len() && pair.sample.offline[cpu])
}

/// Whether the counts of any of the first `n` CPUs are shown.
pub fn any_irq_cpu_selected(cfg: &SadfConfig, pair: &ActivityPair<'_>, n: usize, raw: bool) -> (r:
    bool)
    ensures
        r == any_irq_cpu(*cfg, *pair, n as int, raw),
{
    let mut cpu: usize = 0;
    while cpu < n
        invariant
            cpu <= n,
            forall|k: int| 0 <= k < cpu ==> !#[trigger] irq_cpu_passes(*cfg, *pair, k, raw),
        decreases n - cpu,
    {
        if irq_cpu_selected(cfg, pair, cpu, raw) {
            return true;
        }
        cpu = cpu + 1;
    }
    false
}

/// Whether an item is a serial line that the earlier record does not hold.
pub open spec fn new_serial_line(id: ActivityId, item: ItemModel) -> bool {
    id == ActivityId::SERIAL && !item.ctx.has_prev
}

/// Whether an item is a serial line that the earlier record does not hold.
pub fn is_new_serial_line(id: ActivityId, item: &ItemPair<'_>) -> (r: bool)
    ensures
        r == new_serial_line(id, item.model()),
{
    id == ActivityId::SERIAL && !item.ctx.has_prev
}

}
