//! The counts of interrupts in each format, and the marks of the raw counters.

use vstd::prelude::*;

use crate::doc::{chars, Glyph};
use crate::model::{ActivityId, Availability};
use crate::sadf::access::{ActivityPair, ItemModel};
use crate::sadf::config::SadfConfig;
use crate::sadf::dbppc::{irq_value, irq_values};
use crate::sadf::items::{irq_at, irq_cpu_passes, irq_title};
use crate::sadf::json;
use crate::sadf::raw::{
    counter_tokens, cpu_item, cpu_mark, cpu_title, irq_counts, irq_tokens, mark_of,
    raw_token,
};
use crate::sadf::table::Fmt;
use crate::sadf::value::{cpu_label, value_shown, ShownModel, ABSENT_JSON, ABSENT_TEXT, ABSENT_XML};
use crate::sadf::xml;
use crate::text::dec;
use crate::text_laws::{decimal_value, law_decimals_have_their_value};
use crate::within::{lemma_stands_deeper, lemma_stands_in, stands_in};

verus! {

/// The count of an interrupt on a CPU is the rate of the item that stands for the two.
pub proof fn law_an_interrupt_shows_its_own_item(
    pair: ActivityPair<'_>,
    cpu: int,
    irq: int,
    absent: Seq<char>,
)
    requires
        irq_at(pair, cpu, irq) is Some,
    ensures
        irq_value(pair, cpu, irq, absent) == value_shown(
            irq_at(pair, cpu, irq)->0.computed_by_name("intr"@),
            Fmt::R2,
            absent,
        ),
        irq_counts(pair, cpu, irq) == (
            irq_at(pair, cpu, irq)->0.raw_by_name("intr"@, true),
            irq_at(pair, cpu, irq)->0.raw_by_name("intr"@, false),
        ),
{
}

/// A member of the object of an interrupt in JSON, for one CPU.
pub open spec fn json_count(pair: ActivityPair<'_>, cpu: int, irq: int) -> Seq<Glyph> {
    chars("\""@) + chars(cpu_title(cpu)) + chars("\": "@) + irq_value(
        pair,
        cpu,
        irq,
        ABSENT_JSON@,
    ).glyphs()
}

/// Whether a member of the object of an interrupt is that of one of the first `n` CPUs.
pub open spec fn counts_a_cpu(
    cfg: SadfConfig,
    pair: ActivityPair<'_>,
    irq: int,
    n: int,
    m: Seq<Glyph>,
) -> bool {
    exists|cpu: int|
        0 <= cpu < n && #[trigger] irq_cpu_passes(cfg, pair, cpu, false) && m == json_count(
            pair,
            cpu,
            irq,
        )
}

/// The object of an interrupt in JSON has a member for each CPU that is shown, under the name of
/// the CPU, and no other beside the name of the interrupt.
pub proof fn law_json_interrupts_stand_under_their_cpu(
    cfg: SadfConfig,
    pair: ActivityPair<'_>,
    irq: int,
    n: int,
)
    requires
        0 <= n,
    ensures
        forall|cpu: int|
            0 <= cpu < n && #[trigger] irq_cpu_passes(cfg, pair, cpu, false)
                ==> json::irq_members(cfg, pair, irq, n).contains(json_count(pair, cpu, irq)),
        forall|k: int|
            1 <= k < json::irq_members(cfg, pair, irq, n).len() ==> counts_a_cpu(
                cfg,
                pair,
                irq,
                n,
                #[trigger] json::irq_members(cfg, pair, irq, n)[k],
            ),
        json::irq_members(cfg, pair, irq, n)[0] == chars("\"intr\": \""@) + chars(
            json::escaped(irq_title(pair, irq)),
        ) + chars("\""@),
        json::irq_members(cfg, pair, irq, n).len() >= 1,
    decreases n,
{
    if n > 0 {
        law_json_interrupts_stand_under_their_cpu(cfg, pair, irq, n - 1);
        let before = json::irq_members(cfg, pair, irq, n - 1);
        let all = json::irq_members(cfg, pair, irq, n);
        assert forall|cpu: int|
            0 <= cpu < n && #[trigger] irq_cpu_passes(cfg, pair, cpu, false) implies all.contains(
            json_count(pair, cpu, irq),
        ) by {
            if cpu < n - 1 {
                let k = choose|k: int|
                    0 <= k < before.len() && before[k] == json_count(pair, cpu, irq);
                assert(all[k] == json_count(pair, cpu, irq));
            } else {
                assert(all[before.len() as int] == json_count(pair, cpu, irq));
            }
        }
        assert forall|k: int| 1 <= k < all.len() implies counts_a_cpu(
            cfg,
            pair,
            irq,
            n,
            #[trigger] all[k],
        ) by {
            if k < before.len() {
                assert(all[k] == before[k]);
                let cpu = choose|cpu: int|
                    0 <= cpu < n - 1 && #[trigger] irq_cpu_passes(cfg, pair, cpu, false)
                        && before[k] == json_count(pair, cpu, irq);
                assert(irq_cpu_passes(cfg, pair, cpu, false));
            } else {
                assert(irq_cpu_passes(cfg, pair, n - 1, false));
            }
        }
    }
}

/// The element of an interrupt on a CPU in XML.
pub open spec fn xml_count(pair: ActivityPair<'_>, cpu: int, irq: int) -> Seq<Glyph> {
    chars("<irq intr=\""@) + chars(xml::escaped(irq_title(pair, irq))) + chars("\" cpu=\""@) + chars(
        cpu_label(cpu).jx,
    ) + chars("\" value=\""@) + irq_value(pair, cpu, irq, ABSENT_XML@).glyphs() + chars("\"/>\n"@)
}

/// Each interrupt has an element in XML for each CPU that is shown, with its own count.
pub proof fn law_xml_interrupts_name_their_cpu(
    cfg: SadfConfig,
    pair: ActivityPair<'_>,
    irq: int,
    depth: nat,
    n: int,
    cpu: int,
)
    requires
        0 <= cpu < n,
        irq_cpu_passes(cfg, pair, cpu, false),
    ensures
        stands_in(xml_count(pair, cpu, irq), xml::irq_elements(cfg, pair, irq, depth, n)),
    decreases n,
{
    let whole = xml::irq_elements(cfg, pair, irq, depth, n);
    let before = xml::irq_elements(cfg, pair, irq, depth, n - 1);
    let part = xml_count(pair, cpu, irq);
    if cpu == n - 1 {
        let lead = before + chars(json::tabs(depth));
        assert(whole =~= lead + part + Seq::<Glyph>::empty());
        lemma_stands_in(lead, part, Seq::empty(), whole);
    } else {
        law_xml_interrupts_name_their_cpu(cfg, pair, irq, depth, n - 1, cpu);
        let rest = whole.skip(before.len() as int);
        assert(whole =~= Seq::<Glyph>::empty() + before + rest);
        lemma_stands_in(Seq::empty(), before, rest, whole);
        lemma_stands_deeper(part, before, whole);
    }
}

/// Each interrupt has a line of its own for each CPU that is shown, with its own count, or one
/// value in the line of the interrupt.
pub proof fn law_flat_interrupts_show_each_cpu(
    cfg: SadfConfig,
    pair: ActivityPair<'_>,
    irq: int,
    pre: Seq<char>,
    n: int,
    cpu: int,
)
    requires
        0 <= cpu < n,
        irq_cpu_passes(cfg, pair, cpu, false),
    ensures
        stands_in(
            chars(pre) + chars("\t"@) + chars(irq_title(pair, irq)) + chars("\t"@) + chars(
                cpu_label(cpu).ppc,
            ) + chars("\t"@) + irq_value(pair, cpu, irq, ABSENT_TEXT@).glyphs() + chars("\n"@),
            irq_values(cfg, pair, irq, pre, false, n),
        ),
        stands_in(
            chars(";"@) + irq_value(pair, cpu, irq, ABSENT_TEXT@).glyphs(),
            irq_values(cfg, pair, irq, pre, true, n),
        ),
    decreases n,
{
    let v = irq_value(pair, cpu, irq, ABSENT_TEXT@).glyphs();
    let line = chars(pre) + chars("\t"@) + chars(irq_title(pair, irq)) + chars("\t"@) + chars(
        cpu_label(cpu).ppc,
    ) + chars("\t"@) + v + chars("\n"@);
    let value = chars(";"@) + v;
    let lines = irq_values(cfg, pair, irq, pre, false, n);
    let values = irq_values(cfg, pair, irq, pre, true, n);
    let lines_before = irq_values(cfg, pair, irq, pre, false, n - 1);
    let values_before = irq_values(cfg, pair, irq, pre, true, n - 1);
    if cpu == n - 1 {
        assert(lines =~= lines_before + line + Seq::<Glyph>::empty());
        assert(values =~= values_before + value + Seq::<Glyph>::empty());
        lemma_stands_in(lines_before, line, Seq::empty(), lines);
        lemma_stands_in(values_before, value, Seq::empty(), values);
    } else {
        law_flat_interrupts_show_each_cpu(cfg, pair, irq, pre, n - 1, cpu);
        let a = lines.skip(lines_before.len() as int);
        let b = values.skip(values_before.len() as int);
        assert(lines =~= Seq::<Glyph>::empty() + lines_before + a);
        assert(values =~= Seq::<Glyph>::empty() + values_before + b);
        lemma_stands_in(Seq::empty(), lines_before, a, lines);
        lemma_stands_in(Seq::empty(), values_before, b, values);
        lemma_stands_deeper(line, lines_before, lines);
        lemma_stands_deeper(value, values_before, values);
    }
}

/// The raw line of an interrupt has the name of each CPU that is shown, and behind it the count
/// at the sample before and the one at the sample.
pub proof fn law_raw_interrupts_show_before_and_now(
    cfg: SadfConfig,
    pair: ActivityPair<'_>,
    irq: int,
    n: int,
    cpu: int,
)
    requires
        0 <= cpu < n,
        irq_cpu_passes(cfg, pair, cpu, true),
        irq_at(pair, cpu, irq) is Some,
        !cfg.debug,
    ensures
        exists|k: int|
            0 <= k && k + 2 < irq_tokens(cfg, pair, irq, n).len() && {
                let x = irq_at(pair, cpu, irq)->0;
                &&& #[trigger] irq_tokens(cfg, pair, irq, n)[k] == ShownModel::Text(cpu_title(cpu))
                &&& irq_tokens(cfg, pair, irq, n)[k + 1] == ShownModel::Text(
                    raw_token(x.raw_by_name("intr"@, true)),
                )
                &&& irq_tokens(cfg, pair, irq, n)[k + 2] == ShownModel::Text(
                    raw_token(x.raw_by_name("intr"@, false)),
                )
            },
    decreases n,
{
    let all = irq_tokens(cfg, pair, irq, n);
    let before = irq_tokens(cfg, pair, irq, n - 1);
    let x = irq_at(pair, cpu, irq)->0;
    if cpu == n - 1 {
        let k = before.len() as int;
        assert(all[k] == ShownModel::Text(cpu_title(cpu)));
        assert(all[k + 1] == ShownModel::Text(raw_token(x.raw_by_name("intr"@, true))));
        assert(all[k + 2] == ShownModel::Text(raw_token(x.raw_by_name("intr"@, false))));
    } else {
        law_raw_interrupts_show_before_and_now(cfg, pair, irq, n - 1, cpu);
        let k = choose|k: int|
            0 <= k && k + 2 < before.len() && {
                &&& #[trigger] before[k] == ShownModel::Text(cpu_title(cpu))
                &&& before[k + 1] == ShownModel::Text(raw_token(x.raw_by_name("intr"@, true)))
                &&& before[k + 2] == ShownModel::Text(raw_token(x.raw_by_name("intr"@, false)))
            };
        assert(all[k] == before[k]);
        assert(all[k + 1] == before[k + 1]);
        assert(all[k + 2] == before[k + 2]);
    }
}

/// The name of a CPU in JSON and among the raw counters: the first place is that of all of them,
/// and each of the others has a number that is one below its place.
pub proof fn law_cpu_names_count_from_zero(cpu: int)
    requires
        0 <= cpu,
    ensures
        cpu == 0 ==> cpu_title(cpu) == "all"@,
        cpu > 0 ==> cpu_title(cpu).take(3) == "CPU"@ && decimal_value(cpu_title(cpu).skip(3)) + 1
            == cpu,
{
    if cpu > 0 {
        reveal_strlit("CPU");
        law_decimals_have_their_value((cpu - 1) as nat);
        assert(cpu_title(cpu).take(3) =~= "CPU"@);
        assert(cpu_title(cpu).skip(3) =~= dec((cpu - 1) as nat));
    }
}

/// A raw counter shows its value before and now, and is marked where it went down and marks are
/// asked for.
pub proof fn law_counters_that_went_down_are_marked(name: Seq<char>, marks: bool, p: u64, c: u64)
    ensures
        ({
            let t = counter_tokens(
                name,
                marks,
                Availability::Present(p),
                Availability::Present(c),
            );
            &&& t.len() == 3
            &&& marks && c < p ==> t[0] == ShownModel::Text(name + " [DEC]"@)
            &&& !marks || c >= p ==> t[0] == ShownModel::Text(name)
            &&& t[1] == ShownModel::Text(dec(p as nat))
            &&& t[2] == ShownModel::Text(dec(c as nat))
            &&& decimal_value(dec(p as nat)) == p
            &&& decimal_value(dec(c as nat)) == c
        }),
{
    law_decimals_have_their_value(p as nat);
    law_decimals_have_their_value(c as nat);
}

/// A device that was not there at the sample before is marked as new, and one that was registered
/// anew as back; this is so of disks, network interfaces, Fibre Channel hosts and serial lines
/// only.
pub proof fn law_new_devices_are_marked(id: ActivityId, item: ItemModel)
    ensures
        ({
            let may_be_new = id == ActivityId::DISK || id == ActivityId::NET_DEV || id
                == ActivityId::NET_EDEV || id == ActivityId::NET_FC || id == ActivityId::SERIAL;
            let may_be_back = id == ActivityId::DISK || id == ActivityId::NET_DEV || id
                == ActivityId::NET_EDEV;
            &&& may_be_new && !item.ctx.has_prev ==> mark_of(id, item) == " [NEW]"@
            &&& may_be_back && item.ctx.has_prev && (item.facts matches Some(f) && f.replaced)
                ==> mark_of(id, item) == " [BCK]"@
            &&& !may_be_new ==> mark_of(id, item) == ""@
            &&& item.ctx.has_prev && !(item.facts matches Some(f) && f.replaced) ==> mark_of(
                id,
                item,
            ) == ""@
        }),
{
}

/// The raw counters of a CPU are those of its own place, now and at the sample before. One that is
/// off or has not ticked is marked where marks are asked for, but never all CPUs together.
pub proof fn law_raw_cpus_are_those_of_their_place(pair: ActivityPair<'_>, i: int)
    requires
        0 <= i < pair.sample.curr.items@.len(),
        pair.sample.prev matches Some(p) && i < p.items@.len(),
    ensures
        cpu_item(pair, i, false).curr == pair.sample.curr.items@[i],
        cpu_item(pair, i, false).prev == Some(pair.sample.prev->0.items@[i]),
        cpu_item(pair, i, true).curr == pair.sample.curr.items@[i],
        cpu_mark(pair.id, pair, i, false) == ""@,
        cpu_mark(pair.id, pair, 0, true) == ""@,
        pair.id == ActivityId::CPU && 0 < i < pair.sample.cpus@.len() ==> cpu_mark(
            pair.id,
            pair,
            i,
            true,
        ) == (if pair.sample.cpus@[i].offline {
            " [OFF]"@
        } else if pair.sample.cpus@[i].tickless {
            " [TLS]"@
        } else {
            ""@
        }),
{
}

}
