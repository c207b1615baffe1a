//! The XML format.

use vstd::prelude::*;

use crate::clock::RecordTime;
use crate::doc::{chars, Doc, Glyph};
use crate::model::ActivityId;
use crate::sadf::access::{item_models, ActivityPair, IntervalView, ItemModel, ItemPair};
use crate::sadf::config::{SadfConfig, SadfExtra};
use crate::sadf::dbppc::{comment_of, comment_str, display_cpu_count, irq_value, show_irq};
use crate::sadf::file::{
    act_entries, entries_of, find_view, pair_of, view_of, ActEntry, SaFile,
};
use crate::sadf::items::{
    any_irq_cpu, any_irq_cpu_selected, irq_cpu_passes, irq_cpu_selected, irq_dimensions, irq_name,
    irq_size, irq_title, items_shown, selected_items,
};
use crate::sadf::json::{indent, tabs};
use crate::sadf::logic1::{comments_upto, entries_from, restarts_upto, run, Entry, RestartEntry};
use crate::sadf::records::{indexes, Rec, RecordIndex};
use crate::sadf::render::{
    field_shown, field_value, item_label_in, jx_fields, label_in, nested_fields, ordered,
};
use crate::sadf::select::{every_record, RecordSelect};
use crate::sadf::stamp::{interval_secs, rounded_seconds, stamp_of, FileInfo, Stamp};
use crate::sadf::table::{
    act_order, law_table_is_of_its_activity, lookup, table, ActivitySpec, Field, Fmt, Group,
    Section, Shape, SpecModel,
};
use crate::sadf::table_laws::{all_ordered, law_field_order};
use crate::sadf::value::{
    cpu_label, show_value, value_shown, ItemLabel, LabelModel, Shown, ShownModel, ABSENT_XML,
};
use crate::sar_text::header::cpu_count;
use crate::sar_text::options::name_passes;
use crate::text::{dec, push_char, push_dec};

verus! {

/// The version of the document type.
pub const XML_DTD_VERSION: &'static str = "3.18";

/// A character of a text or an attribute.
pub open spec fn escaped_char(c: char) -> Seq<char> {
    if c == '&' {
        "&amp;"@
    } else if c == '<' {
        "&lt;"@
    } else if c == '>' {
        "&gt;"@
    } else if c == '"' {
        "&quot;"@
    } else if c == '\'' {
        "&apos;"@
    } else {
        seq![c]
    }
}

/// A text or an attribute.
pub open spec fn escaped(s: Seq<char>) -> Seq<char>
    decreases s.len(),
{
    if s.len() == 0 {
        Seq::empty()
    } else {
        escaped(s.drop_last()) + escaped_char(s.last())
    }
}

/// A text or an attribute.
pub fn esc(s: &str) -> (r: String)
    ensures
        r@ == escaped(s@),
{
    let mut out = String::new();
    proof {
        assert(s@.take(0) =~= Seq::<char>::empty());
    }
    for c in iter: s.chars()
        invariant
            iter.seq() == s@,
            out@ == escaped(s@.take(iter.index())),
    {
        let ghost i = iter.index();
        let ghost before = out@;
        proof {
            assert(s@.take(i + 1).drop_last() =~= s@.take(i));
            assert(s@.take(i + 1).last() == c);
        }
        if c == '&' {
            out.append("&amp;");
        } else if c == '<' {
            out.append("&lt;");
        } else if c == '>' {
            out.append("&gt;");
        } else if c == '"' {
            out.append("&quot;");
        } else if c == '\'' {
            out.append("&apos;");
        } else {
            push_char(&mut out, c);
            assert(out@ =~= before + escaped_char(c));
        }
    }
    assert(s@.take(s@.len() as int) =~= s@);
    out
}

/// Whether a character starts or ends a tag or an attribute.
pub open spec fn is_markup(c: char) -> bool {
    c == '<' || c == '>' || c == '"' || c == '\''
}

/// No text starts or ends a tag or an attribute: an escaped text holds no markup, and each `&`
/// in it starts one of the five names for a character.
pub proof fn law_escaped_text_holds_no_markup(s: Seq<char>)
    ensures
        forall|i: int| 0 <= i < escaped(s).len() ==> !is_markup(#[trigger] escaped(s)[i]),
        forall|i: int|
            0 <= i < escaped(s).len() && #[trigger] escaped(s)[i] == '&' ==> exists|n: int|
                starts_name(escaped(s), i, n),
    decreases s.len(),
{
    if s.len() > 0 {
        let before = escaped(s.drop_last());
        let c = s.last();
        law_escaped_text_holds_no_markup(s.drop_last());
        reveal_strlit("&amp;");
        reveal_strlit("&lt;");
        reveal_strlit("&gt;");
        reveal_strlit("&quot;");
        reveal_strlit("&apos;");
        assert(escaped(s) == before + escaped_char(c));
        assert forall|i: int|
            0 <= i < escaped(s).len() && #[trigger] escaped(s)[i] == '&' implies exists|n: int|
            starts_name(escaped(s), i, n) by {
            if i < before.len() {
                assert(before[i] == '&');
                let n = choose|n: int| starts_name(before, i, n);
                assert(escaped(s).subrange(i, i + n) =~= before.subrange(i, i + n));
                assert(starts_name(escaped(s), i, n));
            } else {
                let n = escaped_char(c).len() as int;
                assert(escaped(s).subrange(i, i + n) =~= escaped_char(c));
                assert(starts_name(escaped(s), i, n));
            }
        }
    }
}

/// Whether one of the names for a character stands at `i`, `n` characters long.
pub open spec fn starts_name(s: Seq<char>, i: int, n: int) -> bool {
    &&& 0 <= i
    &&& 0 <= n
    &&& i + n <= s.len()
    &&& {
        let name = s.subrange(i, i + n);
        name == "&amp;"@ || name == "&lt;"@ || name == "&gt;"@ || name == "&quot;"@ || name
            == "&apos;"@
    }
}

/// A value with its text escaped.
pub open spec fn escaped_value(v: ShownModel) -> Seq<Glyph> {
    match v {
        ShownModel::Text(t) => chars(escaped(t)),
        ShownModel::Number(_) => v.glyphs(),
    }
}

fn put_escaped(out: &mut Doc, v: &Shown)
    ensures
        final(out)@ == old(out)@ + escaped_value(v.model()),
{
    match v {
        Shown::Text(t) => out.put(esc(t.as_str()).as_str()),
        Shown::Number(n) => out.put_number(*n),
    }
}

/// A field as it is shown.
pub open spec fn xml_value(id: ActivityId, item: ItemModel, field: Field, label: LabelModel) -> Seq<
    Glyph,
> {
    escaped_value(field_shown(id, item, field, field.jx_fmt, label, ABSENT_XML@))
}

/// Whether XML shows a field.
pub open spec fn xml_field(cfg: SadfConfig, field: Field) -> bool {
    field.attr@.len() > 0 && cfg.section.opens_field(field.gate)
}

/// A field: an attribute, or an element where `depth` says how far it is indented.
pub open spec fn field_text(
    id: ActivityId,
    item: ItemModel,
    field: Field,
    label: LabelModel,
    depth: Option<nat>,
) -> Seq<Glyph> {
    match depth {
        None => chars(" "@) + chars(field.attr@) + chars("=\""@) + xml_value(
            id,
            item,
            field,
            label,
        ) + chars("\""@),
        Some(d) => chars(tabs(d)) + chars("<"@) + chars(field.attr@) + chars(">"@) + xml_value(
            id,
            item,
            field,
            label,
        ) + chars("</"@) + chars(field.attr@) + chars(">\n"@),
    }
}

/// A depth as a mathematical number.
pub open spec fn depth_of(depth: Option<usize>) -> Option<nat> {
    match depth {
        Some(d) => Some(d as nat),
        None => None,
    }
}

fn put_field(
    out: &mut Doc,
    id: ActivityId,
    item: &ItemPair<'_>,
    field: &Field,
    label: &ItemLabel,
    depth: Option<usize>,
)
    ensures
        final(out)@ == old(out)@ + field_text(
            id,
            item.model(),
            *field,
            label.model(),
            depth_of(depth),
        ),
{
    let ghost start = out@;
    let v = field_value(id, item, field, field.jx_fmt, label, ABSENT_XML);
    match depth {
        None => {
            out.put(" ");
            out.put(field.attr);
            out.put("=\"");
            put_escaped(out, &v);
            out.put("\"");
        },
        Some(d) => {
            out.put(indent(d).as_str());
            out.put("<");
            out.put(field.attr);
            out.put(">");
            put_escaped(out, &v);
            out.put("</");
            out.put(field.attr);
            out.put(">\n");
        },
    }
    assert(out@ =~= start + field_text(
        id,
        item.model(),
        *field,
        label.model(),
        depth_of(depth),
    ));
}

/// The first `n` fields of a section that are shown.
pub open spec fn section_fields(
    cfg: SadfConfig,
    id: ActivityId,
    item: ItemModel,
    fields: Seq<Field>,
    label: LabelModel,
    depth: Option<nat>,
    n: int,
) -> Seq<Glyph>
    decreases n,
{
    if n <= 0 {
        Seq::empty()
    } else {
        let before = section_fields(cfg, id, item, fields, label, depth, n - 1);
        if xml_field(cfg, fields[n - 1]) {
            before + field_text(id, item, fields[n - 1], label, depth)
        } else {
            before
        }
    }
}

fn put_section_fields(
    out: &mut Doc,
    cfg: &SadfConfig,
    spec_of: &ActivitySpec,
    section: &Section,
    item: &ItemPair<'_>,
    depth: Option<usize>,
)
    requires
        ordered(section.model()),
    ensures
        final(out)@ == old(out)@ + section_fields(
            *cfg,
            spec_of.id,
            item.model(),
            nested_fields(section.model()),
            label_in(spec_of.item, section.model(), item.model()),
            depth_of(depth),
            nested_fields(section.model()).len() as int,
        ),
{
    let label = item_label_in(spec_of, section, item);
    let fields = jx_fields(section);
    let ghost start = out@;
    let ghost id = spec_of.id;
    let ghost d = depth_of(depth);
    let mut i: usize = 0;
    assert(start =~= start + section_fields(*cfg, id, item.model(), fields@, label.model(), d, 0));
    while i < fields.len()
        invariant
            i <= fields@.len(),
            id == spec_of.id,
            d == depth_of(depth),
            out@ == start + section_fields(
                *cfg,
                id,
                item.model(),
                fields@,
                label.model(),
                d,
                i as int,
            ),
        decreases fields.len() - i,
    {
        let field = fields[i];
        let ghost before = section_fields(
            *cfg,
            id,
            item.model(),
            fields@,
            label.model(),
            d,
            i as int,
        );
        if !field.attr.is_empty() && cfg.section.allows_field(field.gate) {
            put_field(out, spec_of.id, item, &field, &label, depth);
            assert(out@ =~= start + (before + field_text(
                id,
                item.model(),
                field,
                label.model(),
                d,
            )));
        }
        i = i + 1;
    }
}

/// The fields of the sections in `at` that are shown.
pub open spec fn item_fields(
    cfg: SadfConfig,
    m: SpecModel,
    item: ItemModel,
    depth: Option<nat>,
    at: Seq<int>,
) -> Seq<Glyph>
    decreases at.len(),
{
    if at.len() == 0 {
        Seq::empty()
    } else {
        let section = m.sections[at.last()];
        item_fields(cfg, m, item, depth, at.drop_last()) + section_fields(
            cfg,
            m.id,
            item,
            nested_fields(section),
            label_in(m.item, section, item),
            depth,
            nested_fields(section).len() as int,
        )
    }
}

fn put_item_fields(
    out: &mut Doc,
    cfg: &SadfConfig,
    spec_of: &ActivitySpec,
    item: &ItemPair<'_>,
    depth: Option<usize>,
)
    requires
        all_ordered(spec_of.model()),
    ensures
        final(out)@ == old(out)@ + item_fields(
            *cfg,
            spec_of.model(),
            item.model(),
            depth_of(depth),
            spec_of.model().active(cfg.section),
        ),
{
    let at = spec_of.active_positions(&cfg.section);
    let ghost want = spec_of.model().active(cfg.section);
    let ghost m = spec_of.model();
    let ghost d = depth_of(depth);
    let ghost start = out@;
    let mut k: usize = 0;
    assert(want.take(0) =~= Seq::empty());
    assert(out@ =~= start + item_fields(*cfg, m, item.model(), d, want.take(0)));
    while k < at.len()
        invariant
            k <= at@.len(),
            m == spec_of.model(),
            d == depth_of(depth),
            all_ordered(m),
            at@.len() == want.len(),
            forall|j: int|
                0 <= j < at@.len() ==> #[trigger] at@[j] == want[j] && at@[j]
                    < spec_of.sections@.len(),
            out@ == start + item_fields(*cfg, m, item.model(), d, want.take(k as int)),
        decreases at.len() - k,
    {
        let ghost before = item_fields(*cfg, m, item.model(), d, want.take(k as int));
        let ghost had = out@;
        proof {
            assert(want.take(k + 1).drop_last() =~= want.take(k as int));
            assert(want.take(k + 1).last() == want[k as int]);
            assert(m.sections[want[k as int]] == spec_of.sections@[at@[k as int] as int].model());
            assert(ordered(m.sections[want[k as int]]));
        }
        put_section_fields(out, cfg, spec_of, &spec_of.sections[at[k]], item, depth);
        proof {
            let section = m.sections[want[k as int]];
            let add = section_fields(
                *cfg,
                m.id,
                item.model(),
                nested_fields(section),
                label_in(m.item, section, item.model()),
                d,
                nested_fields(section).len() as int,
            );
            assert(out@ =~= start + (before + add));
        }
        k = k + 1;
    }
    assert(want.take(at@.len() as int) =~= want);
}

/// The elements of a list of items.
pub open spec fn item_elements(cfg: SadfConfig, m: SpecModel, items: Seq<ItemModel>, depth: nat) -> Seq<
    Glyph,
>
    decreases items.len(),
{
    if items.len() == 0 {
        Seq::empty()
    } else {
        item_elements(cfg, m, items.drop_last(), depth) + chars(tabs(depth)) + chars("<"@) + chars(
            m.xml_child@,
        ) + item_fields(cfg, m, items.last(), None, m.active(cfg.section)) + chars("/>\n"@)
    }
}

fn put_item_elements(
    out: &mut Doc,
    cfg: &SadfConfig,
    spec_of: &ActivitySpec,
    items: &Vec<ItemPair<'_>>,
    depth: usize,
)
    requires
        all_ordered(spec_of.model()),
    ensures
        final(out)@ == old(out)@ + item_elements(
            *cfg,
            spec_of.model(),
            item_models(items@),
            depth as nat,
        ),
{
    let t = indent(depth);
    let ghost all = item_models(items@);
    let ghost m = spec_of.model();
    let ghost start = out@;
    let mut i: usize = 0;
    assert(all.take(0) =~= Seq::empty());
    assert(out@ =~= start + item_elements(*cfg, m, all.take(0), depth as nat));
    while i < items.len()
        invariant
            i <= items@.len(),
            all == item_models(items@),
            m == spec_of.model(),
            all_ordered(m),
            t@ == tabs(depth as nat),
            out@ == start + item_elements(*cfg, m, all.take(i as int), depth as nat),
        decreases items.len() - i,
    {
        let ghost before = item_elements(*cfg, m, all.take(i as int), depth as nat);
        proof {
            assert(all.take(i + 1).drop_last() =~= all.take(i as int));
            assert(all.take(i + 1).last() == items@[i as int].model());
        }
        out.put(t.as_str());
        out.put("<");
        out.put(spec_of.xml_child);
        put_item_fields(out, cfg, spec_of, &items[i], None);
        out.put("/>\n");
        proof {
            let add = item_fields(
                *cfg,
                m,
                items@[i as int].model(),
                None,
                m.active(cfg.section),
            );
            assert(out@ =~= start + (before + chars(t@) + chars("<"@) + chars(m.xml_child@) + add
                + chars("/>\n"@)));
        }
        i = i + 1;
    }
    assert(all.take(items@.len() as int) =~= all);
}

/// The rate of a column.
pub open spec fn xml_rate(item: ItemModel, name: Seq<char>) -> Seq<Glyph> {
    value_shown(item.computed_by_name(name), Fmt::R2, ABSENT_XML@).glyphs()
}

fn put_rate(out: &mut Doc, item: &ItemPair<'_>, name: &str)
    ensures
        final(out)@ == old(out)@ + xml_rate(item.model(), name@),
{
    show_value(item.computed_by_name(name), Fmt::R2, ABSENT_XML).put(out);
}

/// Transfer rates, nested by kind.
pub open spec fn io_body(item: ItemModel, depth: nat) -> Seq<Glyph> {
    chars(tabs(depth)) + chars("<io per=\"second\">\n"@) + chars(tabs(depth + 1)) + chars("<tps>"@)
        + xml_rate(item, "tps"@) + chars("</tps>\n"@) + chars(tabs(depth + 1)) + chars(
        "<io-reads rtps=\""@,
    ) + xml_rate(item, "rtps"@) + chars("\" bread=\""@) + xml_rate(item, "bread"@) + chars(
        "\"/>\n"@,
    ) + chars(tabs(depth + 1)) + chars("<io-writes wtps=\""@) + xml_rate(item, "wtps"@) + chars(
        "\" bwrtn=\""@,
    ) + xml_rate(item, "bwrtn"@) + chars("\"/>\n"@) + chars(tabs(depth + 1)) + chars(
        "<io-discard dtps=\""@,
    ) + xml_rate(item, "dtps"@) + chars("\" bdscd=\""@) + xml_rate(item, "bdscd"@) + chars(
        "\"/>\n"@,
    ) + chars(tabs(depth)) + chars("</io>\n"@)
}

fn make_io_body(item: &ItemPair<'_>, depth: usize) -> (r: Doc)
    requires
        depth < usize::MAX,
    ensures
        r@ == io_body(item.model(), depth as nat),
{
    let t = indent(depth);
    let c = indent(depth + 1);
    let mut out = Doc::of(t.as_str());
    out.put("<io per=\"second\">\n");
    out.put(c.as_str());
    out.put("<tps>");
    put_rate(&mut out, item, "tps");
    out.put("</tps>\n");
    out.put(c.as_str());
    out.put("<io-reads rtps=\"");
    put_rate(&mut out, item, "rtps");
    out.put("\" bread=\"");
    put_rate(&mut out, item, "bread");
    out.put("\"/>\n");
    out.put(c.as_str());
    out.put("<io-writes wtps=\"");
    put_rate(&mut out, item, "wtps");
    out.put("\" bwrtn=\"");
    put_rate(&mut out, item, "bwrtn");
    out.put("\"/>\n");
    out.put(c.as_str());
    out.put("<io-discard dtps=\"");
    put_rate(&mut out, item, "dtps");
    out.put("\" bdscd=\"");
    put_rate(&mut out, item, "bdscd");
    out.put("\"/>\n");
    out.put(t.as_str());
    out.put("</io>\n");
    out
}

/// The elements of an interrupt on the first `n` CPUs.
pub open spec fn irq_elements(
    cfg: SadfConfig,
    pair: ActivityPair<'_>,
    irq: int,
    depth: nat,
    n: int,
) -> Seq<Glyph>
    decreases n,
{
    if n <= 0 {
        Seq::empty()
    } else {
        let before = irq_elements(cfg, pair, irq, depth, n - 1);
        if irq_cpu_passes(cfg, pair, n - 1, false) {
            before + chars(tabs(depth)) + chars("<irq intr=\""@) + chars(
                escaped(irq_title(pair, irq)),
            ) + chars("\" cpu=\""@) + chars(cpu_label(n - 1).jx) + chars("\" value=\""@)
                + irq_value(pair, n - 1, irq, ABSENT_XML@).glyphs() + chars("\"/>\n"@)
        } else {
            before
        }
    }
}

fn put_irq_elements(
    out: &mut Doc,
    cfg: &SadfConfig,
    pair: &ActivityPair<'_>,
    irq: usize,
    name: &str,
    depth: usize,
    nr: usize,
)
    requires
        name@ == irq_title(*pair, irq as int),
    ensures
        final(out)@ == old(out)@ + irq_elements(
            *cfg,
            *pair,
            irq as int,
            depth as nat,
            nr as int,
        ),
{
    let t = indent(depth);
    let title = esc(name);
    let ghost start = out@;
    let mut cpu: usize = 0;
    assert(out@ =~= start + irq_elements(*cfg, *pair, irq as int, depth as nat, 0));
    while cpu < nr
        invariant
            cpu <= nr,
            t@ == tabs(depth as nat),
            title@ == escaped(irq_title(*pair, irq as int)),
            out@ == start + irq_elements(*cfg, *pair, irq as int, depth as nat, cpu as int),
        decreases nr - cpu,
    {
        let ghost before = irq_elements(*cfg, *pair, irq as int, depth as nat, cpu as int);
        if irq_cpu_selected(cfg, pair, cpu, false) {
            let label = ItemLabel::cpu(cpu);
            let v = show_irq(pair, cpu, irq, ABSENT_XML);
            out.put(t.as_str());
            out.put("<irq intr=\"");
            out.put(title.as_str());
            out.put("\" cpu=\"");
            out.put(label.jx.as_str());
            out.put("\" value=\"");
            v.put(out);
            out.put("\"/>\n");
            assert(out@ =~= start + (before + chars(t@) + chars("<irq intr=\""@) + chars(title@)
                + chars("\" cpu=\""@) + chars(label.jx@) + chars("\" value=\""@)
                + v.model().glyphs() + chars("\"/>\n"@)));
        }
        cpu = cpu + 1;
    }
}

/// The elements of the first `n` interrupts.
pub open spec fn irq_list(cfg: SadfConfig, pair: ActivityPair<'_>, depth: nat, n: int) -> Seq<Glyph>
    decreases n,
{
    if n <= 0 {
        Seq::empty()
    } else {
        let before = irq_list(cfg, pair, depth, n - 1);
        let nr = irq_size(pair).0;
        if any_irq_cpu(cfg, pair, nr, false) && name_passes(
            cfg.item_names@,
            ActivityId::IRQ,
            irq_title(pair, n - 1),
        ) {
            before + irq_elements(cfg, pair, n - 1, depth, nr)
        } else {
            before
        }
    }
}

/// Interrupts: an element for each interrupt on each CPU.
pub open spec fn irq_body(cfg: SadfConfig, pair: ActivityPair<'_>, depth: nat) -> Seq<Glyph> {
    chars(tabs(depth)) + chars("<interrupts>\n"@) + chars(tabs(depth + 1)) + chars(
        "<int-global per=\"second\">\n"@,
    ) + irq_list(cfg, pair, depth + 2, irq_size(pair).1) + chars(tabs(depth + 1)) + chars(
        "</int-global>\n"@,
    ) + chars(tabs(depth)) + chars("</interrupts>\n"@)
}

fn make_irq_body(cfg: &SadfConfig, pair: &ActivityPair<'_>, depth: usize) -> (r: Doc)
    requires
        depth < usize::MAX - 1,
    ensures
        r@ == irq_body(*cfg, *pair, depth as nat),
{
    let t = indent(depth);
    let mid = indent(depth + 1);
    let mut out = Doc::of(t.as_str());
    out.put("<interrupts>\n");
    out.put(mid.as_str());
    out.put("<int-global per=\"second\">\n");
    let (nr, nr2) = irq_dimensions(pair);
    let ghost start = out@;
    let mut irq: usize = 0;
    assert(out@ =~= start + irq_list(*cfg, *pair, (depth + 2) as nat, 0));
    while irq < nr2
        invariant
            irq <= nr2,
            depth < usize::MAX - 1,
            (nr as int, nr2 as int) == irq_size(*pair),
            out@ == start + irq_list(*cfg, *pair, (depth + 2) as nat, irq as int),
        decreases nr2 - irq,
    {
        let ghost before = irq_list(*cfg, *pair, (depth + 2) as nat, irq as int);
        let name = irq_name(pair, irq);
        if any_irq_cpu_selected(cfg, pair, nr, false) && cfg.name_selected(
            ActivityId::IRQ,
            name.as_str(),
        ) {
            put_irq_elements(&mut out, cfg, pair, irq, name.as_str(), depth + 2, nr);
            assert(out@ =~= start + (before + irq_elements(
                *cfg,
                *pair,
                irq as int,
                (depth + 2) as nat,
                nr as int,
            )));
        }
        irq = irq + 1;
    }
    out.put(mid.as_str());
    out.put("</int-global>\n");
    out.put(t.as_str());
    out.put("</interrupts>\n");
    out
}

/// An activity in an interval; nothing where the record does not hold it. Within the network
/// group a list has no element of its own.
pub open spec fn activity_body(
    cfg: SadfConfig,
    m: SpecModel,
    pair: ActivityPair<'_>,
    depth: nat,
) -> Seq<Glyph> {
    match pair.item_at(0, 0) {
        None => Seq::empty(),
        Some(item) => {
            let open = chars(tabs(depth)) + chars("<"@) + chars(m.xml_elem@) + chars(
                m.xml_wrapper_attrs@,
            );
            let close = chars(tabs(depth)) + chars("</"@) + chars(m.xml_elem@) + chars(">\n"@);
            match m.shape {
                Shape::Object => open + item_fields(
                    cfg,
                    m,
                    item,
                    None,
                    m.active(cfg.section),
                ) + chars("/>\n"@),
                Shape::TextChildren => open + chars(">\n"@) + item_fields(
                    cfg,
                    m,
                    item,
                    Some(depth + 1),
                    m.active(cfg.section),
                ) + close,
                Shape::Array => {
                    let items = items_shown(cfg, m.item, pair, false);
                    if m.group == Group::Network {
                        item_elements(cfg, m, items, depth)
                    } else {
                        open + chars(">\n"@) + item_elements(cfg, m, items, depth + 1) + close
                    }
                },
                Shape::Custom => if m.id == ActivityId::IO {
                    io_body(item, depth)
                } else if m.id == ActivityId::IRQ {
                    irq_body(cfg, pair, depth)
                } else {
                    Seq::empty()
                },
            }
        },
    }
}

fn put_open(out: &mut Doc, spec_of: &ActivitySpec, depth: usize)
    ensures
        final(out)@ == old(out)@ + (chars(tabs(depth as nat)) + chars("<"@) + chars(
            spec_of.xml_elem@,
        ) + chars(spec_of.xml_wrapper_attrs@)),
{
    let ghost start = out@;
    out.put(indent(depth).as_str());
    out.put("<");
    out.put(spec_of.xml_elem);
    out.put(spec_of.xml_wrapper_attrs);
    assert(out@ =~= start + (chars(tabs(depth as nat)) + chars("<"@) + chars(spec_of.xml_elem@)
        + chars(spec_of.xml_wrapper_attrs@)));
}

fn put_close(out: &mut Doc, spec_of: &ActivitySpec, depth: usize)
    ensures
        final(out)@ == old(out)@ + (chars(tabs(depth as nat)) + chars("</"@) + chars(
            spec_of.xml_elem@,
        ) + chars(">\n"@)),
{
    let ghost start = out@;
    out.put(indent(depth).as_str());
    out.put("</");
    out.put(spec_of.xml_elem);
    out.put(">\n");
    assert(out@ =~= start + (chars(tabs(depth as nat)) + chars("</"@) + chars(spec_of.xml_elem@)
        + chars(">\n"@)));
}

/// An activity in an interval.
pub fn make_body(
    cfg: &SadfConfig,
    spec_of: &ActivitySpec,
    pair: &ActivityPair<'_>,
    depth: usize,
) -> (r: Doc)
    requires
        spec_of.id == pair.id,
        all_ordered(spec_of.model()),
        depth < usize::MAX - 1,
    ensures
        r@ == activity_body(*cfg, spec_of.model(), *pair, depth as nat),
{
    let mut out = Doc::new();
    let item = match pair.item(0) {
        Some(item) => item,
        None => {
            return out;
        },
    };
    match spec_of.shape {
        Shape::Object => {
            put_open(&mut out, spec_of, depth);
            put_item_fields(&mut out, cfg, spec_of, &item, None);
            out.put("/>\n");
        },
        Shape::TextChildren => {
            put_open(&mut out, spec_of, depth);
            out.put(">\n");
            put_item_fields(&mut out, cfg, spec_of, &item, Some(depth + 1));
            put_close(&mut out, spec_of, depth);
        },
        Shape::Array => {
            let items = selected_items(pair, spec_of, cfg, false);
            if spec_of.group == Group::Network {
                put_item_elements(&mut out, cfg, spec_of, &items, depth);
            } else {
                put_open(&mut out, spec_of, depth);
                out.put(">\n");
                put_item_elements(&mut out, cfg, spec_of, &items, depth + 1);
                put_close(&mut out, spec_of, depth);
            }
        },
        Shape::Custom => match spec_of.id {
            ActivityId::IO => {
                return make_io_body(&item, depth);
            },
            ActivityId::IRQ => {
                return make_irq_body(cfg, pair, depth);
            },
            _ => {},
        },
    }
    assert(out@ =~= activity_body(*cfg, spec_of.model(), *pair, depth as nat));
    out
}

/// The end of a group.
pub open spec fn group_end(group: Group) -> Seq<Glyph> {
    if group == Group::Ungrouped {
        Seq::empty()
    } else {
        chars("\t\t\t\t</"@ + group.name() + ">\n"@)
    }
}

/// The start of a group.
pub open spec fn group_start(group: Group) -> Seq<Glyph> {
    if group == Group::Ungrouped {
        Seq::empty()
    } else {
        chars("\t\t\t\t<"@ + group.name() + group.attributes() + ">\n"@)
    }
}

fn put_group_end(out: &mut Doc, group: Group)
    ensures
        final(out)@ == old(out)@ + group_end(group),
{
    if group == Group::Ungrouped {
        assert(out@ =~= out@ + Seq::<Glyph>::empty());
        return;
    }
    let mut line = "\t\t\t\t</".to_owned();
    line.append(group.tag());
    line.append(">\n");
    out.put(line.as_str());
}

fn put_group_start(out: &mut Doc, group: Group)
    ensures
        final(out)@ == old(out)@ + group_start(group),
{
    if group == Group::Ungrouped {
        assert(out@ =~= out@ + Seq::<Glyph>::empty());
        return;
    }
    let mut line = "\t\t\t\t<".to_owned();
    line.append(group.tag());
    line.append(group.xml_attrs());
    line.append(">\n");
    out.put(line.as_str());
}

/// How far an activity is indented: one step more within a group.
pub open spec fn depth_in(group: Group) -> nat {
    if group == Group::Ungrouped {
        4
    } else {
        5
    }
}

/// What has been written of a record.
#[verifier::ext_equal]
pub struct Body {
    pub text: Seq<Glyph>,
    /// The group that is open.
    pub group: Group,
}

/// What has been written after one more activity. An activity that the record does not hold
/// neither opens nor ends a group.
pub open spec fn body_after(
    cfg: SadfConfig,
    file: SaFile,
    view: IntervalView,
    b: Body,
    entry: ActEntry,
) -> Body {
    match (table(entry.id), pair_of(entry, file, view)) {
        (Some(m), Some(pair)) => if pair.items_now().len() == 0 {
            b
        } else {
            let own = activity_body(cfg, m, pair, depth_in(m.group));
            if m.group == b.group {
                Body { text: b.text + own, group: b.group }
            } else {
                Body {
                    text: b.text + group_end(b.group) + group_start(m.group) + own,
                    group: m.group,
                }
            }
        },
        _ => b,
    }
}

/// What has been written after the first `n` activities.
pub open spec fn body_upto(
    cfg: SadfConfig,
    file: SaFile,
    view: IntervalView,
    entries: Seq<ActEntry>,
    n: int,
) -> Body
    decreases n,
{
    if n <= 0 {
        Body { text: Seq::empty(), group: Group::Ungrouped }
    } else {
        body_after(cfg, file, view, body_upto(cfg, file, view, entries, n - 1), entries[n - 1])
    }
}

/// The activities of a record.
pub open spec fn sample_body(cfg: SadfConfig, file: SaFile, view: IntervalView) -> Seq<Glyph> {
    let acts = entries_of(file, cfg, act_order().len() as int);
    let b = body_upto(cfg, file, view, acts, acts.len() as int);
    b.text + group_end(b.group)
}

/// The activities of a record.
pub fn write_sample(cfg: &SadfConfig, file: &SaFile, view: &IntervalView) -> (r: Doc)
    ensures
        r@ == sample_body(*cfg, *file, *view),
{
    let acts = act_entries(file, cfg);
    let mut out = Doc::new();
    let mut open = Group::Ungrouped;
    let mut i: usize = 0;
    while i < acts.len()
        invariant
            i <= acts@.len(),
            (Body { text: out@, group: open }) == body_upto(
                *cfg,
                *file,
                *view,
                acts@,
                i as int,
            ),
        decreases acts.len() - i,
    {
        let act = acts[i];
        proof {
            law_table_is_of_its_activity(act.id);
            law_field_order(act.id);
        }
        match (lookup(act.id), act.pair(file, view)) {
            (Some(s), Some(pair)) => if !pair.is_empty() {
                let depth: usize = if s.group == Group::Ungrouped {
                    4
                } else {
                    5
                };
                let body = make_body(cfg, &s, &pair, depth);
                if s.group != open {
                    put_group_end(&mut out, open);
                    open = s.group;
                    put_group_start(&mut out, open);
                }
                out.join(body);
            },
            _ => {},
        }
        i = i + 1;
    }
    put_group_end(&mut out, open);
    out
}

/// A part of what is written of a record.
pub enum Part {
    Start(Group),
    End(Group),
    /// What is written of an activity, and the group that it belongs to.
    Own(Group, Seq<Glyph>),
}

/// Parts one after the other.
pub open spec fn flat(parts: Seq<Part>) -> Seq<Glyph>
    decreases parts.len(),
{
    if parts.len() == 0 {
        Seq::empty()
    } else {
        flat(parts.drop_last()) + match parts.last() {
            Part::Start(g) => group_start(g),
            Part::End(g) => group_end(g),
            Part::Own(_, text) => text,
        }
    }
}

/// The group that is open after parts; `None` where one starts within another, an end is not
/// that of the group that is open, or an activity stands outside its group.
pub open spec fn open_group(parts: Seq<Part>) -> Option<Group>
    decreases parts.len(),
{
    if parts.len() == 0 {
        Some(Group::Ungrouped)
    } else {
        match (open_group(parts.drop_last()), parts.last()) {
            (Some(Group::Ungrouped), Part::Start(g)) => Some(g),
            (Some(open), Part::End(g)) => if open == g {
                Some(Group::Ungrouped)
            } else {
                None
            },
            (Some(open), Part::Own(g, _)) => if open == g {
                Some(open)
            } else {
                None
            },
            _ => None,
        }
    }
}

proof fn lemma_part(parts: Seq<Part>, x: Part)
    ensures
        flat(parts.push(x)) == flat(parts) + (match x {
            Part::Start(g) => group_start(g),
            Part::End(g) => group_end(g),
            Part::Own(_, text) => text,
        }),
        open_group(parts.push(x)) == (match (open_group(parts), x) {
            (Some(Group::Ungrouped), Part::Start(g)) => Some(g),
            (Some(open), Part::End(g)) => if open == g {
                Some(Group::Ungrouped)
            } else {
                None
            },
            (Some(open), Part::Own(g, _)) => if open == g {
                Some(open)
            } else {
                None
            },
            _ => None,
        }),
{
    assert(parts.push(x).drop_last() =~= parts);
}

proof fn lemma_body_parts(
    cfg: SadfConfig,
    file: SaFile,
    view: IntervalView,
    entries: Seq<ActEntry>,
    n: int,
) -> (parts: Seq<Part>)
    requires
        n <= entries.len(),
    ensures
        flat(parts) == body_upto(cfg, file, view, entries, n).text,
        open_group(parts) == Some(body_upto(cfg, file, view, entries, n).group),
    decreases n,
{
    if n <= 0 {
        Seq::empty()
    } else {
        let before = lemma_body_parts(cfg, file, view, entries, n - 1);
        let b = body_upto(cfg, file, view, entries, n - 1);
        let entry = entries[n - 1];
        match (table(entry.id), pair_of(entry, file, view)) {
            (Some(m), Some(pair)) => if pair.items_now().len() == 0 {
                before
            } else {
                let own = activity_body(cfg, m, pair, depth_in(m.group));
                if m.group == b.group {
                    lemma_part(before, Part::Own(m.group, own));
                    before.push(Part::Own(m.group, own))
                } else {
                    let closed = before.push(Part::End(b.group));
                    let opened = closed.push(Part::Start(m.group));
                    lemma_part(before, Part::End(b.group));
                    lemma_part(closed, Part::Start(m.group));
                    lemma_part(opened, Part::Own(m.group, own));
                    opened.push(Part::Own(m.group, own))
                }
            },
            _ => before,
        }
    }
}

/// Each group that starts in a record ends in it before another starts, and each activity
/// stands within its group.
pub proof fn law_groups_are_closed(cfg: SadfConfig, file: SaFile, view: IntervalView)
    ensures
        exists|parts: Seq<Part>|
            sample_body(cfg, file, view) == #[trigger] flat(parts) && open_group(parts) == Some(
                Group::Ungrouped,
            ),
{
    let acts = entries_of(file, cfg, act_order().len() as int);
    let before = lemma_body_parts(cfg, file, view, acts, acts.len() as int);
    let b = body_upto(cfg, file, view, acts, acts.len() as int);
    lemma_part(before, Part::End(b.group));
    assert(sample_body(cfg, file, view) == flat(before.push(Part::End(b.group))));
}

/// A time, as attributes.
pub open spec fn time_attributes(cfg: SadfConfig, info: FileInfo, t: RecordTime) -> Seq<char> {
    let s = stamp_of(cfg.time_base, t, info);
    " date=\""@ + s.date + "\" time=\""@ + s.time + "\" tz=\""@ + escaped(s.tz) + "\""@
}

fn make_time(cfg: &SadfConfig, info: &FileInfo, t: &RecordTime) -> (r: String)
    ensures
        r@ == time_attributes(*cfg, *info, *t),
{
    let s = Stamp::new(cfg.time_base, t, info);
    let mut out = " date=\"".to_owned();
    out.append(s.date.as_str());
    out.append("\" time=\"");
    out.append(s.time.as_str());
    out.append("\" tz=\"");
    out.append(esc(s.tz.as_str()).as_str());
    out.append("\"");
    out
}

/// A record.
pub open spec fn timestamp_text(
    cfg: SadfConfig,
    info: FileInfo,
    file: SaFile,
    t: RecordTime,
    view: IntervalView,
) -> Seq<Glyph> {
    chars(
        "\t\t\t<timestamp"@ + time_attributes(cfg, info, t) + " interval=\""@ + dec(
            rounded_seconds(view.itv_cs) as nat,
        ) + "\">\n"@,
    ) + sample_body(cfg, file, view) + chars("\t\t\t</timestamp>\n"@)
}

fn put_timestamp(
    out: &mut Doc,
    cfg: &SadfConfig,
    info: &FileInfo,
    file: &SaFile,
    t: &RecordTime,
    view: &IntervalView,
)
    ensures
        final(out)@ == old(out)@ + timestamp_text(*cfg, *info, *file, *t, *view),
{
    let ghost start = out@;
    let mut head = "\t\t\t<timestamp".to_owned();
    head.append(make_time(cfg, info, t).as_str());
    head.append(" interval=\"");
    push_dec(&mut head, interval_secs(view.itv_cs));
    head.append("\">\n");
    out.put(head.as_str());
    out.join(write_sample(cfg, file, view));
    out.put("\t\t\t</timestamp>\n");
    assert(out@ =~= start + timestamp_text(*cfg, *info, *file, *t, *view));
}

/// What is shown for a sample: nothing where it is not shown.
pub open spec fn statistics_entry(
    cfg: SadfConfig,
    info: FileInfo,
    file: SaFile,
    recs: Seq<Rec>,
    entry: Entry,
) -> Seq<Glyph> {
    match entry {
        Entry::Hidden { .. } => Seq::empty(),
        Entry::Shown { rec, prev } => match view_of(file, rec, prev) {
            Some(view) => if rec < recs.len() {
                timestamp_text(cfg, info, file, recs[rec as int].time, view)
            } else {
                Seq::empty()
            },
            None => Seq::empty(),
        },
    }
}

/// What is shown for the first `n` samples.
pub open spec fn statistics(
    cfg: SadfConfig,
    info: FileInfo,
    file: SaFile,
    recs: Seq<Rec>,
    entries: Seq<Entry>,
    n: int,
) -> Seq<Glyph>
    decreases n,
{
    if n <= 0 {
        Seq::empty()
    } else {
        statistics(cfg, info, file, recs, entries, n - 1) + statistics_entry(
            cfg,
            info,
            file,
            recs,
            entries[n - 1],
        )
    }
}

/// What stands before the samples.
pub open spec fn prologue(info: FileInfo) -> Seq<char> {
    "<?xml version=\"1.0\" encoding=\"UTF-8\"?>\n"@ + "<sysstat\n"@
        + "xmlns=\"https://sysstat.github.io\"\n"@
        + "xmlns:xsi=\"http://www.w3.org/2001/XMLSchema-instance\"\n"@
        + "xsi:schemaLocation=\"https://sysstat.github.io https://sysstat.github.io/sysstat.xsd\">\n"@
        + "\t<sysdata-version>"@ + XML_DTD_VERSION@ + "</sysdata-version>\n"@
        + "\t<host nodename=\""@ + escaped(info.nodename@) + "\">\n"@ + "\t\t<sysname>"@ + escaped(
        info.sysname@,
    ) + "</sysname>\n"@ + "\t\t<release>"@ + escaped(info.release@) + "</release>\n"@
        + "\t\t<machine>"@ + escaped(info.machine@) + "</machine>\n"@ + "\t\t<number-of-cpus>"@
        + dec(info.cpu_count as nat) + "</number-of-cpus>\n"@ + "\t\t<file-date>"@ + info.file_date@
        + "</file-date>\n"@ + "\t\t<file-utc-time>"@ + info.file_utc_time@ + "</file-utc-time>\n"@
        + "\t\t<timezone>"@ + escaped(info.tzname@) + "</timezone>\n"@ + "\t\t<statistics>\n"@
}

/// What stands before the samples.
pub fn write_prologue(info: &FileInfo) -> (r: String)
    ensures
        r@ == prologue(*info),
{
    let mut out = "<?xml version=\"1.0\" encoding=\"UTF-8\"?>\n".to_owned();
    out.append("<sysstat\n");
    out.append("xmlns=\"https://sysstat.github.io\"\n");
    out.append("xmlns:xsi=\"http://www.w3.org/2001/XMLSchema-instance\"\n");
    out.append(
        "xsi:schemaLocation=\"https://sysstat.github.io https://sysstat.github.io/sysstat.xsd\">\n",
    );
    out.append("\t<sysdata-version>");
    out.append(XML_DTD_VERSION);
    out.append("</sysdata-version>\n");
    out.append("\t<host nodename=\"");
    out.append(esc(info.nodename.as_str()).as_str());
    out.append("\">\n");
    out.append("\t\t<sysname>");
    out.append(esc(info.sysname.as_str()).as_str());
    out.append("</sysname>\n");
    out.append("\t\t<release>");
    out.append(esc(info.release.as_str()).as_str());
    out.append("</release>\n");
    out.append("\t\t<machine>");
    out.append(esc(info.machine.as_str()).as_str());
    out.append("</machine>\n");
    out.append("\t\t<number-of-cpus>");
    push_dec(&mut out, info.cpu_count as u64);
    out.append("</number-of-cpus>\n");
    out.append("\t\t<file-date>");
    out.append(info.file_date.as_str());
    out.append("</file-date>\n");
    out.append("\t\t<file-utc-time>");
    out.append(info.file_utc_time.as_str());
    out.append("</file-utc-time>\n");
    out.append("\t\t<timezone>");
    out.append(esc(info.tzname.as_str()).as_str());
    out.append("</timezone>\n");
    out.append("\t\t<statistics>\n");
    out
}

/// The first `n` restarts.
pub open spec fn boots(
    cfg: SadfConfig,
    info: FileInfo,
    recs: Seq<Rec>,
    list: Seq<RestartEntry>,
    n: int,
) -> Seq<char>
    decreases n,
{
    if n <= 0 {
        Seq::empty()
    } else {
        let before = boots(cfg, info, recs, list, n - 1);
        let e = list[n - 1];
        if e.rec < recs.len() {
            before + "\t\t\t<boot"@ + time_attributes(cfg, info, recs[e.rec as int].time)
                + " cpu_count=\""@ + dec(cpu_count(e.cpu_nr) as nat) + "\"/>\n"@
        } else {
            before
        }
    }
}

/// The first `n` comments.
pub open spec fn remarks(
    cfg: SadfConfig,
    info: FileInfo,
    recs: Seq<Rec>,
    list: Seq<usize>,
    n: int,
) -> Seq<char>
    decreases n,
{
    if n <= 0 {
        Seq::empty()
    } else {
        let before = remarks(cfg, info, recs, list, n - 1);
        let at = list[n - 1];
        if at < recs.len() {
            before + "\t\t\t<comment"@ + time_attributes(cfg, info, recs[at as int].time)
                + " com=\""@ + escaped(comment_of(recs[at as int])) + "\"/>\n"@
        } else {
            before
        }
    }
}

/// What stands behind the samples: the restarts, and the comments where they are shown.
pub open spec fn epilogue(
    cfg: SadfConfig,
    info: FileInfo,
    recs: Seq<Rec>,
    restarts: Seq<RestartEntry>,
    comments: Seq<usize>,
) -> Seq<char> {
    let head = "\t\t</statistics>\n\t\t<restarts>\n"@ + boots(
        cfg,
        info,
        recs,
        restarts,
        restarts.len() as int,
    ) + "\t\t</restarts>\n"@;
    (if cfg.comments {
        head + "\t\t<comments>\n"@ + remarks(cfg, info, recs, comments, comments.len() as int)
            + "\t\t</comments>\n"@
    } else {
        head
    }) + "\t</host>\n</sysstat>\n"@
}

/// What stands behind the samples.
pub fn write_epilogue(
    cfg: &SadfConfig,
    info: &FileInfo,
    recs: &Vec<Rec>,
    restarts: &Vec<RestartEntry>,
    comments: &Vec<usize>,
) -> (r: String)
    ensures
        r@ == epilogue(*cfg, *info, recs@, restarts@, comments@),
{
    let mut out = "\t\t</statistics>\n\t\t<restarts>\n".to_owned();
    let ghost start = out@;
    let mut i: usize = 0;
    assert(out@ =~= start + boots(*cfg, *info, recs@, restarts@, 0));
    while i < restarts.len()
        invariant
            i <= restarts@.len(),
            out@ == start + boots(*cfg, *info, recs@, restarts@, i as int),
        decreases restarts.len() - i,
    {
        let ghost before = boots(*cfg, *info, recs@, restarts@, i as int);
        let e = restarts[i];
        if e.rec < recs.len() {
            let time = make_time(cfg, info, &recs[e.rec].time);
            out.append("\t\t\t<boot");
            out.append(time.as_str());
            out.append(" cpu_count=\"");
            push_dec(&mut out, display_cpu_count(e.cpu_nr) as u64);
            out.append("\"/>\n");
            assert(out@ =~= start + (before + "\t\t\t<boot"@ + time@ + " cpu_count=\""@ + dec(
                cpu_count(e.cpu_nr) as nat,
            ) + "\"/>\n"@));
        }
        i = i + 1;
    }
    out.append("\t\t</restarts>\n");
    if cfg.comments {
        out.append("\t\t<comments>\n");
        let ghost start = out@;
        let mut k: usize = 0;
        assert(out@ =~= start + remarks(*cfg, *info, recs@, comments@, 0));
        while k < comments.len()
            invariant
                k <= comments@.len(),
                out@ == start + remarks(*cfg, *info, recs@, comments@, k as int),
            decreases comments.len() - k,
        {
            let ghost before = remarks(*cfg, *info, recs@, comments@, k as int);
            let at: usize = comments[k];
            if at < recs.len() {
                let time = make_time(cfg, info, &recs[at].time);
                let text = esc(comment_str(&recs[at]));
                out.append("\t\t\t<comment");
                out.append(time.as_str());
                out.append(" com=\"");
                out.append(text.as_str());
                out.append("\"/>\n");
                assert(out@ =~= start + (before + "\t\t\t<comment"@ + time@ + " com=\""@ + text@
                    + "\"/>\n"@));
            }
            k = k + 1;
        }
        out.append("\t\t</comments>\n");
    }
    out.append("\t</host>\n</sysstat>\n");
    out
}

/// The XML output of the records of a file.
pub open spec fn xml_text(
    cfg: SadfConfig,
    info: FileInfo,
    file: SaFile,
    recs: Seq<Rec>,
    select: RecordSelect,
) -> Seq<Glyph> {
    let n = recs.len() as int;
    let entries = entries_from(recs, select, 0);
    chars(prologue(info)) + statistics(cfg, info, file, recs, entries, entries.len() as int)
        + chars(
        epilogue(
            cfg,
            info,
            recs,
            restarts_upto(recs, file.header.cpu_nr, n),
            if cfg.comments {
                comments_upto(recs, n)
            } else {
                Seq::empty()
            },
        ),
    )
}

/// The XML output of the records of a file.
pub fn write_records(
    cfg: &SadfConfig,
    info: &FileInfo,
    file: &SaFile,
    index: &RecordIndex,
    select: RecordSelect,
) -> (r: Doc)
    ensures
        r@ == xml_text(*cfg, *info, *file, index.recs@, select),
{
    let recs = &index.recs;
    let (entries, specials) = run(index, select, cfg.comments, file.header.cpu_nr);
    let mut out = Doc::of(write_prologue(info).as_str());
    let ghost start = out@;
    let mut i: usize = 0;
    assert(out@ =~= start + statistics(*cfg, *info, *file, recs@, entries@, 0));
    while i < entries.len()
        invariant
            i <= entries@.len(),
            out@ == start + statistics(*cfg, *info, *file, recs@, entries@, i as int),
        decreases entries.len() - i,
    {
        let ghost before = statistics(*cfg, *info, *file, recs@, entries@, i as int);
        let ghost had = out@;
        assert(had =~= start + (before + Seq::<Glyph>::empty()));
        if let Entry::Shown { rec, prev } = entries[i] {
            match find_view(file, rec, prev) {
                Some(view) => if rec < recs.len() {
                    put_timestamp(&mut out, cfg, info, file, &recs[rec].time, view);
                    assert(out@ =~= start + (before + timestamp_text(
                        *cfg,
                        *info,
                        *file,
                        recs@[rec as int].time,
                        *view,
                    )));
                },
                None => {},
            }
        }
        i = i + 1;
    }
    let tail = write_epilogue(cfg, info, recs, &specials.restarts, &specials.comments);
    out.put(tail.as_str());
    out
}

/// Whether `shown` is the XML output of a file.
pub open spec fn is_xml_output(
    shown: Seq<Glyph>,
    file: SaFile,
    cfg: SadfConfig,
    select: RecordSelect,
    local_tz: Seq<char>,
) -> bool {
    exists|index: RecordIndex, info: FileInfo|
        indexes(index, file.records@, Seq::empty(), false, file.records@.len() as int)
            && info.describes(file.header, cfg.time_base, local_tz) && shown
            == #[trigger] xml_text(cfg, info, file, index.recs@, select)
}

/// The XML format.
pub fn write_xml(file: &SaFile, cfg: &SadfConfig, local_tz: &str) -> (r: Doc)
    ensures
        is_xml_output(r@, *file, *cfg, every_record(), local_tz@),
{
    let extra = SadfExtra { select: RecordSelect::default(), local_tz: local_tz.to_owned() };
    write_xml_with(file, cfg, &extra)
}

/// The XML format, of the records that `extra` selects.
pub fn write_xml_with(file: &SaFile, cfg: &SadfConfig, extra: &SadfExtra) -> (r: Doc)
    ensures
        is_xml_output(r@, *file, *cfg, extra.select, extra.local_tz@),
{
    let info = FileInfo::from_file_with(&file.header, cfg.time_base, extra.local_tz.as_str());
    let followed: Vec<ActivityId> = Vec::new();
    let index = RecordIndex::build(&file.records, &followed, false);
    assert(followed@ =~= Seq::empty());
    write_records(cfg, &info, file, &index, extra.select)
}

}
