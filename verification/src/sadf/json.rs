//! The JSON format.

use vstd::prelude::*;

use crate::clock::RecordTime;
use crate::doc::{chars, doc_views, join_docs, joined, Doc, Glyph};
use crate::model::ActivityId;
use crate::sadf::access::{item_models, ActivityPair, IntervalView, ItemModel, ItemPair};
use crate::sadf::config::{SadfConfig, SadfExtra};
use crate::sadf::dbppc::{comment_of, comment_str, display_cpu_count, irq_value, show_irq};
use crate::sadf::file::{
    act_entries, entries_of, find_view, pair_of, view_of, ActEntry, SaFile,
};
use crate::sadf::items::{
    any_irq_cpu, any_irq_cpu_selected, irq_cpu_passes, irq_cpu_selected, irq_dimensions, irq_name,
    irq_size, irq_title, items_shown, selected_items,
};
use crate::sadf::logic1::{comments_upto, entries_from, restarts_upto, run, Entry, RestartEntry};
use crate::sadf::raw::{cpu_title, cpu_title_text};
use crate::sadf::records::{indexes, Rec, RecordIndex};
use crate::sadf::render::{
    field_shown, field_value, item_label_in, jx_fields, label_in, nested_fields, ordered,
};
use crate::sadf::select::{every_record, RecordSelect};
use crate::sadf::stamp::{interval_secs, rounded_seconds, stamp_of, FileInfo, Stamp};
use crate::sadf::table::{
    act_order, law_table_is_of_its_activity, lookup, table, ActivitySpec, Field, Fmt, Group,
    Section, Shape, SpecModel,
};
use crate::sadf::table_laws::{all_ordered, law_field_order};
use crate::sadf::value::{
    show_value, value_shown, ItemLabel, LabelModel, Shown, ShownModel, ABSENT_JSON,
};
use crate::sar_text::header::cpu_count;
use crate::sar_text::options::name_passes;
use crate::text::{dec, hex, hex_text, push_char, push_dec, repeated, push_repeated, zero_fill, zero_filled};

verus! {

/// A character within a JSON string.
pub open spec fn escaped_char(c: char) -> Seq<char> {
    if c == '"' {
        "\\\""@
    } else if c == '\\' {
        "\\\\"@
    } else if c == '\n' {
        "\\n"@
    } else if c == '\r' {
        "\\r"@
    } else if c == '\t' {
        "\\t"@
    } else if (c as u32) < 32 {
        "\\u"@ + zero_filled(hex(c as u32 as nat), 4)
    } else {
        seq![c]
    }
}

/// A text within a JSON string.
pub open spec fn escaped(s: Seq<char>) -> Seq<char>
    decreases s.len(),
{
    if s.len() == 0 {
        Seq::empty()
    } else {
        escaped(s.drop_last()) + escaped_char(s.last())
    }
}

/// A text within a JSON string.
pub fn esc(s: &str) -> (r: String)
    ensures
        r@ == escaped(s@),
{
    let mut out = String::new();
    proof {
        assert(s@.take(0) =~= Seq::<char>::empty());
    }
    for c in iter: s.chars()
        invariant
            iter.seq() == s@,
            out@ == escaped(s@.take(iter.index())),
    {
        let ghost i = iter.index();
        let ghost before = out@;
        proof {
            assert(s@.take(i + 1).drop_last() =~= s@.take(i));
            assert(s@.take(i + 1).last() == c);
        }
        if c == '"' {
            out.append("\\\"");
        } else if c == '\\' {
            out.append("\\\\");
        } else if c == '\n' {
            out.append("\\n");
        } else if c == '\r' {
            out.append("\\r");
        } else if c == '\t' {
            out.append("\\t");
        } else if (c as u32) < 32 {
            out.append("\\u");
            let code = hex_text(c as u32 as u64);
            out.append(zero_fill(code.as_str(), 4).as_str());
            assert(out@ =~= before + escaped_char(c));
        } else {
            push_char(&mut out, c);
            assert(out@ =~= before + escaped_char(c));
        }
    }
    assert(s@.take(s@.len() as int) =~= s@);
    out
}

/// How far a JSON string has been read: within it, behind a backslash, or past its end.
pub enum Reading {
    Within,
    Escape,
    Past,
}

/// Reads one character of a JSON string. A quote ends the string, and no control character may
/// stand in it.
pub open spec fn read_char(r: Reading, c: char) -> Reading {
    match r {
        Reading::Past => Reading::Past,
        Reading::Escape => Reading::Within,
        Reading::Within => if c == '\\' {
            Reading::Escape
        } else if c == '"' || (c as u32) < 32 {
            Reading::Past
        } else {
            Reading::Within
        },
    }
}

/// Reads a text of a JSON string.
pub open spec fn read_text(s: Seq<char>) -> Reading
    decreases s.len(),
{
    if s.len() == 0 {
        Reading::Within
    } else {
        read_char(read_text(s.drop_last()), s.last())
    }
}

proof fn lemma_read_push(s: Seq<char>, c: char)
    ensures
        read_text(s.push(c)) == read_char(read_text(s), c),
{
    assert(s.push(c).drop_last() =~= s);
}

proof fn lemma_read_plain(s: Seq<char>, t: Seq<char>)
    requires
        read_text(s) == Reading::Within,
        forall|i: int| 0 <= i < t.len() ==> (#[trigger] t[i]) as u32 >= 32 && t[i] != '"' && t[i] != '\\',
    ensures
        read_text(s + t) == Reading::Within,
    decreases t.len(),
{
    if t.len() == 0 {
        assert(s + t =~= s);
    } else {
        lemma_read_plain(s, t.drop_last());
        assert(s + t =~= (s + t.drop_last()).push(t.last()));
        lemma_read_push(s + t.drop_last(), t.last());
    }
}

/// The code of a control character is two hexadecimal digits at most.
proof fn lemma_control_code(n: nat)
    requires
        n < 32,
    ensures
        forall|i: int|
            0 <= i < zero_filled(hex(n), 4).len() ==> (#[trigger] zero_filled(
                hex(n),
                4,
            )[i]) as u32 >= 32 && zero_filled(hex(n), 4)[i] != '"' && zero_filled(hex(n), 4)[i]
                != '\\',
{
    reveal_with_fuel(hex, 3);
}

/// No text ends the string that it stands in: read within a JSON string, an escaped text leaves
/// the reader within the string.
pub proof fn law_escaped_text_stays_within(s: Seq<char>)
    ensures
        read_text(escaped(s)) == Reading::Within,
    decreases s.len(),
{
    if s.len() > 0 {
        law_escaped_text_stays_within(s.drop_last());
        let before = escaped(s.drop_last());
        let c = s.last();
        reveal_strlit("\\\"");
        reveal_strlit("\\\\");
        reveal_strlit("\\n");
        reveal_strlit("\\r");
        reveal_strlit("\\t");
        reveal_strlit("\\u");
        lemma_read_push(before, '\\');
        if c == '"' || c == '\\' || c == '\n' || c == '\r' || c == '\t' {
            let second = escaped_char(c)[1];
            assert(escaped_char(c) =~= seq!['\\', second]);
            assert(before + escaped_char(c) =~= before.push('\\').push(second));
            lemma_read_push(before.push('\\'), second);
        } else if (c as u32) < 32 {
            let code = zero_filled(hex(c as u32 as nat), 4);
            lemma_read_push(before.push('\\'), 'u');
            lemma_control_code(c as u32 as nat);
            lemma_read_plain(before.push('\\').push('u'), code);
            assert(before + escaped_char(c) =~= before.push('\\').push('u') + code);
        } else {
            lemma_read_push(before, c);
            assert(before + escaped_char(c) =~= before.push(c));
        }
    }
}

/// Indentation.
pub open spec fn tabs(n: nat) -> Seq<char> {
    repeated('\t', n)
}

/// Indentation.
pub fn indent(n: usize) -> (r: String)
    ensures
        r@ == tabs(n as nat),
{
    let mut out = String::new();
    push_repeated(&mut out, '\t', n);
    assert(out@ =~= tabs(n as nat));
    out
}

/// Whether a value is written in quotes.
pub open spec fn is_quoted(fmt: Fmt) -> bool {
    fmt == Fmt::Str || fmt == Fmt::ItemKeyStr || fmt == Fmt::Hex
}

/// A value with its text escaped.
pub open spec fn escaped_value(v: ShownModel) -> Seq<Glyph> {
    match v {
        ShownModel::Text(t) => chars(escaped(t)),
        ShownModel::Number(_) => v.glyphs(),
    }
}

/// A field with its key. A text that is missing is an empty one.
pub open spec fn member(
    id: ActivityId,
    item: ItemModel,
    field: Field,
    label: LabelModel,
) -> Seq<Glyph> {
    if is_quoted(field.jx_fmt) {
        chars("\""@) + chars(field.key@) + chars("\": \""@) + escaped_value(
            field_shown(id, item, field, field.jx_fmt, label, ""@),
        ) + chars("\""@)
    } else {
        chars("\""@) + chars(field.key@) + chars("\": "@) + field_shown(
            id,
            item,
            field,
            field.jx_fmt,
            label,
            ABSENT_JSON@,
        ).glyphs()
    }
}

fn put_escaped(out: &mut Doc, v: &Shown)
    ensures
        final(out)@ == old(out)@ + escaped_value(v.model()),
{
    match v {
        Shown::Text(t) => out.put(esc(t.as_str()).as_str()),
        Shown::Number(n) => out.put_number(*n),
    }
}

fn make_member(id: ActivityId, item: &ItemPair<'_>, field: &Field, label: &ItemLabel) -> (r: Doc)
    ensures
        r@ == member(id, item.model(), *field, label.model()),
{
    let mut out = Doc::new();
    out.put("\"");
    out.put(field.key);
    match field.jx_fmt {
        Fmt::Str | Fmt::ItemKeyStr | Fmt::Hex => {
            let v = field_value(id, item, field, field.jx_fmt, label, "");
            out.put("\": \"");
            put_escaped(&mut out, &v);
            out.put("\"");
        },
        _ => {
            let v = field_value(id, item, field, field.jx_fmt, label, ABSENT_JSON);
            out.put("\": ");
            v.put(&mut out);
        },
    }
    assert(out@ =~= member(id, item.model(), *field, label.model()));
    out
}

/// Whether JSON shows a field.
pub open spec fn json_field(cfg: SadfConfig, field: Field) -> bool {
    field.key@.len() > 0 && cfg.section.opens_field(field.gate)
}

/// The first `n` fields of a section that are shown.
pub open spec fn section_members(
    cfg: SadfConfig,
    id: ActivityId,
    item: ItemModel,
    fields: Seq<Field>,
    label: LabelModel,
    n: int,
) -> Seq<Seq<Glyph>>
    decreases n,
{
    if n <= 0 {
        Seq::empty()
    } else {
        let before = section_members(cfg, id, item, fields, label, n - 1);
        if json_field(cfg, fields[n - 1]) {
            before.push(member(id, item, fields[n - 1], label))
        } else {
            before
        }
    }
}

fn push_section_members(
    out: &mut Vec<Doc>,
    cfg: &SadfConfig,
    spec_of: &ActivitySpec,
    section: &Section,
    item: &ItemPair<'_>,
)
    requires
        ordered(section.model()),
    ensures
        doc_views(final(out)@) == doc_views(old(out)@) + section_members(
            *cfg,
            spec_of.id,
            item.model(),
            nested_fields(section.model()),
            label_in(spec_of.item, section.model(), item.model()),
            nested_fields(section.model()).len() as int,
        ),
{
    let label = item_label_in(spec_of, section, item);
    let fields = jx_fields(section);
    let ghost start = doc_views(out@);
    let ghost id = spec_of.id;
    let mut i: usize = 0;
    assert(start =~= start + section_members(*cfg, id, item.model(), fields@, label.model(), 0));
    while i < fields.len()
        invariant
            i <= fields@.len(),
            id == spec_of.id,
            doc_views(out@) == start + section_members(
                *cfg,
                id,
                item.model(),
                fields@,
                label.model(),
                i as int,
            ),
        decreases fields.len() - i,
    {
        let field = fields[i];
        let ghost before = section_members(
            *cfg,
            id,
            item.model(),
            fields@,
            label.model(),
            i as int,
        );
        if !field.key.is_empty() && cfg.section.allows_field(field.gate) {
            let ghost had = doc_views(out@);
            let m = make_member(spec_of.id, item, &field, &label);
            out.push(m);
            proof {
                assert(doc_views(out@) =~= had.push(m@));
                assert(had.push(m@) =~= start + before.push(m@));
            }
        }
        i = i + 1;
    }
}

/// The fields of the sections in `at` that are shown.
pub open spec fn item_members(
    cfg: SadfConfig,
    m: SpecModel,
    item: ItemModel,
    at: Seq<int>,
) -> Seq<Seq<Glyph>>
    decreases at.len(),
{
    if at.len() == 0 {
        Seq::empty()
    } else {
        let section = m.sections[at.last()];
        item_members(cfg, m, item, at.drop_last()) + section_members(
            cfg,
            m.id,
            item,
            nested_fields(section),
            label_in(m.item, section, item),
            nested_fields(section).len() as int,
        )
    }
}

fn make_item_members(cfg: &SadfConfig, spec_of: &ActivitySpec, item: &ItemPair<'_>) -> (r: Vec<
    Doc,
>)
    requires
        all_ordered(spec_of.model()),
    ensures
        doc_views(r@) == item_members(
            *cfg,
            spec_of.model(),
            item.model(),
            spec_of.model().active(cfg.section),
        ),
{
    let at = spec_of.active_positions(&cfg.section);
    let ghost want = spec_of.model().active(cfg.section);
    let ghost m = spec_of.model();
    let mut out: Vec<Doc> = Vec::new();
    let mut k: usize = 0;
    assert(want.take(0) =~= Seq::empty());
    assert(doc_views(out@) =~= item_members(*cfg, m, item.model(), want.take(0)));
    while k < at.len()
        invariant
            k <= at@.len(),
            m == spec_of.model(),
            all_ordered(m),
            at@.len() == want.len(),
            forall|j: int|
                0 <= j < at@.len() ==> #[trigger] at@[j] == want[j] && at@[j]
                    < spec_of.sections@.len(),
            doc_views(out@) == item_members(*cfg, m, item.model(), want.take(k as int)),
        decreases at.len() - k,
    {
        proof {
            assert(want.take(k + 1).drop_last() =~= want.take(k as int));
            assert(want.take(k + 1).last() == want[k as int]);
            assert(m.sections[want[k as int]] == spec_of.sections@[at@[k as int] as int].model());
            assert(ordered(m.sections[want[k as int]]));
        }
        push_section_members(&mut out, cfg, spec_of, &spec_of.sections[at[k]], item);
        k = k + 1;
    }
    assert(want.take(at@.len() as int) =~= want);
    out
}

/// Members within braces.
pub open spec fn braced(members: Seq<Seq<Glyph>>) -> Seq<Glyph> {
    chars("{"@) + joined(members, ", "@) + chars("}"@)
}

fn put_braced(out: &mut Doc, members: Vec<Doc>)
    ensures
        final(out)@ == old(out)@ + braced(doc_views(members@)),
{
    let ghost start = out@;
    out.put("{");
    out.join(join_docs(members, ", "));
    out.put("}");
    assert(out@ =~= start + braced(doc_views(members@)));
}

/// A list with a row on each line.
pub open spec fn listed_rows(key: Seq<char>, rows: Seq<Seq<Glyph>>, tab: nat) -> Seq<Glyph> {
    chars(tabs(tab)) + chars("\""@) + chars(key) + chars("\": [\n"@) + joined(rows, ",\n"@) + chars(
        "\n"@,
    ) + chars(tabs(tab)) + chars("]"@)
}

fn make_list(key: &str, rows: Vec<Doc>, tab: usize) -> (r: Doc)
    ensures
        r@ == listed_rows(key@, doc_views(rows@), tab as nat),
{
    let t = indent(tab);
    let mut out = Doc::new();
    out.put(t.as_str());
    out.put("\"");
    out.put(key);
    out.put("\": [\n");
    out.join(join_docs(rows, ",\n"));
    out.put("\n");
    out.put(t.as_str());
    out.put("]");
    assert(out@ =~= listed_rows(key@, doc_views(rows@), tab as nat));
    out
}

/// The rows of a list of items.
pub open spec fn item_rows(cfg: SadfConfig, m: SpecModel, items: Seq<ItemModel>, tab: nat) -> Seq<
    Seq<Glyph>,
>
    decreases items.len(),
{
    if items.len() == 0 {
        Seq::empty()
    } else {
        item_rows(cfg, m, items.drop_last(), tab).push(
            chars(tabs(tab)) + braced(
                item_members(cfg, m, items.last(), m.active(cfg.section)),
            ),
        )
    }
}

fn make_item_rows(
    cfg: &SadfConfig,
    spec_of: &ActivitySpec,
    items: &Vec<ItemPair<'_>>,
    tab: usize,
) -> (r: Vec<Doc>)
    requires
        all_ordered(spec_of.model()),
    ensures
        doc_views(r@) == item_rows(*cfg, spec_of.model(), item_models(items@), tab as nat),
{
    let t = indent(tab);
    let ghost all = item_models(items@);
    let ghost m = spec_of.model();
    let mut out: Vec<Doc> = Vec::new();
    let mut i: usize = 0;
    assert(all.take(0) =~= Seq::empty());
    assert(doc_views(out@) =~= item_rows(*cfg, m, all.take(0), tab as nat));
    while i < items.len()
        invariant
            i <= items@.len(),
            all == item_models(items@),
            m == spec_of.model(),
            all_ordered(m),
            t@ == tabs(tab as nat),
            doc_views(out@) == item_rows(*cfg, m, all.take(i as int), tab as nat),
        decreases items.len() - i,
    {
        let ghost had = doc_views(out@);
        proof {
            assert(all.take(i + 1).drop_last() =~= all.take(i as int));
            assert(all.take(i + 1).last() == items@[i as int].model());
        }
        let mut row = Doc::of(t.as_str());
        put_braced(&mut row, make_item_members(cfg, spec_of, &items[i]));
        out.push(row);
        assert(doc_views(out@) =~= had.push(row@));
        i = i + 1;
    }
    assert(all.take(items@.len() as int) =~= all);
    out
}

/// The rate of a column.
pub open spec fn json_rate(item: ItemModel, name: Seq<char>) -> Seq<Glyph> {
    value_shown(item.computed_by_name(name), Fmt::R2, ABSENT_JSON@).glyphs()
}

fn put_rate(out: &mut Doc, item: &ItemPair<'_>, name: &str)
    ensures
        final(out)@ == old(out)@ + json_rate(item.model(), name@),
{
    show_value(item.computed_by_name(name), Fmt::R2, ABSENT_JSON).put(out);
}

/// Transfer rates, nested by kind.
pub open spec fn io_block(item: ItemModel, tab: nat) -> Seq<Glyph> {
    chars(tabs(tab)) + chars("\"io\": {\"tps\": "@) + json_rate(item, "tps"@) + chars(
        ", \"io-reads\": {\"rtps\": "@,
    ) + json_rate(item, "rtps"@) + chars(", \"bread\": "@) + json_rate(item, "bread"@) + chars(
        "}, \"io-writes\": {\"wtps\": "@,
    ) + json_rate(item, "wtps"@) + chars(", \"bwrtn\": "@) + json_rate(item, "bwrtn"@) + chars(
        "}, \"io-discard\": {\"dtps\": "@,
    ) + json_rate(item, "dtps"@) + chars(", \"bdscd\": "@) + json_rate(item, "bdscd"@) + chars(
        "}}"@,
    )
}

fn make_io_block(item: &ItemPair<'_>, tab: usize) -> (r: Doc)
    ensures
        r@ == io_block(item.model(), tab as nat),
{
    let mut out = Doc::of(indent(tab).as_str());
    out.put("\"io\": {\"tps\": ");
    put_rate(&mut out, item, "tps");
    out.put(", \"io-reads\": {\"rtps\": ");
    put_rate(&mut out, item, "rtps");
    out.put(", \"bread\": ");
    put_rate(&mut out, item, "bread");
    out.put("}, \"io-writes\": {\"wtps\": ");
    put_rate(&mut out, item, "wtps");
    out.put(", \"bwrtn\": ");
    put_rate(&mut out, item, "bwrtn");
    out.put("}, \"io-discard\": {\"dtps\": ");
    put_rate(&mut out, item, "dtps");
    out.put(", \"bdscd\": ");
    put_rate(&mut out, item, "bdscd");
    out.put("}}");
    out
}

/// The counts of an interrupt on the first `n` CPUs that are shown.
pub open spec fn irq_members(cfg: SadfConfig, pair: ActivityPair<'_>, irq: int, n: int) -> Seq<
    Seq<Glyph>,
>
    decreases n,
{
    if n <= 0 {
        seq![
            chars("\"intr\": \""@) + chars(escaped(irq_title(pair, irq))) + chars("\""@),
        ]
    } else {
        let before = irq_members(cfg, pair, irq, n - 1);
        if irq_cpu_passes(cfg, pair, n - 1, false) {
            before.push(
                chars("\""@) + chars(cpu_title(n - 1)) + chars("\": "@) + irq_value(
                    pair,
                    n - 1,
                    irq,
                    ABSENT_JSON@,
                ).glyphs(),
            )
        } else {
            before
        }
    }
}

fn make_irq_members(
    cfg: &SadfConfig,
    pair: &ActivityPair<'_>,
    irq: usize,
    name: &str,
    nr: usize,
) -> (r: Vec<Doc>)
    requires
        name@ == irq_title(*pair, irq as int),
    ensures
        doc_views(r@) == irq_members(*cfg, *pair, irq as int, nr as int),
{
    let mut out: Vec<Doc> = Vec::new();
    let mut first = Doc::of("\"intr\": \"");
    first.put(esc(name).as_str());
    first.put("\"");
    out.push(first);
    let mut cpu: usize = 0;
    assert(doc_views(out@) =~= irq_members(*cfg, *pair, irq as int, 0));
    while cpu < nr
        invariant
            cpu <= nr,
            doc_views(out@) == irq_members(*cfg, *pair, irq as int, cpu as int),
        decreases nr - cpu,
    {
        if irq_cpu_selected(cfg, pair, cpu, false) {
            let ghost had = doc_views(out@);
            let mut m = Doc::of("\"");
            m.put(cpu_title_text(cpu).as_str());
            m.put("\": ");
            show_irq(pair, cpu, irq, ABSENT_JSON).put(&mut m);
            out.push(m);
            assert(doc_views(out@) =~= had.push(m@));
        }
        cpu = cpu + 1;
    }
    out
}

/// The rows of the first `n` interrupts.
pub open spec fn irq_rows(cfg: SadfConfig, pair: ActivityPair<'_>, tab: nat, n: int) -> Seq<
    Seq<Glyph>,
>
    decreases n,
{
    if n <= 0 {
        Seq::empty()
    } else {
        let before = irq_rows(cfg, pair, tab, n - 1);
        let nr = irq_size(pair).0;
        if any_irq_cpu(cfg, pair, nr, false) && name_passes(
            cfg.item_names@,
            ActivityId::IRQ,
            irq_title(pair, n - 1),
        ) {
            before.push(chars(tabs(tab)) + braced(irq_members(cfg, pair, n - 1, nr)))
        } else {
            before
        }
    }
}

fn make_irq_rows(cfg: &SadfConfig, pair: &ActivityPair<'_>, tab: usize) -> (r: Vec<Doc>)
    ensures
        doc_views(r@) == irq_rows(*cfg, *pair, tab as nat, irq_size(*pair).1),
{
    let t = indent(tab);
    let (nr, nr2) = irq_dimensions(pair);
    let mut out: Vec<Doc> = Vec::new();
    let mut irq: usize = 0;
    assert(doc_views(out@) =~= irq_rows(*cfg, *pair, tab as nat, 0));
    while irq < nr2
        invariant
            irq <= nr2,
            (nr as int, nr2 as int) == irq_size(*pair),
            t@ == tabs(tab as nat),
            doc_views(out@) == irq_rows(*cfg, *pair, tab as nat, irq as int),
        decreases nr2 - irq,
    {
        let name = irq_name(pair, irq);
        if any_irq_cpu_selected(cfg, pair, nr, false) && cfg.name_selected(
            ActivityId::IRQ,
            name.as_str(),
        ) {
            let ghost had = doc_views(out@);
            let mut row = Doc::of(t.as_str());
            put_braced(&mut row, make_irq_members(cfg, pair, irq, name.as_str(), nr));
            out.push(row);
            assert(doc_views(out@) =~= had.push(row@));
        }
        irq = irq + 1;
    }
    out
}

/// An activity in an interval; `None` where the record does not hold it.
pub open spec fn activity_block(
    cfg: SadfConfig,
    m: SpecModel,
    pair: ActivityPair<'_>,
    tab: nat,
) -> Option<Seq<Glyph>> {
    match pair.item_at(0, 0) {
        None => None,
        Some(item) => match m.shape {
            Shape::Object | Shape::TextChildren => Some(
                chars(tabs(tab)) + chars("\""@) + chars(m.json_key@) + chars("\": "@) + braced(
                    item_members(cfg, m, item, m.active(cfg.section)),
                ),
            ),
            Shape::Array => Some(
                listed_rows(
                    m.json_key@,
                    item_rows(cfg, m, items_shown(cfg, m.item, pair, false), tab + 1),
                    tab,
                ),
            ),
            Shape::Custom => if m.id == ActivityId::IO {
                Some(io_block(item, tab))
            } else if m.id == ActivityId::IRQ {
                Some(
                    listed_rows(
                        m.json_key@,
                        irq_rows(cfg, pair, tab + 1, irq_size(pair).1),
                        tab,
                    ),
                )
            } else {
                None
            },
        },
    }
}

/// What a document holds, where there is one.
pub open spec fn doc_view(d: Option<Doc>) -> Option<Seq<Glyph>> {
    match d {
        Some(x) => Some(x@),
        None => None,
    }
}

/// An activity in an interval; `None` where the record does not hold it.
pub fn make_block(
    cfg: &SadfConfig,
    spec_of: &ActivitySpec,
    pair: &ActivityPair<'_>,
    tab: usize,
) -> (r: Option<Doc>)
    requires
        spec_of.id == pair.id,
        all_ordered(spec_of.model()),
        tab < usize::MAX,
    ensures
        doc_view(r) == activity_block(*cfg, spec_of.model(), *pair, tab as nat),
{
    let item = match pair.item(0) {
        Some(item) => item,
        None => {
            return None;
        },
    };
    match spec_of.shape {
        Shape::Object | Shape::TextChildren => {
            let mut out = Doc::of(indent(tab).as_str());
            out.put("\"");
            out.put(spec_of.json_key);
            out.put("\": ");
            put_braced(&mut out, make_item_members(cfg, spec_of, &item));
            Some(out)
        },
        Shape::Array => {
            let items = selected_items(pair, spec_of, cfg, false);
            Some(make_list(spec_of.json_key, make_item_rows(cfg, spec_of, &items, tab + 1), tab))
        },
        Shape::Custom => match spec_of.id {
            ActivityId::IO => Some(make_io_block(&item, tab)),
            ActivityId::IRQ => Some(
                make_list(spec_of.json_key, make_irq_rows(cfg, pair, tab + 1), tab),
            ),
            _ => None,
        },
    }
}

/// How far an activity is indented: one step more within a group.
pub open spec fn tab_of(group: Group) -> nat {
    if group == Group::Ungrouped {
        5
    } else {
        6
    }
}

/// How far an activity is indented.
pub fn group_tab(group: Group) -> (r: usize)
    ensures
        r == tab_of(group),
{
    match group {
        Group::Ungrouped => 5,
        _ => 6,
    }
}

/// A group with its activities.
pub open spec fn group_block(group: Group, children: Seq<Seq<Glyph>>) -> Seq<Glyph> {
    chars(tabs(5)) + chars("\""@) + chars(group.name()) + chars("\": {\n"@) + joined(
        children,
        ",\n"@,
    ) + chars("\n"@) + chars(tabs(5)) + chars("}"@)
}

/// The entries with a group appended. A group without activities is left out.
pub open spec fn with_group(
    entries: Seq<Seq<Glyph>>,
    group: Group,
    children: Seq<Seq<Glyph>>,
) -> Seq<Seq<Glyph>> {
    if group == Group::Ungrouped || children.len() == 0 {
        entries
    } else {
        entries.push(group_block(group, children))
    }
}

/// Appends a group with its activities, and takes them.
pub fn flush_group(entries: &mut Vec<Doc>, group: Group, children: &mut Vec<Doc>)
    ensures
        doc_views(final(entries)@) == with_group(
            doc_views(old(entries)@),
            group,
            doc_views(old(children)@),
        ),
        final(children)@.len() == 0,
{
    let mut taken: Vec<Doc> = Vec::new();
    taken.append(children);
    assert(taken@ =~= old(children)@);
    if group == Group::Ungrouped || taken.len() == 0 {
        return;
    }
    let ghost had = doc_views(entries@);
    let t = indent(5);
    let mut out = Doc::of(t.as_str());
    out.put("\"");
    out.put(group.tag());
    out.put("\": {\n");
    out.join(join_docs(taken, ",\n"));
    out.put("\n");
    out.put(t.as_str());
    out.put("}");
    entries.push(out);
    assert(doc_views(entries@) =~= had.push(out@));
}

/// What has been collected of a record.
#[verifier::ext_equal]
pub struct Body {
    pub entries: Seq<Seq<Glyph>>,
    pub group: Group,
    /// The activities of the group that is open.
    pub children: Seq<Seq<Glyph>>,
}

/// What has been collected after one more activity.
pub open spec fn body_after(
    cfg: SadfConfig,
    file: SaFile,
    view: IntervalView,
    b: Body,
    entry: ActEntry,
) -> Body {
    match table(entry.id) {
        None => b,
        Some(m) => {
            let at = if m.group == b.group {
                b
            } else {
                Body {
                    entries: with_group(b.entries, b.group, b.children),
                    group: m.group,
                    children: Seq::empty(),
                }
            };
            let block = match pair_of(entry, file, view) {
                Some(pair) => activity_block(cfg, m, pair, tab_of(m.group)),
                None => None,
            };
            match block {
                None => at,
                Some(d) => if m.group == Group::Ungrouped {
                    Body { entries: at.entries.push(d), ..at }
                } else {
                    Body { children: at.children.push(d), ..at }
                },
            }
        },
    }
}

/// What has been collected after the first `n` activities.
pub open spec fn body_upto(
    cfg: SadfConfig,
    file: SaFile,
    view: IntervalView,
    first: Seq<Glyph>,
    entries: Seq<ActEntry>,
    n: int,
) -> Body
    decreases n,
{
    if n <= 0 {
        Body { entries: seq![first], group: Group::Ungrouped, children: Seq::empty() }
    } else {
        body_after(
            cfg,
            file,
            view,
            body_upto(cfg, file, view, first, entries, n - 1),
            entries[n - 1],
        )
    }
}

/// The time of a record.
pub open spec fn timestamp_entry(cfg: SadfConfig, info: FileInfo, t: RecordTime, itv_cs: u64) -> Seq<
    char,
> {
    let s = stamp_of(cfg.time_base, t, info);
    "\t\t\t\t\t\"timestamp\": {\"date\": \""@ + s.date + "\", \"time\": \""@ + s.time
        + "\", \"tz\": \""@ + escaped(s.tz) + "\", \"interval\": "@ + dec(
        rounded_seconds(itv_cs) as nat,
    ) + "}"@
}

fn make_timestamp(cfg: &SadfConfig, info: &FileInfo, t: &RecordTime, itv_cs: u64) -> (r: String)
    ensures
        r@ == timestamp_entry(*cfg, *info, *t, itv_cs),
{
    let s = Stamp::new(cfg.time_base, t, info);
    let mut out = "\t\t\t\t\t\"timestamp\": {\"date\": \"".to_owned();
    out.append(s.date.as_str());
    out.append("\", \"time\": \"");
    out.append(s.time.as_str());
    out.append("\", \"tz\": \"");
    out.append(esc(s.tz.as_str()).as_str());
    out.append("\", \"interval\": ");
    push_dec(&mut out, interval_secs(itv_cs));
    out.append("}");
    out
}

/// What is shown of a record.
pub open spec fn sample_text(
    cfg: SadfConfig,
    info: FileInfo,
    file: SaFile,
    t: RecordTime,
    view: IntervalView,
) -> Seq<Glyph> {
    let acts = entries_of(file, cfg, act_order().len() as int);
    let b = body_upto(
        cfg,
        file,
        view,
        chars(timestamp_entry(cfg, info, t, view.itv_cs)),
        acts,
        acts.len() as int,
    );
    joined(with_group(b.entries, b.group, b.children), ",\n"@)
}

/// What is shown of a record.
pub fn sample_body(
    cfg: &SadfConfig,
    info: &FileInfo,
    file: &SaFile,
    t: &RecordTime,
    view: &IntervalView,
) -> (r: Doc)
    ensures
        r@ == sample_text(*cfg, *info, *file, *t, *view),
{
    let acts = act_entries(file, cfg);
    let first = make_timestamp(cfg, info, t, view.itv_cs);
    let mut entries: Vec<Doc> = Vec::new();
    entries.push(Doc::of(first.as_str()));
    let mut open = Group::Ungrouped;
    let mut children: Vec<Doc> = Vec::new();
    let mut i: usize = 0;
    proof {
        let b = body_upto(*cfg, *file, *view, chars(first@), acts@, 0);
        assert(doc_views(entries@) =~= b.entries);
        assert(doc_views(children@) =~= b.children);
    }
    while i < acts.len()
        invariant
            i <= acts@.len(),
            (Body { entries: doc_views(entries@), group: open, children: doc_views(children@) })
                == body_upto(*cfg, *file, *view, chars(first@), acts@, i as int),
        decreases acts.len() - i,
    {
        let ghost b = body_upto(*cfg, *file, *view, chars(first@), acts@, i as int);
        let act = acts[i];
        proof {
            law_table_is_of_its_activity(act.id);
            law_field_order(act.id);
        }
        match lookup(act.id) {
            None => {},
            Some(s) => {
                if s.group != open {
                    flush_group(&mut entries, open, &mut children);
                    open = s.group;
                    assert(doc_views(children@) =~= Seq::empty());
                }
                match act.pair(file, view) {
                    Some(pair) => match make_block(cfg, &s, &pair, group_tab(s.group)) {
                        Some(d) => {
                            if s.group == Group::Ungrouped {
                                let ghost had = doc_views(entries@);
                                entries.push(d);
                                assert(doc_views(entries@) =~= had.push(d@));
                            } else {
                                let ghost had = doc_views(children@);
                                children.push(d);
                                assert(doc_views(children@) =~= had.push(d@));
                            }
                        },
                        None => {},
                    },
                    None => {},
                }
            },
        }
        i = i + 1;
    }
    flush_group(&mut entries, open, &mut children);
    join_docs(entries, ",\n")
}

/// What is shown for a sample: an empty object where it is not shown.
pub open spec fn statistics_entry(
    cfg: SadfConfig,
    info: FileInfo,
    file: SaFile,
    recs: Seq<Rec>,
    entry: Entry,
) -> Seq<Glyph> {
    let empty = chars("\t\t\t\t{\n\t\t\t\t}"@);
    match entry {
        Entry::Hidden { .. } => empty,
        Entry::Shown { rec, prev } => match view_of(file, rec, prev) {
            Some(view) => if rec < recs.len() {
                chars("\t\t\t\t{\n"@) + sample_text(cfg, info, file, recs[rec as int].time, view)
                    + chars("\n\t\t\t\t}"@)
            } else {
                empty
            },
            None => empty,
        },
    }
}

fn make_statistics(
    cfg: &SadfConfig,
    info: &FileInfo,
    file: &SaFile,
    recs: &Vec<Rec>,
    entry: Entry,
) -> (r: Doc)
    ensures
        r@ == statistics_entry(*cfg, *info, *file, recs@, entry),
{
    if let Entry::Shown { rec, prev } = entry {
        match find_view(file, rec, prev) {
            Some(view) => if rec < recs.len() {
                let mut out = Doc::of("\t\t\t\t{\n");
                out.join(sample_body(cfg, info, file, &recs[rec].time, view));
                out.put("\n\t\t\t\t}");
                return out;
            },
            None => {},
        }
    }
    Doc::of("\t\t\t\t{\n\t\t\t\t}")
}

/// What is shown for the first `n` samples.
pub open spec fn statistics(
    cfg: SadfConfig,
    info: FileInfo,
    file: SaFile,
    recs: Seq<Rec>,
    entries: Seq<Entry>,
    n: int,
) -> Seq<Seq<Glyph>>
    decreases n,
{
    if n <= 0 {
        Seq::empty()
    } else {
        statistics(cfg, info, file, recs, entries, n - 1).push(
            statistics_entry(cfg, info, file, recs, entries[n - 1]),
        )
    }
}

/// A key and a text.
pub open spec fn text_line(key: Seq<char>, value: Seq<char>) -> Seq<char> {
    "\t\t\t\""@ + key + "\": \""@ + value + "\",\n"@
}

fn put_text_line(out: &mut Doc, key: &str, value: &str)
    ensures
        final(out)@ == old(out)@ + chars(text_line(key@, value@)),
{
    let mut line = "\t\t\t\"".to_owned();
    line.append(key);
    line.append("\": \"");
    line.append(value);
    line.append("\",\n");
    out.put(line.as_str());
}

/// What stands before the samples.
pub open spec fn prologue(info: FileInfo) -> Seq<Glyph> {
    chars("{\"sysstat\": {\n\t\"hosts\": [\n\t\t{\n"@) + chars(
        text_line("nodename"@, escaped(info.nodename@)),
    ) + chars(text_line("sysname"@, escaped(info.sysname@))) + chars(
        text_line("release"@, escaped(info.release@)),
    ) + chars(text_line("machine"@, escaped(info.machine@))) + chars(
        "\t\t\t\"number-of-cpus\": "@ + dec(info.cpu_count as nat) + ",\n"@,
    ) + chars(text_line("file-date"@, info.file_date@)) + chars(
        text_line("file-utc-time"@, info.file_utc_time@),
    ) + chars(text_line("timezone"@, escaped(info.tzname@))) + chars("\t\t\t\"statistics\": [\n"@)
}

/// What stands before the samples.
pub fn write_prologue(info: &FileInfo) -> (r: Doc)
    ensures
        r@ == prologue(*info),
{
    let mut out = Doc::of("{\"sysstat\": {\n\t\"hosts\": [\n\t\t{\n");
    put_text_line(&mut out, "nodename", esc(info.nodename.as_str()).as_str());
    put_text_line(&mut out, "sysname", esc(info.sysname.as_str()).as_str());
    put_text_line(&mut out, "release", esc(info.release.as_str()).as_str());
    put_text_line(&mut out, "machine", esc(info.machine.as_str()).as_str());
    let mut cpus = "\t\t\t\"number-of-cpus\": ".to_owned();
    push_dec(&mut cpus, info.cpu_count as u64);
    cpus.append(",\n");
    out.put(cpus.as_str());
    put_text_line(&mut out, "file-date", info.file_date.as_str());
    put_text_line(&mut out, "file-utc-time", info.file_utc_time.as_str());
    put_text_line(&mut out, "timezone", esc(info.tzname.as_str()).as_str());
    out.put("\t\t\t\"statistics\": [\n");
    out
}

/// The start of a restart or a comment.
pub open spec fn event_text(cfg: SadfConfig, info: FileInfo, t: RecordTime, key: Seq<char>) -> Seq<char> {
    let s = stamp_of(cfg.time_base, t, info);
    "\t\t\t\t{\n\t\t\t\t\t\""@ + key + "\": {\"date\": \""@ + s.date + "\", \"time\": \""@ + s.time
        + "\", \"tz\": \""@ + escaped(s.tz) + "\", \""@
}

fn start_event(cfg: &SadfConfig, info: &FileInfo, t: &RecordTime, key: &str) -> (r: String)
    ensures
        r@ == event_text(*cfg, *info, *t, key@),
{
    let s = Stamp::new(cfg.time_base, t, info);
    let mut out = "\t\t\t\t{\n\t\t\t\t\t\"".to_owned();
    out.append(key);
    out.append("\": {\"date\": \"");
    out.append(s.date.as_str());
    out.append("\", \"time\": \"");
    out.append(s.time.as_str());
    out.append("\", \"tz\": \"");
    out.append(esc(s.tz.as_str()).as_str());
    out.append("\", \"");
    out
}

/// A restart.
pub open spec fn boot_text(cfg: SadfConfig, info: FileInfo, recs: Seq<Rec>, e: RestartEntry) -> Seq<char> {
    if e.rec < recs.len() {
        event_text(cfg, info, recs[e.rec as int].time, "boot"@) + "cpu_count\": "@ + dec(
            cpu_count(e.cpu_nr) as nat,
        ) + "}\n\t\t\t\t}"@
    } else {
        Seq::empty()
    }
}

fn make_boot(cfg: &SadfConfig, info: &FileInfo, recs: &Vec<Rec>, e: &RestartEntry) -> (r: Doc)
    ensures
        r@ == chars(boot_text(*cfg, *info, recs@, *e)),
{
    if e.rec >= recs.len() {
        let r = Doc::new();
        assert(r@ =~= chars(Seq::empty()));
        return r;
    }
    let mut out = start_event(cfg, info, &recs[e.rec].time, "boot");
    out.append("cpu_count\": ");
    push_dec(&mut out, display_cpu_count(e.cpu_nr) as u64);
    out.append("}\n\t\t\t\t}");
    Doc::of(out.as_str())
}

/// A comment.
pub open spec fn comment_entry(cfg: SadfConfig, info: FileInfo, recs: Seq<Rec>, at: usize) -> Seq<char> {
    if at < recs.len() {
        event_text(cfg, info, recs[at as int].time, "comment"@) + "com\": \""@ + escaped(
            comment_of(recs[at as int]),
        ) + "\"}\n\t\t\t\t}"@
    } else {
        Seq::empty()
    }
}

fn make_comment(cfg: &SadfConfig, info: &FileInfo, recs: &Vec<Rec>, at: usize) -> (r: Doc)
    ensures
        r@ == chars(comment_entry(*cfg, *info, recs@, at)),
{
    if at >= recs.len() {
        let r = Doc::new();
        assert(r@ =~= chars(Seq::empty()));
        return r;
    }
    let mut out = start_event(cfg, info, &recs[at].time, "comment");
    out.append("com\": \"");
    out.append(esc(comment_str(&recs[at])).as_str());
    out.append("\"}\n\t\t\t\t}");
    Doc::of(out.as_str())
}

/// The entries of a list, a line break behind them where there are any.
pub open spec fn listed_entries(list: Seq<Seq<Glyph>>) -> Seq<Glyph> {
    if list.len() == 0 {
        Seq::empty()
    } else {
        joined(list, ",\n"@) + chars("\n"@)
    }
}

fn put_entries(out: &mut Doc, list: Vec<Doc>)
    ensures
        final(out)@ == old(out)@ + listed_entries(doc_views(list@)),
{
    let ghost start = out@;
    if list.len() == 0 {
        assert(out@ =~= out@ + Seq::<Glyph>::empty());
        return;
    }
    out.join(join_docs(list, ",\n"));
    out.put("\n");
    assert(out@ =~= start + listed_entries(doc_views(list@)));
}

/// The restarts.
pub open spec fn boots(cfg: SadfConfig, info: FileInfo, recs: Seq<Rec>, list: Seq<RestartEntry>) -> Seq<
    Seq<Glyph>,
> {
    Seq::new(list.len(), |i: int| chars(boot_text(cfg, info, recs, list[i])))
}

/// The comments.
pub open spec fn remarks(cfg: SadfConfig, info: FileInfo, recs: Seq<Rec>, list: Seq<usize>) -> Seq<
    Seq<Glyph>,
> {
    Seq::new(list.len(), |i: int| chars(comment_entry(cfg, info, recs, list[i])))
}

/// What stands behind the samples: the restarts, and the comments where they are shown.
pub open spec fn epilogue(
    cfg: SadfConfig,
    info: FileInfo,
    recs: Seq<Rec>,
    restarts: Seq<RestartEntry>,
    comments: Seq<usize>,
) -> Seq<Glyph> {
    chars("\t\t\t],\n\t\t\t\"restarts\": [\n"@) + listed_entries(
        boots(cfg, info, recs, restarts),
    ) + (if cfg.comments {
        chars("\t\t\t],\n\t\t\t\"comments\": [\n"@) + listed_entries(
            remarks(cfg, info, recs, comments),
        )
    } else {
        Seq::empty()
    }) + chars("\t\t\t]\n\t\t}\n\t]\n}}\n"@)
}

/// What stands behind the samples.
pub fn write_epilogue(
    cfg: &SadfConfig,
    info: &FileInfo,
    recs: &Vec<Rec>,
    restarts: &Vec<RestartEntry>,
    comments: &Vec<usize>,
) -> (r: Doc)
    ensures
        r@ == epilogue(*cfg, *info, recs@, restarts@, comments@),
{
    let mut out = Doc::of("\t\t\t],\n\t\t\t\"restarts\": [\n");
    let mut list: Vec<Doc> = Vec::new();
    let mut i: usize = 0;
    while i < restarts.len()
        invariant
            i <= restarts@.len(),
            doc_views(list@) == boots(*cfg, *info, recs@, restarts@).take(i as int),
        decreases restarts.len() - i,
    {
        let ghost had = doc_views(list@);
        let d = make_boot(cfg, info, recs, &restarts[i]);
        list.push(d);
        i = i + 1;
        proof {
            assert(doc_views(list@) =~= had.push(d@));
            assert(doc_views(list@) =~= boots(*cfg, *info, recs@, restarts@).take(i as int));
        }
    }
    assert(boots(*cfg, *info, recs@, restarts@).take(i as int) =~= boots(
        *cfg,
        *info,
        recs@,
        restarts@,
    ));
    put_entries(&mut out, list);
    let ghost head = out@;
    if cfg.comments {
        out.put("\t\t\t],\n\t\t\t\"comments\": [\n");
        let mut list: Vec<Doc> = Vec::new();
        let mut i: usize = 0;
        while i < comments.len()
            invariant
                i <= comments@.len(),
                doc_views(list@) == remarks(*cfg, *info, recs@, comments@).take(i as int),
            decreases comments.len() - i,
        {
            let ghost had = doc_views(list@);
            let d = make_comment(cfg, info, recs, comments[i]);
            list.push(d);
            i = i + 1;
            proof {
                assert(doc_views(list@) =~= had.push(d@));
                assert(doc_views(list@) =~= remarks(*cfg, *info, recs@, comments@).take(i as int));
            }
        }
        assert(remarks(*cfg, *info, recs@, comments@).take(i as int) =~= remarks(
            *cfg,
            *info,
            recs@,
            comments@,
        ));
        put_entries(&mut out, list);
    }
    out.put("\t\t\t]\n\t\t}\n\t]\n}}\n");
    assert(out@ =~= epilogue(*cfg, *info, recs@, restarts@, comments@));
    out
}

/// The JSON output of the records of a file.
pub open spec fn json_text(
    cfg: SadfConfig,
    info: FileInfo,
    file: SaFile,
    recs: Seq<Rec>,
    select: RecordSelect,
) -> Seq<Glyph> {
    let n = recs.len() as int;
    let entries = entries_from(recs, select, 0);
    prologue(info) + listed_entries(
        statistics(cfg, info, file, recs, entries, entries.len() as int),
    ) + epilogue(
        cfg,
        info,
        recs,
        restarts_upto(recs, file.header.cpu_nr, n),
        if cfg.comments {
            comments_upto(recs, n)
        } else {
            Seq::empty()
        },
    )
}

/// The JSON output of the records of a file.
pub fn write_records(
    cfg: &SadfConfig,
    info: &FileInfo,
    file: &SaFile,
    index: &RecordIndex,
    select: RecordSelect,
) -> (r: Doc)
    ensures
        r@ == json_text(*cfg, *info, *file, index.recs@, select),
{
    let recs = &index.recs;
    let (entries, specials) = run(index, select, cfg.comments, file.header.cpu_nr);
    let mut out = write_prologue(info);
    let mut list: Vec<Doc> = Vec::new();
    let mut i: usize = 0;
    assert(doc_views(list@) =~= statistics(*cfg, *info, *file, recs@, entries@, 0));
    while i < entries.len()
        invariant
            i <= entries@.len(),
            doc_views(list@) == statistics(*cfg, *info, *file, recs@, entries@, i as int),
        decreases entries.len() - i,
    {
        let ghost had = doc_views(list@);
        let d = make_statistics(cfg, info, file, recs, entries[i]);
        list.push(d);
        assert(doc_views(list@) =~= had.push(d@));
        i = i + 1;
    }
    put_entries(&mut out, list);
    out.join(write_epilogue(cfg, info, recs, &specials.restarts, &specials.comments));
    out
}

/// Whether `shown` is the JSON output of a file.
pub open spec fn is_json_output(
    shown: Seq<Glyph>,
    file: SaFile,
    cfg: SadfConfig,
    select: RecordSelect,
    local_tz: Seq<char>,
) -> bool {
    exists|index: RecordIndex, info: FileInfo|
        indexes(index, file.records@, Seq::empty(), false, file.records@.len() as int)
            && info.describes(file.header, cfg.time_base, local_tz) && shown
            == #[trigger] json_text(cfg, info, file, index.recs@, select)
}

/// The JSON format.
pub fn write_json(file: &SaFile, cfg: &SadfConfig, local_tz: &str) -> (r: Doc)
    ensures
        is_json_output(r@, *file, *cfg, every_record(), local_tz@),
{
    let extra = SadfExtra { select: RecordSelect::default(), local_tz: local_tz.to_owned() };
    write_json_with(file, cfg, &extra)
}

/// The JSON format, of the records that `extra` selects.
pub fn write_json_with(file: &SaFile, cfg: &SadfConfig, extra: &SadfExtra) -> (r: Doc)
    ensures
        is_json_output(r@, *file, *cfg, extra.select, extra.local_tz@),
{
    let info = FileInfo::from_file_with(&file.header, cfg.time_base, extra.local_tz.as_str());
    let followed: Vec<ActivityId> = Vec::new();
    let index = RecordIndex::build(&file.records, &followed, false);
    assert(followed@ =~= Seq::empty());
    write_records(cfg, &info, file, &index, extra.select)
}

}
