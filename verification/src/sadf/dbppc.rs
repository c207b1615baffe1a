//! The flat formats: a line for each item, for a database, or a line for each value.

use vstd::prelude::*;

use crate::clock::RecordTime;
use crate::doc::{chars, Doc, Glyph};
use crate::model::ActivityId;
use crate::sadf::access::{item_models, pair_in, ActivityPair, IntervalView, ItemModel, ItemPair};
use crate::sadf::config::{SadfConfig, SadfExtra};
use crate::sadf::file::{
    act_entries, activity_passes, entries_of, find_view, pair_of, passes_of, selected_ids, selection,
    view_of, ActEntry, FileActivityEntry, SaFile, Script,
};
use crate::sadf::items::{
    any_irq_cpu, any_irq_cpu_selected, irq_at, irq_cpu_passes, irq_cpu_selected, irq_dimensions,
    irq_item, irq_name, irq_size, irq_title, items_shown, selected_items,
};
use crate::sadf::logic2::{Action, Pass};
use crate::sadf::records::Rec;
use crate::sadf::render::{field_shown, field_value, item_label_in, label_in};
use crate::sadf::select::{every_record, RecordSelect};
use crate::sadf::stamp::{
    interval_secs, rounded_seconds, stamp_of, FileInfo, Stamp, EVENT_INTERVAL,
};
use crate::sadf::table::{
    act_ids, act_order, lookup, table, ActivitySpec, Field, Fmt, Section, SectionModel, SpecModel,
};
use crate::sadf::value::{
    cpu_label, show_value, value_shown, ItemLabel, LabelModel, Shown, ShownModel, ABSENT_TEXT,
};
use crate::sar_text::header::{cpu_count, real_cpu_count};
use crate::sar_text::options::name_passes;
use crate::text::{dec, push_dec};

verus! {

/// What separates the fields of a line.
pub open spec fn separator(isdb: bool) -> Seq<char> {
    if isdb {
        ";"@
    } else {
        "\t"@
    }
}

fn sep_of(isdb: bool) -> (r: &'static str)
    ensures
        r@ == separator(isdb),
{
    if isdb {
        ";"
    } else {
        "\t"
    }
}

/// The number of CPUs that a restart shows.
pub fn display_cpu_count(cpu_nr: Option<u32>) -> (r: u32)
    ensures
        r == cpu_count(cpu_nr),
{
    real_cpu_count(cpu_nr)
}

/// The start of the line of a restart or a comment.
pub open spec fn event_start(
    cfg: SadfConfig,
    info: FileInfo,
    t: RecordTime,
    isdb: bool,
) -> Seq<char> {
    info.nodename@ + separator(isdb) + EVENT_INTERVAL@ + separator(isdb) + stamp_of(
        cfg.time_base,
        t,
        info,
    ).flat() + separator(isdb)
}

fn start_event(cfg: &SadfConfig, info: &FileInfo, t: &RecordTime, isdb: bool) -> (r: String)
    ensures
        r@ == event_start(*cfg, *info, *t, isdb),
{
    let sep = sep_of(isdb);
    let mut out = info.nodename.as_str().to_owned();
    out.append(sep);
    out.append(EVENT_INTERVAL);
    out.append(sep);
    out.append(Stamp::new(cfg.time_base, t, info).dbppc().as_str());
    out.append(sep);
    out
}

/// The line of a restart. A tab follows the word, whatever the separator is.
pub open spec fn restart_text(
    cfg: SadfConfig,
    info: FileInfo,
    t: RecordTime,
    cpu_nr: Option<u32>,
    isdb: bool,
) -> Seq<char> {
    event_start(cfg, info, t, isdb) + "LINUX-RESTART\t("@ + dec(cpu_count(cpu_nr) as nat)
        + " CPU)\n"@
}

/// The line of a restart.
pub fn write_restart(
    cfg: &SadfConfig,
    info: &FileInfo,
    t: &RecordTime,
    cpu_nr: Option<u32>,
    isdb: bool,
) -> (r: String)
    ensures
        r@ == restart_text(*cfg, *info, *t, cpu_nr, isdb),
{
    let mut out = start_event(cfg, info, t, isdb);
    out.append("LINUX-RESTART\t(");
    push_dec(&mut out, display_cpu_count(cpu_nr) as u64);
    out.append(" CPU)\n");
    out
}

/// The text of a comment.
pub open spec fn comment_of(rec: Rec) -> Seq<char> {
    match rec.comment {
        Some(t) => t@,
        None => ""@,
    }
}

/// The text of a comment.
pub fn comment_str(rec: &Rec) -> (r: &str)
    ensures
        r@ == comment_of(*rec),
{
    match &rec.comment {
        Some(t) => t.as_str(),
        None => "",
    }
}

/// The line of a comment.
pub open spec fn comment_text(cfg: SadfConfig, info: FileInfo, rec: Rec, isdb: bool) -> Seq<char> {
    event_start(cfg, info, rec.time, isdb) + "COM "@ + comment_of(rec) + "\n"@
}

/// The line of a comment.
pub fn write_comment(cfg: &SadfConfig, info: &FileInfo, rec: &Rec, isdb: bool) -> (r: String)
    ensures
        r@ == comment_text(*cfg, *info, *rec, isdb),
{
    let mut out = start_event(cfg, info, &rec.time, isdb);
    out.append("COM ");
    out.append(comment_str(rec));
    out.append("\n");
    out
}

/// The line with the names of the fields of a section.
pub open spec fn field_list_text(cfg: SadfConfig, section: SectionModel) -> Seq<char> {
    "# hostname;interval;timestamp;"@ + cfg.section.expanded(section.hdr_line@) + "\n"@
}

/// The line with the names of the fields of a section.
pub fn write_field_list(cfg: &SadfConfig, section: &Section) -> (r: String)
    ensures
        r@ == field_list_text(*cfg, section.model()),
{
    let mut out = "# hostname;interval;timestamp;".to_owned();
    out.append(cfg.section.expand_hdr_line(section.hdr_line).as_str());
    out.append("\n");
    out
}

/// The start of the line of a sample.
pub open spec fn sample_start(
    cfg: SadfConfig,
    info: FileInfo,
    t: RecordTime,
    itv_cs: u64,
    isdb: bool,
) -> Seq<char> {
    info.nodename@ + separator(isdb) + dec(rounded_seconds(itv_cs) as nat) + separator(isdb)
        + stamp_of(cfg.time_base, t, info).flat()
}

fn start_sample(
    cfg: &SadfConfig,
    info: &FileInfo,
    t: &RecordTime,
    itv_cs: u64,
    isdb: bool,
) -> (r: String)
    ensures
        r@ == sample_start(*cfg, *info, *t, itv_cs, isdb),
{
    let sep = sep_of(isdb);
    let mut out = info.nodename.as_str().to_owned();
    out.append(sep);
    push_dec(&mut out, interval_secs(itv_cs));
    out.append(sep);
    out.append(Stamp::new(cfg.time_base, t, info).dbppc().as_str());
    out
}

/// Whether the flat formats show a field.
pub open spec fn flat_field(cfg: SadfConfig, field: Field) -> bool {
    field.pp@.len() > 0 && cfg.section.opens_field(field.gate)
}

fn is_flat_field(cfg: &SadfConfig, field: &Field) -> (r: bool)
    ensures
        r == flat_field(*cfg, *field),
{
    !field.pp.is_empty() && cfg.section.allows_field(field.gate)
}

/// A field as the flat formats show it.
pub open spec fn flat_value(
    id: ActivityId,
    item: ItemModel,
    field: Field,
    label: LabelModel,
) -> Seq<Glyph> {
    field_shown(id, item, field, field.dp_fmt, label, ABSENT_TEXT@).glyphs()
}

/// The values of the first `n` fields on one line.
pub open spec fn db_values(
    cfg: SadfConfig,
    id: ActivityId,
    fields: Seq<Field>,
    item: ItemModel,
    label: LabelModel,
    n: int,
) -> Seq<Glyph>
    decreases n,
{
    if n <= 0 {
        Seq::empty()
    } else {
        let before = db_values(cfg, id, fields, item, label, n - 1);
        if flat_field(cfg, fields[n - 1]) {
            before + chars(";"@) + flat_value(id, item, fields[n - 1], label)
        } else {
            before
        }
    }
}

/// What a line shows of an item: what tells it, where the activity has items, and the values.
pub open spec fn db_item(
    cfg: SadfConfig,
    m: SpecModel,
    section: SectionModel,
    item: ItemModel,
) -> Seq<Glyph> {
    let label = label_in(m.item, section, item);
    (if m.item is Single {
        Seq::empty()
    } else {
        chars(";"@) + chars(label.db)
    }) + db_values(cfg, m.id, section.fields, item, label, section.fields.len() as int)
}

fn put_db_item(
    out: &mut Doc,
    cfg: &SadfConfig,
    spec_of: &ActivitySpec,
    section: &Section,
    item: &ItemPair<'_>,
)
    ensures
        final(out)@ == old(out)@ + db_item(
            *cfg,
            spec_of.model(),
            section.model(),
            item.model(),
        ),
{
    let label = item_label_in(spec_of, section, item);
    let ghost start = out@;
    if !spec_of.item.is_single() {
        out.put(";");
        out.put(label.db.as_str());
    }
    let ghost head = if spec_of.item is Single {
        Seq::<Glyph>::empty()
    } else {
        chars(";"@) + chars(label.db@)
    };
    let mut i: usize = 0;
    assert(out@ =~= start + (head + db_values(
        *cfg,
        spec_of.id,
        section.fields@,
        item.model(),
        label.model(),
        0,
    )));
    while i < section.fields.len()
        invariant
            i <= section.fields@.len(),
            out@ == start + (head + db_values(
                *cfg,
                spec_of.id,
                section.fields@,
                item.model(),
                label.model(),
                i as int,
            )),
        decreases section.fields.len() - i,
    {
        let field = section.fields[i];
        let ghost had = out@;
        let ghost before = db_values(
            *cfg,
            spec_of.id,
            section.fields@,
            item.model(),
            label.model(),
            i as int,
        );
        if is_flat_field(cfg, &field) {
            let v = field_value(spec_of.id, item, &field, field.dp_fmt, &label, ABSENT_TEXT);
            out.put(";");
            v.put(out);
            proof {
                let add = flat_value(spec_of.id, item.model(), field, label.model());
                assert(out@ =~= start + (head + (before + chars(";"@) + add)));
            }
        }
        i = i + 1;
    }
}

/// The lines of the values of the first `n` fields.
pub open spec fn ppc_values(
    cfg: SadfConfig,
    id: ActivityId,
    fields: Seq<Field>,
    item: ItemModel,
    label: LabelModel,
    pre: Seq<char>,
    n: int,
) -> Seq<Glyph>
    decreases n,
{
    if n <= 0 {
        Seq::empty()
    } else {
        let before = ppc_values(cfg, id, fields, item, label, pre, n - 1);
        if flat_field(cfg, fields[n - 1]) {
            before + chars(pre) + chars("\t"@) + chars(label.ppc) + chars("\t"@) + chars(
                fields[n - 1].pp@,
            ) + chars("\t"@) + flat_value(id, item, fields[n - 1], label) + chars("\n"@)
        } else {
            before
        }
    }
}

fn put_ppc_item(
    out: &mut Doc,
    cfg: &SadfConfig,
    spec_of: &ActivitySpec,
    section: &Section,
    item: &ItemPair<'_>,
    pre: &str,
)
    ensures
        final(out)@ == old(out)@ + ppc_values(
            *cfg,
            spec_of.id,
            section.fields@,
            item.model(),
            label_in(spec_of.item, section.model(), item.model()),
            pre@,
            section.fields@.len() as int,
        ),
{
    let label = item_label_in(spec_of, section, item);
    let ghost start = out@;
    let mut i: usize = 0;
    assert(out@ =~= start + ppc_values(
        *cfg,
        spec_of.id,
        section.fields@,
        item.model(),
        label.model(),
        pre@,
        0,
    ));
    while i < section.fields.len()
        invariant
            i <= section.fields@.len(),
            out@ == start + ppc_values(
                *cfg,
                spec_of.id,
                section.fields@,
                item.model(),
                label.model(),
                pre@,
                i as int,
            ),
        decreases section.fields.len() - i,
    {
        let field = section.fields[i];
        let ghost before = ppc_values(
            *cfg,
            spec_of.id,
            section.fields@,
            item.model(),
            label.model(),
            pre@,
            i as int,
        );
        if is_flat_field(cfg, &field) {
            let v = field_value(spec_of.id, item, &field, field.dp_fmt, &label, ABSENT_TEXT);
            out.put(pre);
            out.put("\t");
            out.put(label.ppc.as_str());
            out.put("\t");
            out.put(field.pp);
            out.put("\t");
            v.put(out);
            out.put("\n");
            proof {
                let add = flat_value(spec_of.id, item.model(), field, label.model());
                assert(out@ =~= start + (before + chars(pre@) + chars("\t"@) + chars(
                    label.ppc@,
                ) + chars("\t"@) + chars(field.pp@) + chars("\t"@) + add + chars("\n"@)));
            }
        }
        i = i + 1;
    }
}

/// The lines of an item.
pub open spec fn item_lines(
    cfg: SadfConfig,
    m: SpecModel,
    section: SectionModel,
    item: ItemModel,
    pre: Seq<char>,
    isdb: bool,
) -> Seq<Glyph> {
    if isdb {
        chars(pre) + db_item(cfg, m, section, item) + chars("\n"@)
    } else {
        ppc_values(
            cfg,
            m.id,
            section.fields,
            item,
            label_in(m.item, section, item),
            pre,
            section.fields.len() as int,
        )
    }
}

/// The lines of a list of items.
pub open spec fn items_lines(
    cfg: SadfConfig,
    m: SpecModel,
    section: SectionModel,
    items: Seq<ItemModel>,
    pre: Seq<char>,
    isdb: bool,
) -> Seq<Glyph>
    decreases items.len(),
{
    if items.len() == 0 {
        Seq::empty()
    } else {
        items_lines(cfg, m, section, items.drop_last(), pre, isdb) + item_lines(
            cfg,
            m,
            section,
            items.last(),
            pre,
            isdb,
        )
    }
}

fn put_items(
    out: &mut Doc,
    cfg: &SadfConfig,
    spec_of: &ActivitySpec,
    section: &Section,
    items: &Vec<ItemPair<'_>>,
    pre: &str,
    isdb: bool,
)
    ensures
        final(out)@ == old(out)@ + items_lines(
            *cfg,
            spec_of.model(),
            section.model(),
            item_models(items@),
            pre@,
            isdb,
        ),
{
    let ghost start = out@;
    let ghost all = item_models(items@);
    let mut i: usize = 0;
    assert(all.take(0) =~= Seq::empty());
    assert(out@ =~= start + items_lines(
        *cfg,
        spec_of.model(),
        section.model(),
        all.take(0),
        pre@,
        isdb,
    ));
    while i < items.len()
        invariant
            i <= items@.len(),
            all == item_models(items@),
            out@ == start + items_lines(
                *cfg,
                spec_of.model(),
                section.model(),
                all.take(i as int),
                pre@,
                isdb,
            ),
        decreases items.len() - i,
    {
        let ghost had = out@;
        let ghost before = items_lines(
            *cfg,
            spec_of.model(),
            section.model(),
            all.take(i as int),
            pre@,
            isdb,
        );
        proof {
            assert(all.take(i + 1).drop_last() =~= all.take(i as int));
            assert(all.take(i + 1).last() == items@[i as int].model());
        }
        if isdb {
            out.put(pre);
            put_db_item(out, cfg, spec_of, section, &items[i]);
            out.put("\n");
        } else {
            put_ppc_item(out, cfg, spec_of, section, &items[i], pre);
        }
        proof {
            let add = item_lines(
                *cfg,
                spec_of.model(),
                section.model(),
                items@[i as int].model(),
                pre@,
                isdb,
            );
            assert(out@ =~= start + (before + add));
        }
        i = i + 1;
    }
    assert(all.take(items@.len() as int) =~= all);
}

/// The count of an interrupt on a CPU as it is shown.
pub open spec fn irq_value(pair: ActivityPair<'_>, cpu: int, irq: int, absent: Seq<char>) -> ShownModel {
    match irq_at(pair, cpu, irq) {
        Some(item) => value_shown(item.computed_by_name("intr"@), Fmt::R2, absent),
        None => ShownModel::Text(absent),
    }
}

/// The count of an interrupt on a CPU as it is shown.
pub fn show_irq(pair: &ActivityPair<'_>, cpu: usize, irq: usize, absent: &str) -> (r: Shown)
    ensures
        r.model() == irq_value(*pair, cpu as int, irq as int, absent@),
{
    match irq_item(pair, cpu, irq) {
        Some(item) => show_value(item.computed_by_name("intr"), Fmt::R2, absent),
        None => Shown::Text(absent.to_owned()),
    }
}

/// The counts of an interrupt on the first `n` CPUs: on one line, or on a line each, with the
/// CPU in the place of the field.
pub open spec fn irq_values(
    cfg: SadfConfig,
    pair: ActivityPair<'_>,
    irq: int,
    pre: Seq<char>,
    isdb: bool,
    n: int,
) -> Seq<Glyph>
    decreases n,
{
    if n <= 0 {
        Seq::empty()
    } else {
        let before = irq_values(cfg, pair, irq, pre, isdb, n - 1);
        let v = irq_value(pair, n - 1, irq, ABSENT_TEXT@).glyphs();
        if !irq_cpu_passes(cfg, pair, n - 1, false) {
            before
        } else if isdb {
            before + chars(";"@) + v
        } else {
            before + chars(pre) + chars("\t"@) + chars(irq_title(pair, irq)) + chars("\t"@) + chars(
                cpu_label(n - 1).ppc,
            ) + chars("\t"@) + v + chars("\n"@)
        }
    }
}

fn put_irq_values(
    out: &mut Doc,
    cfg: &SadfConfig,
    pair: &ActivityPair<'_>,
    irq: usize,
    name: &str,
    pre: &str,
    isdb: bool,
    nr: usize,
)
    requires
        name@ == irq_title(*pair, irq as int),
    ensures
        final(out)@ == old(out)@ + irq_values(*cfg, *pair, irq as int, pre@, isdb, nr as int),
{
    let ghost start = out@;
    let mut cpu: usize = 0;
    assert(out@ =~= start + irq_values(*cfg, *pair, irq as int, pre@, isdb, 0));
    while cpu < nr
        invariant
            cpu <= nr,
            name@ == irq_title(*pair, irq as int),
            out@ == start + irq_values(*cfg, *pair, irq as int, pre@, isdb, cpu as int),
        decreases nr - cpu,
    {
        let ghost before = irq_values(*cfg, *pair, irq as int, pre@, isdb, cpu as int);
        if irq_cpu_selected(cfg, pair, cpu, false) {
            let v = show_irq(pair, cpu, irq, ABSENT_TEXT);
            if isdb {
                out.put(";");
                v.put(out);
                assert(out@ =~= start + (before + chars(";"@) + v.model().glyphs()));
            } else {
                let label = ItemLabel::cpu(cpu);
                out.put(pre);
                out.put("\t");
                out.put(name);
                out.put("\t");
                out.put(label.ppc.as_str());
                out.put("\t");
                v.put(out);
                out.put("\n");
                assert(out@ =~= start + (before + chars(pre@) + chars("\t"@) + chars(name@) + chars(
                    "\t"@,
                ) + chars(label.ppc@) + chars("\t"@) + v.model().glyphs() + chars("\n"@)));
            }
        }
        cpu = cpu + 1;
    }
}

/// The lines of the first `n` interrupts.
pub open spec fn irq_lines(
    cfg: SadfConfig,
    pair: ActivityPair<'_>,
    pre: Seq<char>,
    isdb: bool,
    n: int,
) -> Seq<Glyph>
    decreases n,
{
    if n <= 0 {
        Seq::empty()
    } else {
        let before = irq_lines(cfg, pair, pre, isdb, n - 1);
        let nr = irq_size(pair).0;
        let name = irq_title(pair, n - 1);
        let values = irq_values(cfg, pair, n - 1, pre, isdb, nr);
        if !any_irq_cpu(cfg, pair, nr, false) || !name_passes(
            cfg.item_names@,
            ActivityId::IRQ,
            name,
        ) {
            before
        } else if isdb {
            before + chars(pre) + chars(";"@) + chars(name) + values + chars("\n"@)
        } else {
            before + values
        }
    }
}

fn put_irq_lines(
    out: &mut Doc,
    cfg: &SadfConfig,
    pair: &ActivityPair<'_>,
    pre: &str,
    isdb: bool,
)
    ensures
        final(out)@ == old(out)@ + irq_lines(*cfg, *pair, pre@, isdb, irq_size(*pair).1),
{
    let ghost start = out@;
    let (nr, nr2) = irq_dimensions(pair);
    let mut irq: usize = 0;
    assert(out@ =~= start + irq_lines(*cfg, *pair, pre@, isdb, 0));
    while irq < nr2
        invariant
            irq <= nr2,
            (nr as int, nr2 as int) == irq_size(*pair),
            out@ == start + irq_lines(*cfg, *pair, pre@, isdb, irq as int),
        decreases nr2 - irq,
    {
        let ghost before = irq_lines(*cfg, *pair, pre@, isdb, irq as int);
        let ghost values = irq_values(*cfg, *pair, irq as int, pre@, isdb, nr as int);
        let name = irq_name(pair, irq);
        if any_irq_cpu_selected(cfg, pair, nr, false) && cfg.name_selected(
            ActivityId::IRQ,
            name.as_str(),
        ) {
            if isdb {
                out.put(pre);
                out.put(";");
                out.put(name.as_str());
                put_irq_values(out, cfg, pair, irq, name.as_str(), pre, isdb, nr);
                out.put("\n");
                assert(out@ =~= start + (before + chars(pre@) + chars(";"@) + chars(name@) + values
                    + chars("\n"@)));
            } else {
                put_irq_values(out, cfg, pair, irq, name.as_str(), pre, isdb, nr);
                assert(out@ =~= start + (before + values));
            }
        }
        irq = irq + 1;
    }
}

/// The lines of a section of an activity in an interval.
pub open spec fn sample_lines(
    cfg: SadfConfig,
    info: FileInfo,
    m: SpecModel,
    section: SectionModel,
    t: RecordTime,
    view: IntervalView,
    isdb: bool,
) -> Seq<Glyph> {
    let pre = sample_start(cfg, info, t, view.itv_cs, isdb);
    match pair_in(view, m.id) {
        Some(pair) => if m.id == ActivityId::IRQ {
            irq_lines(cfg, pair, pre, isdb, irq_size(pair).1)
        } else {
            items_lines(cfg, m, section, items_shown(cfg, m.item, pair, false), pre, isdb)
        },
        None => Seq::empty(),
    }
}

/// Appends the lines of a section of an activity in an interval.
pub fn emit_sample(
    out: &mut Doc,
    cfg: &SadfConfig,
    info: &FileInfo,
    spec_of: &ActivitySpec,
    section: &Section,
    t: &RecordTime,
    view: &IntervalView,
    isdb: bool,
)
    ensures
        final(out)@ == old(out)@ + sample_lines(
            *cfg,
            *info,
            spec_of.model(),
            section.model(),
            *t,
            *view,
            isdb,
        ),
{
    let pre = start_sample(cfg, info, t, view.itv_cs, isdb);
    match ActivityPair::from_view(view, spec_of.id) {
        Some(pair) => if spec_of.id == ActivityId::IRQ {
            put_irq_lines(out, cfg, &pair, pre.as_str(), isdb);
        } else {
            let items = selected_items(&pair, spec_of, cfg, false);
            put_items(out, cfg, spec_of, section, &items, pre.as_str(), isdb);
        },
        None => {
            assert(out@ =~= out@ + Seq::<Glyph>::empty());
        },
    }
}

/// The number of items that the list of a file gives an activity; `None` where the activity is
/// not in it.
pub open spec fn listed_count(entries: Seq<FileActivityEntry>, id: ActivityId, n: int) -> Option<i32>
    decreases n,
{
    if n <= 0 {
        None
    } else {
        match listed_count(entries, id, n - 1) {
            Some(nr) => Some(nr),
            None => if entries[n - 1].id == id {
                Some(entries[n - 1].nr)
            } else {
                None
            },
        }
    }
}

fn find_count(entries: &Vec<FileActivityEntry>, id: ActivityId) -> (r: Option<i32>)
    ensures
        r == listed_count(entries@, id, entries@.len() as int),
{
    let mut found: Option<i32> = None;
    let mut i: usize = 0;
    while i < entries.len()
        invariant
            i <= entries@.len(),
            found == listed_count(entries@, id, i as int),
        decreases entries.len() - i,
    {
        if found.is_none() && entries[i].id == id {
            found = Some(entries[i].nr);
        }
        i = i + 1;
    }
    found
}

/// The names of the sections in `at`, each behind a separator.
pub open spec fn section_names(
    cfg: SadfConfig,
    sections: Seq<SectionModel>,
    at: Seq<int>,
    many: bool,
) -> Seq<char>
    decreases at.len(),
{
    if at.len() == 0 {
        Seq::empty()
    } else {
        section_names(cfg, sections, at.drop_last(), many) + ";"@ + cfg.section.expanded(
            sections[at.last()].hdr_line@,
        ) + if many {
            "[...]"@
        } else {
            Seq::empty()
        }
    }
}

/// The names of the sections of the first `n` activities. An activity with several items is
/// followed by a mark.
pub open spec fn all_names(file: SaFile, cfg: SadfConfig, n: int) -> Seq<char>
    decreases n,
{
    if n <= 0 {
        Seq::empty()
    } else {
        let before = all_names(file, cfg, n - 1);
        let id = act_order()[n - 1];
        match (
            listed_count(file.activities@, id, file.activities@.len() as int),
            table(id),
        ) {
            (Some(nr), Some(m)) => if nr > 0 && cfg.selects(id) {
                before + section_names(cfg, m.sections, m.active(cfg.section), nr > 1)
            } else {
                before
            },
            _ => before,
        }
    }
}

/// The line with the names of all fields, where all activities are on one line.
pub open spec fn horizontal_names(file: SaFile, cfg: SadfConfig) -> Seq<char> {
    "# hostname;interval;timestamp"@ + all_names(file, cfg, act_order().len() as int)
}

fn put_section_names(out: &mut String, cfg: &SadfConfig, spec_of: &ActivitySpec, many: bool)
    ensures
        final(out)@ == old(out)@ + section_names(
            *cfg,
            spec_of.model().sections,
            spec_of.model().active(cfg.section),
            many,
        ),
{
    let at = spec_of.active_positions(&cfg.section);
    let ghost want = spec_of.model().active(cfg.section);
    let ghost sections = spec_of.model().sections;
    let ghost start = out@;
    let mut k: usize = 0;
    assert(want.take(0) =~= Seq::empty());
    assert(out@ =~= start + section_names(*cfg, sections, want.take(0), many));
    while k < at.len()
        invariant
            k <= at@.len(),
            sections == spec_of.model().sections,
            at@.len() == want.len(),
            forall|j: int|
                0 <= j < at@.len() ==> #[trigger] at@[j] == want[j] && at@[j]
                    < spec_of.sections@.len(),
            out@ == start + section_names(*cfg, sections, want.take(k as int), many),
        decreases at.len() - k,
    {
        let ghost before = section_names(*cfg, sections, want.take(k as int), many);
        proof {
            assert(want.take(k + 1).drop_last() =~= want.take(k as int));
            assert(want.take(k + 1).last() == want[k as int]);
        }
        let names = cfg.section.expand_hdr_line(spec_of.sections[at[k]].hdr_line);
        out.append(";");
        out.append(names.as_str());
        if many {
            out.append("[...]");
        }
        proof {
            let tail = if many {
                "[...]"@
            } else {
                Seq::empty()
            };
            assert(out@ =~= start + (before + ";"@ + names@ + tail));
        }
        k = k + 1;
    }
    assert(want.take(at@.len() as int) =~= want);
}

/// The line with the names of all fields, where all activities are on one line.
pub fn horizontal_field_list(file: &SaFile, cfg: &SadfConfig) -> (r: String)
    ensures
        r@ == horizontal_names(*file, *cfg),
{
    let mut out = "# hostname;interval;timestamp".to_owned();
    let ghost start = out@;
    let ids = act_ids();
    let mut i: usize = 0;
    assert(out@ =~= start + all_names(*file, *cfg, 0));
    while i < ids.len()
        invariant
            i <= ids@.len(),
            ids@ == act_order(),
            out@ == start + all_names(*file, *cfg, i as int),
        decreases ids.len() - i,
    {
        let id = ids[i];
        let ghost before = all_names(*file, *cfg, i as int);
        match (find_count(&file.activities, id), lookup(id)) {
            (Some(nr), Some(s)) => if nr > 0 && cfg.is_selected(id) {
                put_section_names(&mut out, cfg, &s, nr > 1);
                assert(out@ =~= start + (before + section_names(
                    *cfg,
                    s.model().sections,
                    s.model().active(cfg.section),
                    nr > 1,
                )));
            },
            _ => {},
        }
        i = i + 1;
    }
    out
}

/// The counts of the first `n` interrupts on one line.
pub open spec fn row_irqs(cfg: SadfConfig, pair: ActivityPair<'_>, n: int) -> Seq<Glyph>
    decreases n,
{
    if n <= 0 {
        Seq::empty()
    } else {
        let before = row_irqs(cfg, pair, n - 1);
        let name = irq_title(pair, n - 1);
        if name_passes(cfg.item_names@, ActivityId::IRQ, name) {
            before + chars(";"@) + chars(name) + irq_values(
                cfg,
                pair,
                n - 1,
                ""@,
                true,
                irq_size(pair).0,
            )
        } else {
            before
        }
    }
}

fn put_row_irqs(out: &mut Doc, cfg: &SadfConfig, pair: &ActivityPair<'_>)
    ensures
        final(out)@ == old(out)@ + row_irqs(*cfg, *pair, irq_size(*pair).1),
{
    let ghost start = out@;
    let (nr, nr2) = irq_dimensions(pair);
    let mut irq: usize = 0;
    assert(out@ =~= start + row_irqs(*cfg, *pair, 0));
    while irq < nr2
        invariant
            irq <= nr2,
            (nr as int, nr2 as int) == irq_size(*pair),
            out@ == start + row_irqs(*cfg, *pair, irq as int),
        decreases nr2 - irq,
    {
        let ghost before = row_irqs(*cfg, *pair, irq as int);
        let name = irq_name(pair, irq);
        if cfg.name_selected(ActivityId::IRQ, name.as_str()) {
            out.put(";");
            out.put(name.as_str());
            put_irq_values(out, cfg, pair, irq, name.as_str(), "", true, nr);
            assert(out@ =~= start + (before + chars(";"@) + chars(name@) + irq_values(
                *cfg,
                *pair,
                irq as int,
                ""@,
                true,
                nr as int,
            )));
        }
        irq = irq + 1;
    }
}

/// A list of items on one line.
pub open spec fn row_items(
    cfg: SadfConfig,
    m: SpecModel,
    section: SectionModel,
    items: Seq<ItemModel>,
) -> Seq<Glyph>
    decreases items.len(),
{
    if items.len() == 0 {
        Seq::empty()
    } else {
        row_items(cfg, m, section, items.drop_last()) + db_item(cfg, m, section, items.last())
    }
}

fn put_row_items(
    out: &mut Doc,
    cfg: &SadfConfig,
    spec_of: &ActivitySpec,
    section: &Section,
    items: &Vec<ItemPair<'_>>,
)
    ensures
        final(out)@ == old(out)@ + row_items(
            *cfg,
            spec_of.model(),
            section.model(),
            item_models(items@),
        ),
{
    let ghost start = out@;
    let ghost all = item_models(items@);
    let mut i: usize = 0;
    assert(all.take(0) =~= Seq::empty());
    assert(out@ =~= start + row_items(*cfg, spec_of.model(), section.model(), all.take(0)));
    while i < items.len()
        invariant
            i <= items@.len(),
            all == item_models(items@),
            out@ == start + row_items(
                *cfg,
                spec_of.model(),
                section.model(),
                all.take(i as int),
            ),
        decreases items.len() - i,
    {
        let ghost before = row_items(*cfg, spec_of.model(), section.model(), all.take(i as int));
        proof {
            assert(all.take(i + 1).drop_last() =~= all.take(i as int));
            assert(all.take(i + 1).last() == items@[i as int].model());
        }
        put_db_item(out, cfg, spec_of, section, &items[i]);
        assert(out@ =~= start + (before + db_item(
            *cfg,
            spec_of.model(),
            section.model(),
            items@[i as int].model(),
        )));
        i = i + 1;
    }
    assert(all.take(items@.len() as int) =~= all);
}

/// The sections in `at` on one line.
pub open spec fn row_sections(
    cfg: SadfConfig,
    m: SpecModel,
    items: Seq<ItemModel>,
    at: Seq<int>,
) -> Seq<Glyph>
    decreases at.len(),
{
    if at.len() == 0 {
        Seq::empty()
    } else {
        row_sections(cfg, m, items, at.drop_last()) + row_items(
            cfg,
            m,
            m.sections[at.last()],
            items,
        )
    }
}

fn put_row_sections(
    out: &mut Doc,
    cfg: &SadfConfig,
    spec_of: &ActivitySpec,
    items: &Vec<ItemPair<'_>>,
)
    ensures
        final(out)@ == old(out)@ + row_sections(
            *cfg,
            spec_of.model(),
            item_models(items@),
            spec_of.model().active(cfg.section),
        ),
{
    let at = spec_of.active_positions(&cfg.section);
    let ghost want = spec_of.model().active(cfg.section);
    let ghost m = spec_of.model();
    let ghost list = item_models(items@);
    let ghost start = out@;
    let mut k: usize = 0;
    assert(want.take(0) =~= Seq::empty());
    assert(out@ =~= start + row_sections(*cfg, m, list, want.take(0)));
    while k < at.len()
        invariant
            k <= at@.len(),
            m == spec_of.model(),
            list == item_models(items@),
            at@.len() == want.len(),
            forall|j: int|
                0 <= j < at@.len() ==> #[trigger] at@[j] == want[j] && at@[j]
                    < spec_of.sections@.len(),
            out@ == start + row_sections(*cfg, m, list, want.take(k as int)),
        decreases at.len() - k,
    {
        let ghost before = row_sections(*cfg, m, list, want.take(k as int));
        proof {
            assert(want.take(k + 1).drop_last() =~= want.take(k as int));
            assert(want.take(k + 1).last() == want[k as int]);
            assert(m.sections[want[k as int]] == spec_of.sections@[at@[k as int] as int].model());
        }
        put_row_items(out, cfg, spec_of, &spec_of.sections[at[k]], items);
        assert(out@ =~= start + (before + row_items(*cfg, m, m.sections[want[k as int]], list)));
        k = k + 1;
    }
    assert(want.take(at@.len() as int) =~= want);
}

/// What one line shows of an activity; nothing where the record does not hold it.
pub open spec fn row_entry(
    cfg: SadfConfig,
    file: SaFile,
    view: IntervalView,
    entry: ActEntry,
) -> Seq<Glyph> {
    match (pair_of(entry, file, view), table(entry.id)) {
        (Some(pair), Some(m)) => if pair.items_now().len() == 0 {
            Seq::empty()
        } else if entry.id == ActivityId::IRQ {
            row_irqs(cfg, pair, irq_size(pair).1)
        } else {
            row_sections(
                cfg,
                m,
                items_shown(cfg, m.item, pair, false),
                m.active(cfg.section),
            )
        },
        _ => Seq::empty(),
    }
}

fn put_row_entry(
    out: &mut Doc,
    cfg: &SadfConfig,
    file: &SaFile,
    view: &IntervalView,
    entry: &ActEntry,
)
    ensures
        final(out)@ == old(out)@ + row_entry(*cfg, *file, *view, *entry),
{
    proof {
        crate::sadf::table::law_table_is_of_its_activity(entry.id);
        assert(out@ =~= out@ + Seq::<Glyph>::empty());
    }
    match (entry.pair(file, view), lookup(entry.id)) {
        (Some(pair), Some(s)) => if pair.is_empty() {
        } else if entry.id == ActivityId::IRQ {
            put_row_irqs(out, cfg, &pair);
        } else {
            let items = selected_items(&pair, &s, cfg, false);
            put_row_sections(out, cfg, &s, &items);
        },
        _ => {},
    }
}

/// The first `n` activities on one line.
pub open spec fn row_entries(
    cfg: SadfConfig,
    file: SaFile,
    view: IntervalView,
    entries: Seq<ActEntry>,
    n: int,
) -> Seq<Glyph>
    decreases n,
{
    if n <= 0 {
        Seq::empty()
    } else {
        row_entries(cfg, file, view, entries, n - 1) + row_entry(cfg, file, view, entries[n - 1])
    }
}

/// All activities of a record on one line.
pub open spec fn horizontal_text(
    cfg: SadfConfig,
    info: FileInfo,
    file: SaFile,
    t: RecordTime,
    view: IntervalView,
) -> Seq<Glyph> {
    let entries = entries_of(file, cfg, act_order().len() as int);
    chars(sample_start(cfg, info, t, view.itv_cs, true)) + row_entries(
        cfg,
        file,
        view,
        entries,
        entries.len() as int,
    ) + chars("\n"@)
}

/// Appends all activities of a record on one line.
pub fn horizontal_line(
    out: &mut Doc,
    cfg: &SadfConfig,
    info: &FileInfo,
    file: &SaFile,
    t: &RecordTime,
    view: &IntervalView,
)
    ensures
        final(out)@ == old(out)@ + horizontal_text(*cfg, *info, *file, *t, *view),
{
    let ghost start = out@;
    let pre = start_sample(cfg, info, t, view.itv_cs, true);
    let entries = act_entries(file, cfg);
    out.put(pre.as_str());
    let mut i: usize = 0;
    assert(out@ =~= start + (chars(pre@) + row_entries(*cfg, *file, *view, entries@, 0)));
    while i < entries.len()
        invariant
            i <= entries@.len(),
            out@ == start + (chars(pre@) + row_entries(
                *cfg,
                *file,
                *view,
                entries@,
                i as int,
            )),
        decreases entries.len() - i,
    {
        let ghost before = row_entries(*cfg, *file, *view, entries@, i as int);
        put_row_entry(out, cfg, file, view, &entries[i]);
        assert(out@ =~= start + (chars(pre@) + (before + row_entry(
            *cfg,
            *file,
            *view,
            entries@[i as int],
        ))));
        i = i + 1;
    }
    out.put("\n");
    assert(out@ =~= start + horizontal_text(*cfg, *info, *file, *t, *view));
}

/// What is shown for a part of the script.
pub open spec fn action_lines(
    cfg: SadfConfig,
    info: FileInfo,
    file: SaFile,
    recs: Seq<Rec>,
    isdb: bool,
    action: Action,
) -> Seq<Glyph> {
    match action {
        Action::Header { .. } => Seq::empty(),
        Action::Restart { rec, cpu_nr } => if rec < recs.len() {
            chars(restart_text(cfg, info, recs[rec as int].time, cpu_nr, isdb))
        } else {
            Seq::empty()
        },
        Action::Comment { rec } => if rec < recs.len() {
            chars(comment_text(cfg, info, recs[rec as int], isdb))
        } else {
            Seq::empty()
        },
        Action::BeginPass { pass } => match pass {
            Pass::Activity { id, section } => match table(id) {
                Some(m) => if isdb && section < m.sections.len() {
                    chars(field_list_text(cfg, m.sections[section as int]))
                } else {
                    Seq::empty()
                },
                None => Seq::empty(),
            },
            Pass::Horizontal => if isdb {
                chars(horizontal_names(file, cfg) + "\n"@)
            } else {
                Seq::empty()
            },
        },
        Action::Sample { pass, rec, prev, .. } => match view_of(file, rec, prev) {
            Some(view) => if rec < recs.len() {
                let t = recs[rec as int].time;
                match pass {
                    Pass::Activity { id, section } => match table(id) {
                        Some(m) => if section < m.sections.len() {
                            sample_lines(
                                cfg,
                                info,
                                m,
                                m.sections[section as int],
                                t,
                                view,
                                isdb,
                            )
                        } else {
                            Seq::empty()
                        },
                        None => Seq::empty(),
                    },
                    Pass::Horizontal => horizontal_text(cfg, info, file, t, view),
                }
            } else {
                Seq::empty()
            },
            None => Seq::empty(),
        },
    }
}

fn put_begin(out: &mut Doc, cfg: &SadfConfig, file: &SaFile, isdb: bool, pass: Pass)
    ensures
        final(out)@ == old(out)@ + (match pass {
            Pass::Activity { id, section } => match table(id) {
                Some(m) => if isdb && section < m.sections.len() {
                    chars(field_list_text(*cfg, m.sections[section as int]))
                } else {
                    Seq::empty()
                },
                None => Seq::empty(),
            },
            Pass::Horizontal => if isdb {
                chars(horizontal_names(*file, *cfg) + "\n"@)
            } else {
                Seq::empty()
            },
        }),
{
    assert(out@ =~= out@ + Seq::<Glyph>::empty());
    match pass {
        Pass::Activity { id, section } => match lookup(id) {
            Some(s) => if isdb && section < s.sections.len() {
                out.put(write_field_list(cfg, &s.sections[section]).as_str());
            },
            None => {},
        },
        Pass::Horizontal => if isdb {
            let mut line = horizontal_field_list(file, cfg);
            line.append("\n");
            out.put(line.as_str());
        },
    }
}

/// Appends what is shown for a part of the script.
pub fn put_action(
    out: &mut Doc,
    cfg: &SadfConfig,
    info: &FileInfo,
    file: &SaFile,
    recs: &Vec<Rec>,
    isdb: bool,
    action: Action,
)
    ensures
        final(out)@ == old(out)@ + action_lines(*cfg, *info, *file, recs@, isdb, action),
{
    assert(out@ =~= out@ + Seq::<Glyph>::empty());
    match action {
        Action::Header { .. } => {},
        Action::Restart { rec, cpu_nr } => if rec < recs.len() {
            out.put(write_restart(cfg, info, &recs[rec].time, cpu_nr, isdb).as_str());
        },
        Action::Comment { rec } => if rec < recs.len() {
            out.put(write_comment(cfg, info, &recs[rec], isdb).as_str());
        },
        Action::BeginPass { pass } => put_begin(out, cfg, file, isdb, pass),
        Action::Sample { pass, rec, prev, .. } => match find_view(file, rec, prev) {
            Some(view) => if rec < recs.len() {
                match pass {
                    Pass::Activity { id, section } => match lookup(id) {
                        Some(s) => if section < s.sections.len() {
                            emit_sample(
                                out,
                                cfg,
                                info,
                                &s,
                                &s.sections[section],
                                &recs[rec].time,
                                view,
                                isdb,
                            );
                        },
                        None => {},
                    },
                    Pass::Horizontal => horizontal_line(
                        out,
                        cfg,
                        info,
                        file,
                        &recs[rec].time,
                        view,
                    ),
                }
            },
            None => {},
        },
    }
}

/// What is shown for the first `n` parts of the script.
pub open spec fn script_lines(
    cfg: SadfConfig,
    info: FileInfo,
    file: SaFile,
    recs: Seq<Rec>,
    isdb: bool,
    actions: Seq<Action>,
    n: int,
) -> Seq<Glyph>
    decreases n,
{
    if n <= 0 {
        Seq::empty()
    } else {
        script_lines(cfg, info, file, recs, isdb, actions, n - 1) + action_lines(
            cfg,
            info,
            file,
            recs,
            isdb,
            actions[n - 1],
        )
    }
}

/// What is shown for a script.
pub fn write_script(
    cfg: &SadfConfig,
    info: &FileInfo,
    file: &SaFile,
    recs: &Vec<Rec>,
    isdb: bool,
    actions: &Vec<Action>,
) -> (r: Doc)
    ensures
        r@ == script_lines(*cfg, *info, *file, recs@, isdb, actions@, actions@.len() as int),
{
    let mut out = Doc::new();
    let mut i: usize = 0;
    while i < actions.len()
        invariant
            i <= actions@.len(),
            out@ == script_lines(*cfg, *info, *file, recs@, isdb, actions@, i as int),
        decreases actions.len() - i,
    {
        put_action(&mut out, cfg, info, file, recs, isdb, actions[i]);
        i = i + 1;
    }
    out
}

/// The passes over a file. All activities are on one line only in the database format.
pub open spec fn flat_passes(file: SaFile, cfg: SadfConfig, isdb: bool) -> Seq<Pass> {
    if isdb && cfg.horizontally {
        seq![Pass::Horizontal]
    } else {
        let ids = selection(file, cfg);
        passes_of(ids, cfg, ids.len() as int)
    }
}

/// The script of a file.
pub fn flat_script(file: &SaFile, cfg: &SadfConfig, extra: &SadfExtra, isdb: bool) -> (r: Script)
    ensures
        r.is_of(
            *file,
            flat_passes(*file, *cfg, isdb),
            extra.select,
            cfg.comments,
            false,
        ),
{
    let passes = if isdb && cfg.horizontally {
        vec![Pass::Horizontal]
    } else {
        activity_passes(&selected_ids(file, cfg), cfg)
    };
    assert(passes@ =~= flat_passes(*file, *cfg, isdb));
    Script::make(file, passes, extra.select, cfg.comments, false)
}

/// Whether `shown` is the flat output of a file: what its script shows, with the file described
/// in the time base of the configuration.
pub open spec fn is_flat_output(
    shown: Seq<Glyph>,
    file: SaFile,
    cfg: SadfConfig,
    select: RecordSelect,
    local_tz: Seq<char>,
    isdb: bool,
) -> bool {
    exists|script: Script, info: FileInfo|
        script.is_of(file, flat_passes(file, cfg, isdb), select, cfg.comments, false)
            && info.describes(file.header, cfg.time_base, local_tz) && shown
            == #[trigger] script_lines(
            cfg,
            info,
            file,
            script.index.recs@,
            isdb,
            script.actions@,
            script.actions@.len() as int,
        )
}

fn write_dbppc(file: &SaFile, cfg: &SadfConfig, extra: &SadfExtra, isdb: bool) -> (r: Doc)
    ensures
        is_flat_output(r@, *file, *cfg, extra.select, extra.local_tz@, isdb),
{
    let info = FileInfo::from_file_with(&file.header, cfg.time_base, extra.local_tz.as_str());
    let script = flat_script(file, cfg, extra, isdb);
    write_script(cfg, &info, file, &script.index.recs, isdb, &script.actions)
}

/// The database format.
pub fn write_db(file: &SaFile, cfg: &SadfConfig, local_tz: &str) -> (r: Doc)
    ensures
        is_flat_output(
            r@,
            *file,
            *cfg,
            every_record(),
            local_tz@,
            true,
        ),
{
    let extra = SadfExtra { select: RecordSelect::default(), local_tz: local_tz.to_owned() };
    write_db_with(file, cfg, &extra)
}

/// The database format, of the records that `extra` selects.
pub fn write_db_with(file: &SaFile, cfg: &SadfConfig, extra: &SadfExtra) -> (r: Doc)
    ensures
        is_flat_output(r@, *file, *cfg, extra.select, extra.local_tz@, true),
{
    write_dbppc(file, cfg, extra, true)
}

/// The format with a line for each value.
pub fn write_ppc(file: &SaFile, cfg: &SadfConfig, local_tz: &str) -> (r: Doc)
    ensures
        is_flat_output(
            r@,
            *file,
            *cfg,
            every_record(),
            local_tz@,
            false,
        ),
{
    let extra = SadfExtra { select: RecordSelect::default(), local_tz: local_tz.to_owned() };
    write_ppc_with(file, cfg, &extra)
}

/// The format with a line for each value, of the records that `extra` selects.
pub fn write_ppc_with(file: &SaFile, cfg: &SadfConfig, extra: &SadfExtra) -> (r: Doc)
    ensures
        is_flat_output(r@, *file, *cfg, extra.select, extra.local_tz@, false),
{
    write_dbppc(file, cfg, extra, false)
}

}
