//! The raw format: counters as they are in the file, before and now.

use vstd::prelude::*;

use crate::clock::{format_time, time_text, RecordTime};
use crate::doc::{chars, Doc, Form, Glyph, Slot};
use crate::model::{ActivityId, Availability};
use crate::sadf::access::{
    cell_position, item_models, pair_in, ActivityPair, ComputeContext, IntervalView, ItemModel,
    ItemPair,
};
use crate::sadf::config::{SadfConfig, SadfExtra};
use crate::sadf::dbppc::{comment_of, comment_str, display_cpu_count};
use crate::sadf::file::{
    activity_passes, find_view, passes_of, selected_ids, selection, view_of, SaFile, Script,
};
use crate::sadf::items::{
    any_irq_cpu, any_irq_cpu_selected, irq_at, irq_cpu_passes, irq_cpu_selected, irq_dimensions,
    irq_item, irq_name, irq_size, irq_title, is_new_serial_line, items_shown, new_serial_line,
    selected_items,
};
use crate::sadf::logic2::{Action, Pass};
use crate::sadf::records::{header_list, Rec, RecHeader, RecordIndex};
use crate::sadf::render::{
    bat_status, battery_state, field_text, item_label_in, label_in, raw_pair, raw_values, text_of,
};
use crate::sadf::select::{every_record, RecordSelect};
use crate::sadf::stamp::{stamp_of, FileInfo, Stamp};
use crate::sadf::table::{
    lookup, rawf, table, ActivitySpec, Field, Fmt, RawField, RawModel, RawSpec, RawStyle, Section,
    SectionModel, SpecModel,
};
use crate::sadf::value::{
    cpu_label, show_value, value_shown, ItemLabel, Shown, ShownModel, ABSENT_TEXT,
};
use crate::sar_text::header::cpu_count;
use crate::sar_text::options::name_passes;
use crate::text::{cut, dec, dec_text, find, find_char, hex, hex_text, push_dec, same_text};

verus! {

/// The tokens of a line one after the other, `; ` between them.
pub open spec fn joined(tokens: Seq<ShownModel>) -> Seq<Glyph>
    decreases tokens.len(),
{
    if tokens.len() == 0 {
        Seq::empty()
    } else if tokens.len() == 1 {
        tokens[0].glyphs()
    } else {
        joined(tokens.drop_last()) + chars("; "@) + tokens.last().glyphs()
    }
}

/// A line of tokens.
pub open spec fn token_line(tokens: Seq<ShownModel>) -> Seq<Glyph> {
    joined(tokens) + chars(";\n"@)
}

/// What a list of tokens holds.
pub open spec fn shown_models(tokens: Seq<Shown>) -> Seq<ShownModel> {
    Seq::new(tokens.len(), |i: int| tokens[i].model())
}

/// Appends a line of tokens.
pub fn put_tokens(out: &mut Doc, tokens: &Vec<Shown>)
    ensures
        final(out)@ == old(out)@ + token_line(shown_models(tokens@)),
{
    let ghost start = out@;
    let ghost all = shown_models(tokens@);
    let mut i: usize = 0;
    assert(out@ =~= start + joined(all.take(0)));
    while i < tokens.len()
        invariant
            i <= tokens@.len(),
            all == shown_models(tokens@),
            out@ == start + joined(all.take(i as int)),
        decreases tokens.len() - i,
    {
        let ghost before = joined(all.take(i as int));
        proof {
            assert(all.take(i + 1).drop_last() =~= all.take(i as int));
            assert(all.take(i + 1).last() == tokens@[i as int].model());
        }
        if i > 0 {
            out.put("; ");
        }
        tokens[i].put(out);
        proof {
            let t = tokens@[i as int].model().glyphs();
            if i > 0 {
                assert(out@ =~= start + (before + chars("; "@) + t));
            } else {
                assert(before =~= Seq::empty());
                assert(out@ =~= start + t);
            }
        }
        i = i + 1;
    }
    assert(all.take(tokens@.len() as int) =~= all);
    out.put(";\n");
    assert(out@ =~= start + token_line(all));
}

/// A line of tokens.
pub fn join_tokens(tokens: &Vec<Shown>) -> (r: Doc)
    ensures
        r@ == token_line(shown_models(tokens@)),
{
    let mut out = Doc::new();
    put_tokens(&mut out, tokens);
    assert(out@ =~= token_line(shown_models(tokens@)));
    out
}

/// A text as a token.
pub open spec fn word(s: Seq<char>) -> ShownModel {
    ShownModel::Text(s)
}

fn push_word(tokens: &mut Vec<Shown>, s: &str)
    ensures
        shown_models(final(tokens)@) == shown_models(old(tokens)@).push(word(s@)),
{
    let ghost before = tokens@;
    tokens.push(Shown::Text(s.to_owned()));
    assert(shown_models(tokens@) =~= shown_models(before).push(word(s@)));
}

fn push_shown(tokens: &mut Vec<Shown>, s: Shown)
    ensures
        shown_models(final(tokens)@) == shown_models(old(tokens)@).push(s.model()),
{
    let ghost before = tokens@;
    tokens.push(s);
    assert(shown_models(tokens@) =~= shown_models(before).push(s.model()));
}

/// A value as it was read. What the file's generation has no field for is 0; what the record
/// does not hold is left out.
pub open spec fn raw_token(v: Availability) -> Seq<char> {
    match v {
        Availability::Present(x) => dec(x as nat),
        Availability::UnsupportedBySource => "0"@,
        Availability::MissingInSample => ABSENT_TEXT@,
    }
}

/// A value as it was read.
pub fn u64_token(v: Availability) -> (r: String)
    ensures
        r@ == raw_token(v),
{
    match v {
        Availability::Present(x) => dec_text(x),
        Availability::UnsupportedBySource => "0".to_owned(),
        Availability::MissingInSample => ABSENT_TEXT.to_owned(),
    }
}

/// The number that a value counts as where values are compared.
pub open spec fn comparable(v: Availability) -> Option<u64> {
    match v {
        Availability::Present(x) => Some(x),
        Availability::UnsupportedBySource => Some(0),
        Availability::MissingInSample => None,
    }
}

/// Whether a counter went down.
pub open spec fn decreased(prev: Availability, curr: Availability) -> bool {
    match (comparable(prev), comparable(curr)) {
        (Some(p), Some(c)) => c < p,
        _ => false,
    }
}

fn number_of(v: Availability) -> (r: Option<u64>)
    ensures
        r == comparable(v),
{
    match v {
        Availability::Present(x) => Some(x),
        Availability::UnsupportedBySource => Some(0),
        Availability::MissingInSample => None,
    }
}

/// Whether a counter went down.
pub fn is_decrease(prev: Availability, curr: Availability) -> (r: bool)
    ensures
        r == decreased(prev, curr),
{
    match (number_of(prev), number_of(curr)) {
        (Some(p), Some(c)) => c < p,
        _ => false,
    }
}

/// The name of a counter, marked where it went down and the file is looked into.
pub open spec fn counter_name(
    name: Seq<char>,
    marks: bool,
    prev: Availability,
    curr: Availability,
) -> Seq<char> {
    if marks && decreased(prev, curr) {
        name + " [DEC]"@
    } else {
        name
    }
}

fn push_counter(tokens: &mut Vec<Shown>, name: &str, marks: bool, prev: Availability, curr: Availability)
    ensures
        shown_models(final(tokens)@) == shown_models(old(tokens)@) + counter_tokens(
            name@,
            marks,
            prev,
            curr,
        ),
{
    let ghost before = shown_models(tokens@);
    let mut title = name.to_owned();
    if marks && is_decrease(prev, curr) {
        title.append(" [DEC]");
    }
    push_word(tokens, title.as_str());
    push_word(tokens, u64_token(prev).as_str());
    push_word(tokens, u64_token(curr).as_str());
    assert(shown_models(tokens@) =~= before + counter_tokens(name@, marks, prev, curr));
}

/// The tokens of a counter: its name, its value before and its value now.
pub open spec fn counter_tokens(
    name: Seq<char>,
    marks: bool,
    prev: Availability,
    curr: Availability,
) -> Seq<ShownModel> {
    seq![
        word(counter_name(name, marks, prev, curr)),
        word(raw_token(prev)),
        word(raw_token(curr)),
    ]
}

/// The value of a field that is no counter.
pub open spec fn plain_token(id: ActivityId, item: ItemModel, f: RawField, debug: bool) -> ShownModel {
    let now = item.raw_by_name(f.col@, false);
    let text = match text_of(id, item, f.col@) {
        Some(t) => t,
        None => ""@,
    };
    match f.style {
        RawStyle::Int => match now {
            Availability::Present(sts) => if debug && id == ActivityId::PWR_BAT && f.col@
                == "status"@ {
                word(raw_token(now) + " ["@ + battery_state(sts) + "]"@)
            } else {
                word(raw_token(now))
            },
            _ => word(raw_token(now)),
        },
        RawStyle::IntCompat => value_shown(
            item.computed_by_name(f.col@),
            Fmt::Int,
            ABSENT_TEXT@,
        ),
        RawStyle::Sensor => match now {
            Availability::Present(bits) => ShownModel::Number(
                Slot { bits, form: Form::Fixed { decimals: 6, divisor: 1, sign: false }, width: 0 },
            ),
            _ => word(ABSENT_TEXT@),
        },
        RawStyle::Text => word(text),
        RawStyle::QuotedText => word("\""@ + text + "\""@),
        RawStyle::Hex => match now {
            Availability::Present(v) => word(hex(v as nat)),
            _ => word(ABSENT_TEXT@),
        },
        _ => word(""@),
    }
}

/// Whether a field is shown with its value before and its value now.
pub open spec fn is_counter(style: RawStyle) -> bool {
    style is Pval || style is Pair || style is PvalSum || style is PvalDiff
}

/// The tokens of a field.
pub open spec fn field_tokens(id: ActivityId, item: ItemModel, f: RawField, debug: bool) -> Seq<
    ShownModel,
> {
    if is_counter(f.style) {
        let (prev, curr) = raw_values(item, f);
        counter_tokens(f.name@, debug && !(f.style is Pair), prev, curr)
    } else {
        seq![word(f.name@), plain_token(id, item, f, debug)]
    }
}

fn show_plain(id: ActivityId, item: &ItemPair<'_>, f: &RawField, debug: bool) -> (r: Shown)
    ensures
        r.model() == plain_token(id, item.model(), *f, debug),
{
    match f.style {
        RawStyle::Int => {
            let v = item.raw_curr_by_name(f.col);
            let mut token = u64_token(v);
            match v {
                Availability::Present(sts) => if debug && id == ActivityId::PWR_BAT && same_text(
                    f.col,
                    "status",
                ) {
                    token.append(" [");
                    token.append(bat_status(sts));
                    token.append("]");
                },
                _ => {},
            }
            Shown::Text(token)
        },
        RawStyle::IntCompat => show_value(item.computed_by_name(f.col), Fmt::Int, ABSENT_TEXT),
        RawStyle::Sensor => match item.raw_curr_by_name(f.col) {
            Availability::Present(bits) => Shown::Number(
                Slot { bits, form: Form::Fixed { decimals: 6, divisor: 1, sign: false }, width: 0 },
            ),
            _ => Shown::Text(ABSENT_TEXT.to_owned()),
        },
        RawStyle::Text => match field_text(id, item, f.col) {
            Some(t) => Shown::Text(t),
            None => Shown::Text("".to_owned()),
        },
        RawStyle::QuotedText => {
            let mut token = "\"".to_owned();
            match field_text(id, item, f.col) {
                Some(t) => token.append(t.as_str()),
                None => token.append(""),
            }
            token.append("\"");
            Shown::Text(token)
        },
        RawStyle::Hex => match item.raw_curr_by_name(f.col) {
            Availability::Present(v) => Shown::Text(hex_text(v)),
            _ => Shown::Text(ABSENT_TEXT.to_owned()),
        },
        _ => Shown::Text("".to_owned()),
    }
}

/// Appends the tokens of a field.
pub fn push_raw_field(
    tokens: &mut Vec<Shown>,
    id: ActivityId,
    item: &ItemPair<'_>,
    f: &RawField,
    debug: bool,
)
    ensures
        shown_models(final(tokens)@) == shown_models(old(tokens)@) + field_tokens(
            id,
            item.model(),
            *f,
            debug,
        ),
{
    match f.style {
        RawStyle::Pval | RawStyle::PvalSum(_, _, _) | RawStyle::PvalDiff(_, _) => {
            let (prev, curr) = raw_pair(item, f);
            push_counter(tokens, f.name, debug, prev, curr);
        },
        RawStyle::Pair => {
            let (prev, curr) = raw_pair(item, f);
            push_counter(tokens, f.name, false, prev, curr);
        },
        _ => {
            let ghost before = shown_models(tokens@);
            push_word(tokens, f.name);
            push_shown(tokens, show_plain(id, item, f, debug));
            assert(shown_models(tokens@) =~= before + field_tokens(id, item.model(), *f, debug));
        },
    }
}

/// The fields of the flat formats as counters, of the first `n` that show a column.
pub open spec fn counters_of(fields: Seq<Field>, n: int) -> Seq<RawField>
    decreases n,
{
    if n <= 0 {
        Seq::empty()
    } else {
        let f = fields[n - 1];
        if f.pp@.len() > 0 && f.col@.len() > 0 {
            counters_of(fields, n - 1).push(rawf(f.col, f.pp, RawStyle::Pval))
        } else {
            counters_of(fields, n - 1)
        }
    }
}

/// The first `n` fields of a list that are shown.
pub open spec fn open_fields(cfg: SadfConfig, list: Seq<RawField>, n: int) -> Seq<RawField>
    decreases n,
{
    if n <= 0 {
        Seq::empty()
    } else if cfg.section.opens_field(list[n - 1].gate) {
        open_fields(cfg, list, n - 1).push(list[n - 1])
    } else {
        open_fields(cfg, list, n - 1)
    }
}

/// The fields of a section in the raw format.
pub open spec fn raw_fields_of(cfg: SadfConfig, section: SectionModel) -> Seq<RawField> {
    match section.raw {
        RawModel::Fields(list) => open_fields(cfg, list, list.len() as int),
        RawModel::AllPval => counters_of(section.fields, section.fields.len() as int),
    }
}

/// The fields of a section in the raw format.
pub fn raw_fields(section: &Section, cfg: &SadfConfig) -> (r: Vec<RawField>)
    ensures
        r@ == raw_fields_of(*cfg, section.model()),
{
    let mut out: Vec<RawField> = Vec::new();
    let mut i: usize = 0;
    match &section.raw {
        RawSpec::Fields(list) => {
            while i < list.len()
                invariant
                    i <= list@.len(),
                    out@ == open_fields(*cfg, list@, i as int),
                decreases list.len() - i,
            {
                if cfg.section.allows_field(list[i].gate) {
                    out.push(list[i]);
                }
                i = i + 1;
            }
        },
        RawSpec::AllPval => {
            while i < section.fields.len()
                invariant
                    i <= section.fields@.len(),
                    out@ == counters_of(section.fields@, i as int),
                decreases section.fields.len() - i,
            {
                let f = section.fields[i];
                if !f.pp.is_empty() && !f.col.is_empty() {
                    out.push(rawf(f.col, f.pp, RawStyle::Pval));
                }
                i = i + 1;
            }
        },
    }
    out
}

/// The first of the names that head a section.
pub open spec fn first_name(hdr: Seq<char>) -> Seq<char> {
    hdr.take(find(hdr, ';'))
}

fn head_name(hdr: &str) -> (r: String)
    ensures
        r@ == first_name(hdr@),
{
    cut(hdr, 0, find_char(hdr, ';'))
}

/// Whether devices of this kind can be registered while records are written.
pub open spec fn registers(id: ActivityId) -> bool {
    id == ActivityId::DISK || id == ActivityId::NET_DEV || id == ActivityId::NET_EDEV || id
        == ActivityId::NET_FC || id == ActivityId::SERIAL
}

/// The mark of a device that the earlier record does not hold, or that was registered anew.
pub open spec fn mark_of(id: ActivityId, item: ItemModel) -> Seq<char> {
    if !registers(id) {
        ""@
    } else if !item.ctx.has_prev {
        " [NEW]"@
    } else if (item.facts matches Some(f) && f.replaced) && (id == ActivityId::DISK || id
        == ActivityId::NET_DEV || id == ActivityId::NET_EDEV) {
        " [BCK]"@
    } else {
        ""@
    }
}

/// The mark of a device that the earlier record does not hold, or that was registered anew.
pub fn registration_mark(id: ActivityId, item: &ItemPair<'_>) -> (r: &'static str)
    ensures
        r@ == mark_of(id, item.model()),
{
    let renews = id == ActivityId::DISK || id == ActivityId::NET_DEV || id == ActivityId::NET_EDEV;
    if !(renews || id == ActivityId::NET_FC || id == ActivityId::SERIAL) {
        return "";
    }
    if !item.ctx.has_prev {
        return " [NEW]";
    }
    if item.is_replaced() && renews {
        " [BCK]"
    } else {
        ""
    }
}

/// The tokens that tell an item. USB devices have none; a file system is quoted.
pub open spec fn label_tokens(
    m: SpecModel,
    section: SectionModel,
    item: ItemModel,
    debug: bool,
) -> Seq<ShownModel> {
    if m.item is Single || m.id == ActivityId::PWR_USB {
        Seq::empty()
    } else {
        let mark = if debug {
            mark_of(m.id, item)
        } else {
            ""@
        };
        let db = label_in(m.item, section, item).db;
        seq![
            word(first_name(section.hdr_line@) + mark),
            word(
                if m.id == ActivityId::FS {
                    "\""@ + db + "\""@
                } else {
                    db
                },
            ),
        ]
    }
}

fn push_item_label(
    tokens: &mut Vec<Shown>,
    spec_of: &ActivitySpec,
    section: &Section,
    item: &ItemPair<'_>,
    debug: bool,
)
    ensures
        shown_models(final(tokens)@) == shown_models(old(tokens)@) + label_tokens(
            spec_of.model(),
            section.model(),
            item.model(),
            debug,
        ),
{
    let ghost before = shown_models(tokens@);
    if spec_of.item.is_single() || spec_of.id == ActivityId::PWR_USB {
        assert(before =~= before + Seq::<ShownModel>::empty());
        return;
    }
    let mut head = head_name(section.hdr_line);
    if debug {
        head.append(registration_mark(spec_of.id, item));
    } else {
        head.append("");
    }
    let label = item_label_in(spec_of, section, item);
    push_word(tokens, head.as_str());
    if spec_of.id == ActivityId::FS {
        let mut quoted = "\"".to_owned();
        quoted.append(label.db.as_str());
        quoted.append("\"");
        push_word(tokens, quoted.as_str());
    } else {
        push_word(tokens, label.db.as_str());
    }
    assert(shown_models(tokens@) =~= before + label_tokens(
        spec_of.model(),
        section.model(),
        item.model(),
        debug,
    ));
}

/// How many fields come before what tells the item: the device numbers of a block device.
pub open spec fn label_place(id: ActivityId) -> int {
    if id == ActivityId::DISK {
        2
    } else {
        0
    }
}

/// The tokens of the first `n` fields, with what tells the item in its place.
pub open spec fn item_tokens_upto(
    m: SpecModel,
    section: SectionModel,
    fields: Seq<RawField>,
    item: ItemModel,
    debug: bool,
    n: int,
) -> Seq<ShownModel>
    decreases n,
{
    if n <= 0 {
        Seq::empty()
    } else {
        let before = item_tokens_upto(m, section, fields, item, debug, n - 1);
        let here = if n - 1 == label_place(m.id) {
            before + label_tokens(m, section, item, debug)
        } else {
            before
        };
        here + field_tokens(m.id, item, fields[n - 1], debug)
    }
}

/// The tokens of an item.
pub open spec fn item_tokens(
    m: SpecModel,
    section: SectionModel,
    fields: Seq<RawField>,
    item: ItemModel,
    debug: bool,
    ts: Seq<char>,
) -> Seq<ShownModel> {
    let label = label_tokens(m, section, item, debug);
    if new_serial_line(m.id, item) {
        seq![word(ts)] + label
    } else {
        let named = seq![word(ts)] + item_tokens_upto(
            m,
            section,
            fields,
            item,
            debug,
            fields.len() as int,
        );
        if fields.len() <= label_place(m.id) {
            named + label
        } else {
            named
        }
    }
}

fn make_item_tokens(
    spec_of: &ActivitySpec,
    section: &Section,
    fields: &Vec<RawField>,
    item: &ItemPair<'_>,
    debug: bool,
    ts: &str,
) -> (r: Vec<Shown>)
    ensures
        shown_models(r@) == item_tokens(
            spec_of.model(),
            section.model(),
            fields@,
            item.model(),
            debug,
            ts@,
        ),
{
    let ghost m = spec_of.model();
    let mut tokens: Vec<Shown> = Vec::new();
    push_word(&mut tokens, ts);
    let ghost start = seq![word(ts@)];
    assert(shown_models(tokens@) =~= start);
    if is_new_serial_line(spec_of.id, item) {
        push_item_label(&mut tokens, spec_of, section, item, debug);
        return tokens;
    }
    let place: usize = if spec_of.id == ActivityId::DISK {
        2
    } else {
        0
    };
    let mut i: usize = 0;
    assert(shown_models(tokens@) =~= start + item_tokens_upto(
        m,
        section.model(),
        fields@,
        item.model(),
        debug,
        0,
    ));
    while i < fields.len()
        invariant
            i <= fields@.len(),
            m == spec_of.model(),
            place == label_place(spec_of.id),
            start == seq![word(ts@)],
            shown_models(tokens@) == start + item_tokens_upto(
                m,
                section.model(),
                fields@,
                item.model(),
                debug,
                i as int,
            ),
        decreases fields.len() - i,
    {
        let ghost before = item_tokens_upto(
            m,
            section.model(),
            fields@,
            item.model(),
            debug,
            i as int,
        );
        if i == place {
            push_item_label(&mut tokens, spec_of, section, item, debug);
        }
        push_raw_field(&mut tokens, spec_of.id, item, &fields[i], debug);
        proof {
            let add = field_tokens(m.id, item.model(), fields@[i as int], debug);
            if i == place {
                assert(shown_models(tokens@) =~= start + (before + label_tokens(
                    m,
                    section.model(),
                    item.model(),
                    debug,
                ) + add));
            } else {
                assert(shown_models(tokens@) =~= start + (before + add));
            }
        }
        i = i + 1;
    }
    if fields.len() <= place {
        push_item_label(&mut tokens, spec_of, section, item, debug);
    }
    tokens
}

/// The lines of a list of items.
pub open spec fn raw_items(
    m: SpecModel,
    section: SectionModel,
    fields: Seq<RawField>,
    items: Seq<ItemModel>,
    debug: bool,
    ts: Seq<char>,
) -> Seq<Glyph>
    decreases items.len(),
{
    if items.len() == 0 {
        Seq::empty()
    } else {
        raw_items(m, section, fields, items.drop_last(), debug, ts) + token_line(
            item_tokens(m, section, fields, items.last(), debug, ts),
        )
    }
}

fn write_generic(
    out: &mut Doc,
    cfg: &SadfConfig,
    spec_of: &ActivitySpec,
    section: &Section,
    pair: &ActivityPair<'_>,
    ts: &str,
)
    requires
        spec_of.id == pair.id,
    ensures
        final(out)@ == old(out)@ + raw_items(
            spec_of.model(),
            section.model(),
            raw_fields_of(*cfg, section.model()),
            items_shown(*cfg, spec_of.item, *pair, true),
            cfg.debug,
            ts@,
        ),
{
    let fields = raw_fields(section, cfg);
    let items = selected_items(pair, spec_of, cfg, true);
    let ghost start = out@;
    let ghost all = item_models(items@);
    let ghost m = spec_of.model();
    let mut i: usize = 0;
    assert(all.take(0) =~= Seq::empty());
    assert(out@ =~= start + raw_items(m, section.model(), fields@, all.take(0), cfg.debug, ts@));
    while i < items.len()
        invariant
            i <= items@.len(),
            all == item_models(items@),
            m == spec_of.model(),
            out@ == start + raw_items(
                m,
                section.model(),
                fields@,
                all.take(i as int),
                cfg.debug,
                ts@,
            ),
        decreases items.len() - i,
    {
        let ghost before = raw_items(
            m,
            section.model(),
            fields@,
            all.take(i as int),
            cfg.debug,
            ts@,
        );
        proof {
            assert(all.take(i + 1).drop_last() =~= all.take(i as int));
            assert(all.take(i + 1).last() == items@[i as int].model());
        }
        let tokens = make_item_tokens(spec_of, section, &fields, &items[i], cfg.debug, ts);
        put_tokens(out, &tokens);
        assert(out@ =~= start + (before + token_line(shown_models(tokens@))));
        i = i + 1;
    }
    assert(all.take(items@.len() as int) =~= all);
}

/// A CPU of the record; zeros where the record does not hold it.
pub open spec fn cpu_now(pair: ActivityPair<'_>, i: int) -> crate::model::ItemSnapshot {
    if 0 <= i < pair.items_now().len() {
        pair.items_now()[i]
    } else {
        pair.sample.zero
    }
}

/// A CPU of the earlier record; zeros where that record does not hold it.
pub open spec fn cpu_before(pair: ActivityPair<'_>, i: int) -> crate::model::ItemSnapshot {
    match pair.sample.prev {
        Some(p) => if 0 <= i < p.items@.len() {
            p.items@[i]
        } else {
            pair.sample.zero
        },
        None => pair.sample.zero,
    }
}

/// Whether a CPU was off. One that the record does not hold was.
pub open spec fn cpu_off(id: ActivityId, pair: ActivityPair<'_>, i: int) -> bool {
    if id == ActivityId::CPU && 0 <= i < pair.sample.cpus@.len() {
        pair.sample.cpus@[i].offline
    } else if id != ActivityId::CPU && 0 <= i < pair.sample.items@.len() {
        pair.sample.items@[i].unused
    } else {
        i >= pair.items_now().len()
    }
}

/// Whether no tick of a CPU passed in the interval.
pub open spec fn cpu_tickless(id: ActivityId, pair: ActivityPair<'_>, i: int) -> bool {
    id == ActivityId::CPU && 0 <= i < pair.sample.cpus@.len() && pair.sample.cpus@[i].tickless
}

/// The mark of a CPU. The line for all of them has none.
pub open spec fn cpu_mark(id: ActivityId, pair: ActivityPair<'_>, i: int, debug: bool) -> Seq<char> {
    if !debug || i == 0 {
        ""@
    } else if cpu_off(id, pair, i) {
        " [OFF]"@
    } else if cpu_tickless(id, pair, i) {
        " [TLS]"@
    } else {
        ""@
    }
}

/// The item that a CPU is compared with. Where marks are shown it is the one that was put right,
/// unless the CPU was off.
pub open spec fn cpu_partner(id: ActivityId, pair: ActivityPair<'_>, i: int, debug: bool) -> crate::model::ItemSnapshot {
    if debug && i > 0 && id == ActivityId::CPU && 0 <= i < pair.sample.cpus@.len() && !cpu_off(
        id,
        pair,
        i,
    ) {
        pair.sample.cpus@[i].prev
    } else {
        cpu_before(pair, i)
    }
}

/// A CPU as an item.
pub open spec fn cpu_item(pair: ActivityPair<'_>, i: int, debug: bool) -> ItemModel {
    ItemModel {
        index: i,
        def: pair.sample.def,
        plan: pair.sample.plan,
        prev: Some(cpu_partner(pair.id, pair, i, debug)),
        curr: cpu_now(pair, i),
        ctx: ComputeContext {
            itv_cs: pair.itv_cs,
            has_prev: true,
            continuous: true,
            aggregate_item: false,
        },
        facts: pair.facts_at(i),
        row: None,
    }
}

/// The tokens of the first `n` fields.
pub open spec fn fields_tokens(
    id: ActivityId,
    item: ItemModel,
    fields: Seq<RawField>,
    debug: bool,
    n: int,
) -> Seq<ShownModel>
    decreases n,
{
    if n <= 0 {
        Seq::empty()
    } else {
        fields_tokens(id, item, fields, debug, n - 1) + field_tokens(
            id,
            item,
            fields[n - 1],
            debug,
        )
    }
}

fn push_fields(
    tokens: &mut Vec<Shown>,
    id: ActivityId,
    item: &ItemPair<'_>,
    fields: &Vec<RawField>,
    debug: bool,
)
    ensures
        shown_models(final(tokens)@) == shown_models(old(tokens)@) + fields_tokens(
            id,
            item.model(),
            fields@,
            debug,
            fields@.len() as int,
        ),
{
    let ghost start = shown_models(tokens@);
    let mut i: usize = 0;
    assert(start =~= start + fields_tokens(id, item.model(), fields@, debug, 0));
    while i < fields.len()
        invariant
            i <= fields@.len(),
            shown_models(tokens@) == start + fields_tokens(
                id,
                item.model(),
                fields@,
                debug,
                i as int,
            ),
        decreases fields.len() - i,
    {
        let ghost before = fields_tokens(id, item.model(), fields@, debug, i as int);
        push_raw_field(tokens, id, item, &fields[i], debug);
        assert(shown_models(tokens@) =~= start + (before + field_tokens(
            id,
            item.model(),
            fields@[i as int],
            debug,
        )));
        i = i + 1;
    }
}

/// The tokens of a CPU.
pub open spec fn cpu_tokens(
    pair: ActivityPair<'_>,
    section: SectionModel,
    fields: Seq<RawField>,
    i: int,
    debug: bool,
    ts: Seq<char>,
) -> Seq<ShownModel> {
    seq![
        word(ts),
        word(first_name(section.hdr_line@) + cpu_mark(pair.id, pair, i, debug)),
        word(cpu_label(i).db),
    ] + fields_tokens(pair.id, cpu_item(pair, i, debug), fields, debug, fields.len() as int)
}

fn is_cpu_off(pair: &ActivityPair<'_>, i: usize) -> (r: bool)
    ensures
        r == cpu_off(pair.id, *pair, i as int),
{
    if pair.id == ActivityId::CPU && i < pair.sample.cpus.len() {
        pair.sample.cpus[i].offline
    } else if pair.id != ActivityId::CPU && i < pair.sample.items.len() {
        pair.sample.items[i].unused
    } else {
        i >= pair.sample.curr.items.len()
    }
}

fn make_cpu_tokens(
    pair: &ActivityPair<'_>,
    section: &Section,
    fields: &Vec<RawField>,
    i: usize,
    debug: bool,
    ts: &str,
) -> (r: Vec<Shown>)
    ensures
        shown_models(r@) == cpu_tokens(*pair, section.model(), fields@, i as int, debug, ts@),
{
    let curr = if i < pair.sample.curr.items.len() {
        &pair.sample.curr.items[i]
    } else {
        &pair.sample.zero
    };
    let before = match &pair.sample.prev {
        Some(p) => if i < p.items.len() {
            &p.items[i]
        } else {
            &pair.sample.zero
        },
        None => &pair.sample.zero,
    };
    let off = is_cpu_off(pair, i);
    let counted = pair.id == ActivityId::CPU && i < pair.sample.cpus.len();
    let mut mark: &'static str = "";
    let mut prev = before;
    if debug && i > 0 {
        if off {
            mark = " [OFF]";
        } else if counted {
            if pair.sample.cpus[i].tickless {
                mark = " [TLS]";
            }
            prev = &pair.sample.cpus[i].prev;
        }
    }
    let facts = if i < pair.sample.items.len() {
        Some(&pair.sample.items[i])
    } else {
        None
    };
    let ctx = ComputeContext {
        itv_cs: pair.itv_cs,
        has_prev: true,
        continuous: true,
        aggregate_item: false,
    };
    let item = ItemPair::single(
        i,
        &pair.sample.def,
        &pair.sample.plan,
        Some(prev),
        curr,
        ctx,
        facts,
    );
    assert(item.model() =~= cpu_item(*pair, i as int, debug));
    let mut head = head_name(section.hdr_line);
    head.append(mark);
    let label = ItemLabel::cpu(i);
    let mut tokens: Vec<Shown> = Vec::new();
    push_word(&mut tokens, ts);
    push_word(&mut tokens, head.as_str());
    push_word(&mut tokens, label.db.as_str());
    assert(shown_models(tokens@) =~= seq![word(ts@), word(head@), word(label.db@)]);
    push_fields(&mut tokens, pair.id, &item, fields, debug);
    tokens
}

/// The lines of the CPUs from `from` on and before `n`.
pub open spec fn cpu_lines(
    cfg: SadfConfig,
    pair: ActivityPair<'_>,
    section: SectionModel,
    from: int,
    n: int,
    ts: Seq<char>,
) -> Seq<Glyph>
    decreases n,
{
    if n <= from || n <= 0 {
        Seq::empty()
    } else {
        let before = cpu_lines(cfg, pair, section, from, n - 1, ts);
        if cfg.cpus.selects(n - 1) {
            before + token_line(
                cpu_tokens(
                    pair,
                    section,
                    raw_fields_of(cfg, section),
                    n - 1,
                    cfg.debug,
                    ts,
                ),
            )
        } else {
            before
        }
    }
}

/// The first CPU that is shown: the packets of all CPUs together are not in the file.
pub open spec fn first_cpu(id: ActivityId) -> int {
    if id == ActivityId::NET_SOFT {
        1
    } else {
        0
    }
}

/// The number of CPUs that are shown: those that room was kept for, and those of the record.
pub open spec fn cpu_room(pair: ActivityPair<'_>, nr_ini: u32) -> int {
    if nr_ini > pair.items_now().len() {
        nr_ini as int
    } else {
        pair.items_now().len() as int
    }
}

fn write_per_cpu(
    out: &mut Doc,
    cfg: &SadfConfig,
    section: &Section,
    pair: &ActivityPair<'_>,
    nr_ini: u32,
    ts: &str,
)
    ensures
        final(out)@ == old(out)@ + cpu_lines(
            *cfg,
            *pair,
            section.model(),
            first_cpu(pair.id),
            cpu_room(*pair, nr_ini),
            ts@,
        ),
{
    let fields = raw_fields(section, cfg);
    let from: usize = if pair.id == ActivityId::NET_SOFT {
        1
    } else {
        0
    };
    let n: usize = if nr_ini as usize > pair.sample.curr.items.len() {
        nr_ini as usize
    } else {
        pair.sample.curr.items.len()
    };
    let ghost start = out@;
    let mut i: usize = from;
    assert(out@ =~= start + cpu_lines(*cfg, *pair, section.model(), from as int, i as int, ts@));
    while i < n
        invariant
            from <= i,
            i <= n || i == from,
            fields@ == raw_fields_of(*cfg, section.model()),
            out@ == start + cpu_lines(*cfg, *pair, section.model(), from as int, i as int, ts@),
        decreases n - i,
    {
        let ghost before = cpu_lines(*cfg, *pair, section.model(), from as int, i as int, ts@);
        if cfg.cpus.includes(i) {
            let tokens = make_cpu_tokens(pair, section, &fields, i, cfg.debug, ts);
            put_tokens(out, &tokens);
            assert(out@ =~= start + (before + token_line(shown_models(tokens@))));
        }
        i = i + 1;
    }
    assert(out@ == start + cpu_lines(*cfg, *pair, section.model(), from as int, n as int, ts@));
}

/// The values of an interrupt on a CPU, before and now.
pub open spec fn irq_counts(pair: ActivityPair<'_>, cpu: int, irq: int) -> (Availability, Availability) {
    match irq_at(pair, cpu, irq) {
        Some(item) => (item.raw_by_name("intr"@, true), item.raw_by_name("intr"@, false)),
        None => (Availability::MissingInSample, Availability::MissingInSample),
    }
}

/// The name of the counts of a CPU.
pub open spec fn cpu_title(cpu: int) -> Seq<char> {
    if cpu == 0 {
        "all"@
    } else {
        "CPU"@ + dec((cpu - 1) as nat)
    }
}

/// The name of the counts of a CPU.
pub fn cpu_title_text(cpu: usize) -> (r: String)
    ensures
        r@ == cpu_title(cpu as int),
{
    if cpu == 0 {
        return "all".to_owned();
    }
    let mut out = "CPU".to_owned();
    push_dec(&mut out, cpu as u64 - 1);
    out
}

/// The tokens of an interrupt on the first `n` CPUs.
pub open spec fn irq_tokens(cfg: SadfConfig, pair: ActivityPair<'_>, irq: int, n: int) -> Seq<
    ShownModel,
>
    decreases n,
{
    if n <= 0 {
        Seq::empty()
    } else {
        let before = irq_tokens(cfg, pair, irq, n - 1);
        if irq_cpu_passes(cfg, pair, n - 1, true) {
            let (prev, curr) = irq_counts(pair, n - 1, irq);
            before + counter_tokens(cpu_title(n - 1), cfg.debug, prev, curr)
        } else {
            before
        }
    }
}

fn push_irq_tokens(
    tokens: &mut Vec<Shown>,
    cfg: &SadfConfig,
    pair: &ActivityPair<'_>,
    irq: usize,
    nr: usize,
)
    ensures
        shown_models(final(tokens)@) == shown_models(old(tokens)@) + irq_tokens(
            *cfg,
            *pair,
            irq as int,
            nr as int,
        ),
{
    let ghost start = shown_models(tokens@);
    let mut cpu: usize = 0;
    assert(start =~= start + irq_tokens(*cfg, *pair, irq as int, 0));
    while cpu < nr
        invariant
            cpu <= nr,
            shown_models(tokens@) == start + irq_tokens(*cfg, *pair, irq as int, cpu as int),
        decreases nr - cpu,
    {
        let ghost before = irq_tokens(*cfg, *pair, irq as int, cpu as int);
        if irq_cpu_selected(cfg, pair, cpu, true) {
            let (prev, curr) = match irq_item(pair, cpu, irq) {
                Some(item) => (item.raw_prev_by_name("intr"), item.raw_curr_by_name("intr")),
                None => (Availability::MissingInSample, Availability::MissingInSample),
            };
            let title = cpu_title_text(cpu);
            push_counter(tokens, title.as_str(), cfg.debug, prev, curr);
            assert(shown_models(tokens@) =~= start + (before + counter_tokens(
                title@,
                cfg.debug,
                prev,
                curr,
            )));
        }
        cpu = cpu + 1;
    }
}

/// The lines of the first `n` interrupts.
pub open spec fn raw_irqs(cfg: SadfConfig, pair: ActivityPair<'_>, ts: Seq<char>, n: int) -> Seq<Glyph>
    decreases n,
{
    if n <= 0 {
        Seq::empty()
    } else {
        let before = raw_irqs(cfg, pair, ts, n - 1);
        let nr = irq_size(pair).0;
        let name = irq_title(pair, n - 1);
        if any_irq_cpu(cfg, pair, nr, true) && name_passes(
            cfg.item_names@,
            ActivityId::IRQ,
            name,
        ) {
            before + token_line(
                seq![word(ts), word("INTR"@), word(name)] + irq_tokens(cfg, pair, n - 1, nr),
            )
        } else {
            before
        }
    }
}

fn write_irq(out: &mut Doc, cfg: &SadfConfig, pair: &ActivityPair<'_>, ts: &str)
    ensures
        final(out)@ == old(out)@ + raw_irqs(*cfg, *pair, ts@, irq_size(*pair).1),
{
    let ghost start = out@;
    let (nr, nr2) = irq_dimensions(pair);
    let mut irq: usize = 0;
    assert(out@ =~= start + raw_irqs(*cfg, *pair, ts@, 0));
    while irq < nr2
        invariant
            irq <= nr2,
            (nr as int, nr2 as int) == irq_size(*pair),
            out@ == start + raw_irqs(*cfg, *pair, ts@, irq as int),
        decreases nr2 - irq,
    {
        let ghost before = raw_irqs(*cfg, *pair, ts@, irq as int);
        let name = irq_name(pair, irq);
        if any_irq_cpu_selected(cfg, pair, nr, true) && cfg.name_selected(
            ActivityId::IRQ,
            name.as_str(),
        ) {
            let mut tokens: Vec<Shown> = Vec::new();
            push_word(&mut tokens, ts);
            push_word(&mut tokens, "INTR");
            push_word(&mut tokens, name.as_str());
            assert(shown_models(tokens@) =~= seq![word(ts@), word("INTR"@), word(name@)]);
            push_irq_tokens(&mut tokens, cfg, pair, irq, nr);
            put_tokens(out, &tokens);
            assert(out@ =~= start + (before + token_line(shown_models(tokens@))));
        }
        irq = irq + 1;
    }
}

/// The time that a CPU spent at a frequency.
pub open spec fn time_field() -> RawField {
    rawf("time_in_state", "tminst", RawStyle::Pval)
}

/// The tokens of the frequencies of a CPU from the step `step` on: up to the first that is 0 or
/// that the record does not hold.
pub open spec fn freq_tokens(pair: ActivityPair<'_>, row: int, step: int, debug: bool) -> Seq<ShownModel>
    decreases pair.width() - step,
{
    let p = cell_position(row, pair.width() as int, step);
    if step >= pair.width() {
        Seq::empty()
    } else {
        match pair.item_at(p, p) {
            Some(item) => {
                let freq = item.raw_by_name("freq_khz"@, false);
                if freq == Availability::Present(0) {
                    Seq::empty()
                } else {
                    seq![word("freq"@), word(raw_token(freq))] + field_tokens(
                        ActivityId::PWR_FREQ,
                        item,
                        time_field(),
                        debug,
                    ) + freq_tokens(pair, row, step + 1, debug)
                }
            },
            None => Seq::empty(),
        }
    }
}

fn push_freq_tokens(tokens: &mut Vec<Shown>, pair: &ActivityPair<'_>, row: usize, debug: bool)
    ensures
        shown_models(final(tokens)@) == shown_models(old(tokens)@) + freq_tokens(
            *pair,
            row as int,
            0,
            debug,
        ),
{
    let ghost goal = shown_models(tokens@) + freq_tokens(*pair, row as int, 0, debug);
    let nr2: u32 = pair.item_columns();
    let mut step: usize = 0;
    let mut more = true;
    while more
        invariant
            nr2 == pair.width(),
            step <= nr2,
            more ==> goal == shown_models(tokens@) + freq_tokens(
                *pair,
                row as int,
                step as int,
                debug,
            ),
            !more ==> goal == shown_models(tokens@),
        decreases
            nr2 - step,
            if more {
                1int
            } else {
                0int
            },
    {
        let ghost had = shown_models(tokens@);
        proof {
            assert(had =~= had + Seq::<ShownModel>::empty());
        }
        if step >= nr2 as usize {
            more = false;
        } else {
            match pair.cell(row, step) {
                Some(item) => {
                    let freq = item.raw_curr_by_name("freq_khz");
                    let zero = match freq {
                        Availability::Present(v) => v == 0,
                        _ => false,
                    };
                    if zero {
                        more = false;
                    } else {
                        push_word(tokens, "freq");
                        push_word(tokens, u64_token(freq).as_str());
                        push_raw_field(
                            tokens,
                            ActivityId::PWR_FREQ,
                            &item,
                            &rawf("time_in_state", "tminst", RawStyle::Pval),
                            debug,
                        );
                        proof {
                            let own = field_tokens(
                                ActivityId::PWR_FREQ,
                                item.model(),
                                time_field(),
                                debug,
                            );
                            let rest = freq_tokens(*pair, row as int, step + 1, debug);
                            let two = seq![word("freq"@), word(raw_token(freq))];
                            assert(shown_models(tokens@) =~= had + two + own);
                            assert(had + (two + own + rest) =~= shown_models(tokens@) + rest);
                        }
                        step = step + 1;
                    }
                },
                None => {
                    more = false;
                },
            }
        }
    }
}

/// The lines of the frequencies of the first `n` CPUs.
pub open spec fn freq_lines(cfg: SadfConfig, pair: ActivityPair<'_>, ts: Seq<char>, n: int) -> Seq<Glyph>
    decreases n,
{
    if n <= 0 {
        Seq::empty()
    } else {
        let before = freq_lines(cfg, pair, ts, n - 1);
        if cfg.cpus.selects(n - 1) {
            before + token_line(
                seq![word(ts), word("CPU"@), word(cpu_label(n - 1).db)] + freq_tokens(
                    pair,
                    n - 1,
                    0,
                    cfg.debug,
                ),
            )
        } else {
            before
        }
    }
}

fn write_wghfreq(out: &mut Doc, cfg: &SadfConfig, pair: &ActivityPair<'_>, ts: &str)
    ensures
        final(out)@ == old(out)@ + freq_lines(*cfg, *pair, ts@, pair.sample.curr.nr as int),
{
    let ghost start = out@;
    let nr: usize = pair.sample.curr.nr as usize;
    let mut row: usize = 0;
    assert(out@ =~= start + freq_lines(*cfg, *pair, ts@, 0));
    while row < nr
        invariant
            row <= nr,
            out@ == start + freq_lines(*cfg, *pair, ts@, row as int),
        decreases nr - row,
    {
        let ghost before = freq_lines(*cfg, *pair, ts@, row as int);
        if cfg.cpus.includes(row) {
            let label = ItemLabel::cpu(row);
            let mut tokens: Vec<Shown> = Vec::new();
            push_word(&mut tokens, ts);
            push_word(&mut tokens, "CPU");
            push_word(&mut tokens, label.db.as_str());
            assert(shown_models(tokens@) =~= seq![word(ts@), word("CPU"@), word(label.db@)]);
            push_freq_tokens(&mut tokens, pair, row, cfg.debug);
            put_tokens(out, &tokens);
            assert(out@ =~= start + (before + token_line(shown_models(tokens@))));
        }
        row = row + 1;
    }
}

/// The number of items of an activity in an interval; 0 where the record does not hold it.
pub open spec fn count_now(view: IntervalView, id: ActivityId) -> u32 {
    match pair_in(view, id) {
        Some(pair) => pair.sample.curr.nr,
        None => 0,
    }
}

/// The line that says how many items an activity has, and how many there is room for.
pub open spec fn room_text(name: Seq<char>, nr_curr: u32, nr_alloc: u32, nr_ini: u32) -> Seq<char> {
    "# name; "@ + name + "; nr_curr; "@ + dec(nr_curr as nat) + "; nr_alloc; "@ + dec(
        nr_alloc as nat,
    ) + "; nr_ini; "@ + dec(nr_ini as nat) + "\n"@
}

fn room_line(name: &str, nr_curr: u32, nr_alloc: u32, nr_ini: u32) -> (r: String)
    ensures
        r@ == room_text(name@, nr_curr, nr_alloc, nr_ini),
{
    let mut out = "# name; ".to_owned();
    out.append(name);
    out.append("; nr_curr; ");
    push_dec(&mut out, nr_curr as u64);
    out.append("; nr_alloc; ");
    push_dec(&mut out, nr_alloc as u64);
    out.append("; nr_ini; ");
    push_dec(&mut out, nr_ini as u64);
    out.append("\n");
    out
}

/// The larger of two numbers.
pub open spec fn larger(a: u32, b: u32) -> u32 {
    if a > b {
        a
    } else {
        b
    }
}

/// The lines of the items of an activity.
pub open spec fn body_lines(
    cfg: SadfConfig,
    m: SpecModel,
    section: SectionModel,
    pair: ActivityPair<'_>,
    nr_ini: u32,
    ts: Seq<char>,
) -> Seq<Glyph> {
    if m.id == ActivityId::IRQ {
        raw_irqs(cfg, pair, ts, irq_size(pair).1)
    } else if m.id == ActivityId::PWR_FREQ {
        freq_lines(cfg, pair, ts, pair.sample.curr.nr as int)
    } else if m.id == ActivityId::CPU || m.id == ActivityId::NET_SOFT {
        cpu_lines(
            cfg,
            pair,
            section,
            first_cpu(pair.id),
            cpu_room(pair, larger(nr_ini, pair.sample.curr.nr)),
            ts,
        )
    } else {
        raw_items(
            m,
            section,
            raw_fields_of(cfg, section),
            items_shown(cfg, m.item, pair, true),
            cfg.debug,
            ts,
        )
    }
}

/// The lines of a section of an activity in an interval.
pub open spec fn raw_sample(
    cfg: SadfConfig,
    info: FileInfo,
    m: SpecModel,
    section: SectionModel,
    t: RecordTime,
    view: IntervalView,
    nr_ini: u32,
    nr_alloc: u32,
) -> Seq<Glyph> {
    (if cfg.debug {
        chars(room_text(m.name@, count_now(view, m.id), nr_alloc, nr_ini))
    } else {
        Seq::empty()
    }) + (match pair_in(view, m.id) {
        Some(pair) => if pair.sample.curr.nr == 0 {
            Seq::empty()
        } else {
            body_lines(
                cfg,
                m,
                section,
                pair,
                nr_ini,
                stamp_of(cfg.time_base, t, info).short(),
            )
        },
        None => Seq::empty(),
    })
}

fn put_body(
    out: &mut Doc,
    cfg: &SadfConfig,
    spec_of: &ActivitySpec,
    section: &Section,
    pair: &ActivityPair<'_>,
    nr_ini: u32,
    ts: &str,
)
    requires
        spec_of.id == pair.id,
    ensures
        final(out)@ == old(out)@ + body_lines(
            *cfg,
            spec_of.model(),
            section.model(),
            *pair,
            nr_ini,
            ts@,
        ),
{
    match spec_of.id {
        ActivityId::IRQ => write_irq(out, cfg, pair, ts),
        ActivityId::PWR_FREQ => write_wghfreq(out, cfg, pair, ts),
        ActivityId::CPU | ActivityId::NET_SOFT => {
            let nr = pair.sample.curr.nr;
            let room = if nr_ini > nr {
                nr_ini
            } else {
                nr
            };
            write_per_cpu(out, cfg, section, pair, room, ts)
        },
        _ => write_generic(out, cfg, spec_of, section, pair, ts),
    }
}

/// Appends the lines of a section of an activity in an interval.
pub fn emit_raw_sample(
    out: &mut Doc,
    cfg: &SadfConfig,
    info: &FileInfo,
    spec_of: &ActivitySpec,
    section: &Section,
    t: &RecordTime,
    view: &IntervalView,
    nr_ini: u32,
    nr_alloc: u32,
)
    ensures
        final(out)@ == old(out)@ + raw_sample(
            *cfg,
            *info,
            spec_of.model(),
            section.model(),
            *t,
            *view,
            nr_ini,
            nr_alloc,
        ),
{
    let ghost start = out@;
    let found = ActivityPair::from_view(view, spec_of.id);
    if cfg.debug {
        let nr: u32 = match &found {
            Some(pair) => pair.sample.curr.nr,
            None => 0,
        };
        out.put(room_line(spec_of.name, nr, nr_alloc, nr_ini).as_str());
    }
    let ghost head = if cfg.debug {
        chars(room_text(spec_of.name@, count_now(*view, spec_of.id), nr_alloc, nr_ini))
    } else {
        Seq::<Glyph>::empty()
    };
    assert(out@ =~= start + head);
    assert(out@ =~= start + (head + Seq::<Glyph>::empty()));
    match found {
        Some(pair) => if pair.sample.curr.nr > 0 {
            let ts = Stamp::new(cfg.time_base, t, info).raw();
            put_body(out, cfg, spec_of, section, &pair, nr_ini, ts.as_str());
            proof {
                let body = body_lines(
                    *cfg,
                    spec_of.model(),
                    section.model(),
                    pair,
                    nr_ini,
                    ts@,
                );
                assert(out@ =~= start + (head + body));
            }
        },
        None => {},
    }
}

/// The line of a restart.
pub open spec fn raw_restart_text(
    cfg: SadfConfig,
    info: FileInfo,
    t: RecordTime,
    cpu_nr: Option<u32>,
) -> Seq<char> {
    stamp_of(cfg.time_base, t, info).short_event() + "; LINUX-RESTART ("@ + dec(
        cpu_count(cpu_nr) as nat,
    ) + " CPU)\n"@
}

/// The line of a restart.
pub fn write_raw_restart(
    cfg: &SadfConfig,
    info: &FileInfo,
    t: &RecordTime,
    cpu_nr: Option<u32>,
) -> (r: String)
    ensures
        r@ == raw_restart_text(*cfg, *info, *t, cpu_nr),
{
    let mut out = Stamp::new(cfg.time_base, t, info).raw_event();
    out.append("; LINUX-RESTART (");
    push_dec(&mut out, display_cpu_count(cpu_nr) as u64);
    out.append(" CPU)\n");
    out
}

/// The line of a comment.
pub open spec fn raw_comment_text(cfg: SadfConfig, info: FileInfo, rec: Rec) -> Seq<char> {
    stamp_of(cfg.time_base, rec.time, info).short_event() + "; COM "@ + comment_of(rec) + "\n"@
}

/// The line of a comment.
pub fn write_raw_comment(cfg: &SadfConfig, info: &FileInfo, rec: &Rec) -> (r: String)
    ensures
        r@ == raw_comment_text(*cfg, *info, *rec),
{
    let mut out = Stamp::new(cfg.time_base, &rec.time, info).raw_event();
    out.append("; COM ");
    out.append(comment_str(rec));
    out.append("\n");
    out
}

/// The line of the header of a record.
pub open spec fn record_header_text(h: RecHeader) -> Seq<char> {
    "# uptime_cs; "@ + dec(h.uptime_cs as nat) + "; ust_time; "@ + dec(h.time.ust_time as nat)
        + "; extra_next; 0; record_type; "@ + dec(h.record_type as nat) + "; HH:MM:SS; "@
        + time_text(h.time.hour as int, h.time.minute as int, h.time.second as int) + "\n"@
}

/// The line of the header of a record.
pub fn write_record_header(h: &RecHeader) -> (r: String)
    ensures
        r@ == record_header_text(*h),
{
    let mut out = "# uptime_cs; ".to_owned();
    push_dec(&mut out, h.uptime_cs);
    out.append("; ust_time; ");
    push_dec(&mut out, h.time.ust_time);
    out.append("; extra_next; 0; record_type; ");
    push_dec(&mut out, h.record_type as u64);
    out.append("; HH:MM:SS; ");
    out.append(
        format_time(h.time.hour as u32, h.time.minute as u32, h.time.second as u32).as_str(),
    );
    out.append("\n");
    out
}

/// What is shown for a part of the script.
pub open spec fn raw_action(
    cfg: SadfConfig,
    info: FileInfo,
    file: SaFile,
    index: RecordIndex,
    action: Action,
) -> Seq<Glyph> {
    let recs = index.recs@;
    match action {
        Action::Header { header } => if header < header_list(index).len() {
            chars(record_header_text(header_list(index)[header as int]))
        } else {
            Seq::empty()
        },
        Action::Restart { rec, cpu_nr } => if rec < recs.len() {
            chars(raw_restart_text(cfg, info, recs[rec as int].time, cpu_nr))
        } else {
            Seq::empty()
        },
        Action::Comment { rec } => if rec < recs.len() {
            chars(raw_comment_text(cfg, info, recs[rec as int]))
        } else {
            Seq::empty()
        },
        Action::BeginPass { .. } => Seq::empty(),
        Action::Sample { pass, rec, prev, nr_ini, nr_alloc } => match (
            view_of(file, rec, prev),
            pass,
        ) {
            (Some(view), Pass::Activity { id, section }) => match table(id) {
                Some(m) => if rec < recs.len() && section < m.sections.len() {
                    raw_sample(
                        cfg,
                        info,
                        m,
                        m.sections[section as int],
                        recs[rec as int].time,
                        view,
                        nr_ini,
                        nr_alloc,
                    )
                } else {
                    Seq::empty()
                },
                None => Seq::empty(),
            },
            _ => Seq::empty(),
        },
    }
}

/// Appends what is shown for a part of the script.
pub fn put_raw_action(
    out: &mut Doc,
    cfg: &SadfConfig,
    info: &FileInfo,
    file: &SaFile,
    index: &RecordIndex,
    action: Action,
)
    ensures
        final(out)@ == old(out)@ + raw_action(*cfg, *info, *file, *index, action),
{
    assert(out@ =~= out@ + Seq::<Glyph>::empty());
    let recs = &index.recs;
    match action {
        Action::Header { header } => match &index.debug {
            Some(d) => if header < d.headers.len() {
                out.put(write_record_header(&d.headers[header]).as_str());
            },
            None => {},
        },
        Action::Restart { rec, cpu_nr } => if rec < recs.len() {
            out.put(write_raw_restart(cfg, info, &recs[rec].time, cpu_nr).as_str());
        },
        Action::Comment { rec } => if rec < recs.len() {
            out.put(write_raw_comment(cfg, info, &recs[rec]).as_str());
        },
        Action::BeginPass { .. } => {},
        Action::Sample { pass, rec, prev, nr_ini, nr_alloc } => match (
            find_view(file, rec, prev),
            pass,
        ) {
            (Some(view), Pass::Activity { id, section }) => match lookup(id) {
                Some(s) => if rec < recs.len() && section < s.sections.len() {
                    emit_raw_sample(
                        out,
                        cfg,
                        info,
                        &s,
                        &s.sections[section],
                        &recs[rec].time,
                        view,
                        nr_ini,
                        nr_alloc,
                    );
                },
                None => {},
            },
            _ => {},
        },
    }
}

/// What is shown for the first `n` parts of the script.
pub open spec fn raw_script(
    cfg: SadfConfig,
    info: FileInfo,
    file: SaFile,
    index: RecordIndex,
    actions: Seq<Action>,
    n: int,
) -> Seq<Glyph>
    decreases n,
{
    if n <= 0 {
        Seq::empty()
    } else {
        raw_script(cfg, info, file, index, actions, n - 1) + raw_action(
            cfg,
            info,
            file,
            index,
            actions[n - 1],
        )
    }
}

/// What is shown for a script.
pub fn write_raw_script(
    cfg: &SadfConfig,
    info: &FileInfo,
    file: &SaFile,
    index: &RecordIndex,
    actions: &Vec<Action>,
) -> (r: Doc)
    ensures
        r@ == raw_script(*cfg, *info, *file, *index, actions@, actions@.len() as int),
{
    let mut out = Doc::new();
    let mut i: usize = 0;
    while i < actions.len()
        invariant
            i <= actions@.len(),
            out@ == raw_script(*cfg, *info, *file, *index, actions@, i as int),
        decreases actions.len() - i,
    {
        put_raw_action(&mut out, cfg, info, file, index, actions[i]);
        i = i + 1;
    }
    out
}

/// The passes over a file.
pub open spec fn raw_passes(file: SaFile, cfg: SadfConfig) -> Seq<Pass> {
    let ids = selection(file, cfg);
    passes_of(ids, cfg, ids.len() as int)
}

/// The script of a file.
pub fn raw_script_of(file: &SaFile, cfg: &SadfConfig, extra: &SadfExtra) -> (r: Script)
    ensures
        r.is_of(*file, raw_passes(*file, *cfg), extra.select, cfg.comments, cfg.debug),
{
    let passes = activity_passes(&selected_ids(file, cfg), cfg);
    Script::make(file, passes, extra.select, cfg.comments, cfg.debug)
}

/// Whether `shown` is the raw output of a file.
pub open spec fn is_raw_output(
    shown: Seq<Glyph>,
    file: SaFile,
    cfg: SadfConfig,
    select: RecordSelect,
    local_tz: Seq<char>,
) -> bool {
    exists|script: Script, info: FileInfo|
        script.is_of(file, raw_passes(file, cfg), select, cfg.comments, cfg.debug)
            && info.describes(file.header, cfg.time_base, local_tz) && shown
            == #[trigger] raw_script(
            cfg,
            info,
            file,
            script.index,
            script.actions@,
            script.actions@.len() as int,
        )
}

/// The raw format.
pub fn write_raw(file: &SaFile, cfg: &SadfConfig, local_tz: &str) -> (r: Doc)
    ensures
        is_raw_output(r@, *file, *cfg, every_record(), local_tz@),
{
    let extra = SadfExtra { select: RecordSelect::default(), local_tz: local_tz.to_owned() };
    write_raw_with(file, cfg, &extra)
}

/// The raw format, of the records that `extra` selects.
pub fn write_raw_with(file: &SaFile, cfg: &SadfConfig, extra: &SadfExtra) -> (r: Doc)
    ensures
        is_raw_output(r@, *file, *cfg, extra.select, extra.local_tz@),
{
    let info = FileInfo::from_file_with(&file.header, cfg.time_base, extra.local_tz.as_str());
    let script = raw_script_of(file, cfg, extra);
    write_raw_script(cfg, &info, file, &script.index, &script.actions)
}

}
