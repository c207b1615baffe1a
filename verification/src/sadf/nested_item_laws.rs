//! Each item of a sample has its own place in every format.

use vstd::prelude::*;

use crate::doc::{chars, joined, Glyph};
use crate::sadf::access::{ActivityPair, ItemModel};
use crate::sadf::config::SadfConfig;
use crate::sadf::dbppc::{item_lines, items_lines};
use crate::sadf::items::items_shown;
use crate::sadf::json;
use crate::sadf::raw::{item_tokens, raw_items, token_line};
use crate::sadf::table::{RawField, SectionModel, Shape, SpecModel};
use crate::within::{lemma_stands_deeper, lemma_stands_in, stands_in};

verus! {

pub(crate) proof fn lemma_joined_part(parts: Seq<Seq<Glyph>>, sep: Seq<char>, k: int)
    requires
        0 <= k < parts.len(),
    ensures
        stands_in(parts[k], joined(parts, sep)),
    decreases parts.len(),
{
    let whole = joined(parts, sep);
    if parts.len() == 1 {
        assert(whole =~= Seq::<Glyph>::empty() + parts[0] + Seq::<Glyph>::empty());
        lemma_stands_in(Seq::empty(), parts[0], Seq::empty(), whole);
    } else {
        let before = joined(parts.drop_last(), sep);
        if k == parts.len() - 1 {
            let lead = before + chars(sep);
            assert(whole =~= lead + parts[k] + Seq::<Glyph>::empty());
            lemma_stands_in(lead, parts[k], Seq::empty(), whole);
        } else {
            lemma_joined_part(parts.drop_last(), sep, k);
            let rest = chars(sep) + parts.last();
            assert(whole =~= Seq::<Glyph>::empty() + before + rest);
            lemma_stands_in(Seq::empty(), before, rest, whole);
            lemma_stands_deeper(parts[k], before, whole);
        }
    }
}

proof fn lemma_row_of_item(cfg: SadfConfig, m: SpecModel, items: Seq<ItemModel>, tab: nat, k: int)
    requires
        0 <= k < items.len(),
    ensures
        json::item_rows(cfg, m, items, tab).len() == items.len(),
        json::item_rows(cfg, m, items, tab)[k] == chars(json::tabs(tab)) + json::braced(
            json::item_members(cfg, m, items[k], m.active(cfg.section)),
        ),
    decreases items.len(),
{
    if items.len() > 1 {
        lemma_row_of_item(
            cfg,
            m,
            items.drop_last(),
            tab,
            if k < items.len() - 1 {
                k
            } else {
                0
            },
        );
    } else {
        assert(json::item_rows(cfg, m, items.drop_last(), tab) =~= Seq::<Seq<Glyph>>::empty());
    }
}

/// In JSON each item that is shown has an object of its own in the list of its activity.
pub proof fn law_json_lists_each_item(
    cfg: SadfConfig,
    m: SpecModel,
    pair: ActivityPair<'_>,
    tab: nat,
    k: int,
)
    requires
        m.shape == Shape::Array,
        pair.item_at(0, 0) is Some,
        0 <= k < items_shown(cfg, m.item, pair, false).len(),
    ensures
        json::activity_block(cfg, m, pair, tab) is Some,
        stands_in(
            json::braced(
                json::item_members(
                    cfg,
                    m,
                    items_shown(cfg, m.item, pair, false)[k],
                    m.active(cfg.section),
                ),
            ),
            json::activity_block(cfg, m, pair, tab)->0,
        ),
        stands_in(
            chars("\""@) + chars(m.json_key@) + chars("\": [\n"@),
            json::activity_block(cfg, m, pair, tab)->0,
        ),
{
    let items = items_shown(cfg, m.item, pair, false);
    let rows = json::item_rows(cfg, m, items, tab + 1);
    let object = json::braced(json::item_members(cfg, m, items[k], m.active(cfg.section)));
    let whole = json::activity_block(cfg, m, pair, tab)->0;
    lemma_row_of_item(cfg, m, items, tab + 1, k);
    lemma_joined_part(rows, ",\n"@, k);
    let list = joined(rows, ",\n"@);
    assert(rows[k] =~= chars(json::tabs(tab + 1)) + object + Seq::<Glyph>::empty());
    lemma_stands_in(chars(json::tabs(tab + 1)), object, Seq::empty(), rows[k]);
    lemma_stands_deeper(object, rows[k], list);
    let t = chars(json::tabs(tab));
    let head = chars("\""@) + chars(m.json_key@) + chars("\": [\n"@);
    let end = chars("\n"@) + t + chars("]"@);
    assert(whole =~= (t + head) + list + end);
    lemma_stands_in(t + head, list, end, whole);
    lemma_stands_deeper(object, list, whole);
    assert(whole =~= t + head + (list + end));
    lemma_stands_in(t, head, list + end, whole);
}

/// In the flat formats each item that is shown has its own lines.
pub proof fn law_flat_lines_are_those_of_each_item(
    cfg: SadfConfig,
    m: SpecModel,
    section: SectionModel,
    items: Seq<ItemModel>,
    pre: Seq<char>,
    isdb: bool,
    k: int,
)
    requires
        0 <= k < items.len(),
    ensures
        stands_in(
            item_lines(cfg, m, section, items[k], pre, isdb),
            items_lines(cfg, m, section, items, pre, isdb),
        ),
    decreases items.len(),
{
    let whole = items_lines(cfg, m, section, items, pre, isdb);
    let before = items_lines(cfg, m, section, items.drop_last(), pre, isdb);
    let last = item_lines(cfg, m, section, items.last(), pre, isdb);
    if k == items.len() - 1 {
        assert(whole =~= before + last + Seq::<Glyph>::empty());
        lemma_stands_in(before, last, Seq::empty(), whole);
    } else {
        law_flat_lines_are_those_of_each_item(cfg, m, section, items.drop_last(), pre, isdb, k);
        assert(whole =~= Seq::<Glyph>::empty() + before + last);
        lemma_stands_in(Seq::empty(), before, last, whole);
        lemma_stands_deeper(item_lines(cfg, m, section, items[k], pre, isdb), before, whole);
    }
}

/// Among the raw counters each item that is shown has a line of its own.
pub proof fn law_raw_lines_are_those_of_each_item(
    m: SpecModel,
    section: SectionModel,
    fields: Seq<RawField>,
    items: Seq<ItemModel>,
    debug: bool,
    ts: Seq<char>,
    k: int,
)
    requires
        0 <= k < items.len(),
    ensures
        stands_in(
            token_line(item_tokens(m, section, fields, items[k], debug, ts)),
            raw_items(m, section, fields, items, debug, ts),
        ),
    decreases items.len(),
{
    let whole = raw_items(m, section, fields, items, debug, ts);
    let before = raw_items(m, section, fields, items.drop_last(), debug, ts);
    let last = token_line(item_tokens(m, section, fields, items.last(), debug, ts));
    if k == items.len() - 1 {
        assert(whole =~= before + last + Seq::<Glyph>::empty());
        lemma_stands_in(before, last, Seq::empty(), whole);
    } else {
        law_raw_lines_are_those_of_each_item(m, section, fields, items.drop_last(), debug, ts, k);
        assert(whole =~= Seq::<Glyph>::empty() + before + last);
        lemma_stands_in(Seq::empty(), before, last, whole);
        lemma_stands_deeper(
            token_line(item_tokens(m, section, fields, items[k], debug, ts)),
            before,
            whole,
        );
    }
}

}
