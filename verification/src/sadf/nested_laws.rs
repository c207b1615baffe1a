//! What the members of JSON and the attributes and elements of XML hold.

use vstd::prelude::*;

use crate::doc::{chars, Glyph};
use crate::model::{ActivityId, ComputeIssue, Computed};
use crate::sadf::access::ItemModel;
use crate::sadf::column_laws::{
    is_detail, law_names_show_their_columns, nested_members, shows_keyed, Keyed,
};
use crate::sadf::config::SadfConfig;
use crate::sadf::json;
use crate::sadf::json::{io_block, json_field, json_rate, member, section_members, tabs};
use crate::sadf::render::{label_in, nested_fields, text_of};
use crate::sadf::table::{table, Field, Fmt};
use crate::sadf::value::{value_shown, LabelModel};
use crate::sadf::xml;
use crate::sadf::xml::{field_text, io_body, section_fields, xml_field, xml_rate, xml_value};
use crate::within::{lemma_stands_deeper, lemma_stands_in, stands_in};

verus! {

/// The columns of the transfer rates.
pub open spec fn io_names() -> Seq<&'static str> {
    seq!["tps", "rtps", "bread", "wtps", "bwrtn", "dtps", "bdscd"]
}

/// The columns of the transfer rates by their kinds: the name of the kind, the transfers and the
/// blocks.
pub open spec fn io_kinds() -> Seq<(&'static str, &'static str, &'static str)> {
    seq![
        ("io-reads", "rtps", "bread"),
        ("io-writes", "wtps", "bwrtn"),
        ("io-discard", "dtps", "bdscd"),
    ]
}

/// A member of JSON that holds the displayed value of the column of its own name, with two
/// decimals.
pub open spec fn own_member(item: ItemModel, name: Seq<char>) -> Seq<Glyph> {
    chars("\""@ + name + "\": "@) + value_shown(
        item.computed_by_name(name),
        Fmt::R2,
        "null"@,
    ).glyphs()
}

/// An attribute of XML that holds the displayed value of the column of its own name, with two
/// decimals.
pub open spec fn own_attribute(item: ItemModel, name: Seq<char>) -> Seq<Glyph> {
    chars(name + "=\""@) + value_shown(item.computed_by_name(name), Fmt::R2, ""@).glyphs() + chars(
        "\""@,
    )
}

/// An object of JSON with two members, each of which holds the column of its own name.
pub open spec fn pair_object(
    item: ItemModel,
    kind: Seq<char>,
    a: Seq<char>,
    b: Seq<char>,
) -> Seq<Glyph> {
    chars("\""@ + kind + "\": {"@) + own_member(item, a) + chars(", "@) + own_member(item, b)
        + chars("}"@)
}

/// An element of XML with two attributes, each of which holds the column of its own name.
pub open spec fn pair_element(
    item: ItemModel,
    kind: Seq<char>,
    a: Seq<char>,
    b: Seq<char>,
) -> Seq<Glyph> {
    chars("<"@ + kind + " "@) + own_attribute(item, a) + chars(" "@) + own_attribute(item, b)
        + chars("/>\n"@)
}

proof fn lemma_pair_object(
    item: ItemModel,
    kind: &'static str,
    a: &'static str,
    b: &'static str,
)
    ensures
        stands_in(own_member(item, a@), pair_object(item, kind@, a@, b@)),
        stands_in(own_member(item, b@), pair_object(item, kind@, a@, b@)),
{
    let whole = pair_object(item, kind@, a@, b@);
    let head = chars("\""@ + kind@ + "\": {"@);
    let ma = own_member(item, a@);
    let mb = own_member(item, b@);
    assert(whole =~= head + ma + (chars(", "@) + mb + chars("}"@)));
    lemma_stands_in(head, ma, chars(", "@) + mb + chars("}"@), whole);
    lemma_stands_in(head + ma + chars(", "@), mb, chars("}"@), whole);
}

proof fn lemma_pair_element(
    item: ItemModel,
    kind: &'static str,
    a: &'static str,
    b: &'static str,
)
    ensures
        stands_in(own_attribute(item, a@), pair_element(item, kind@, a@, b@)),
        stands_in(own_attribute(item, b@), pair_element(item, kind@, a@, b@)),
{
    let whole = pair_element(item, kind@, a@, b@);
    let head = chars("<"@ + kind@ + " "@);
    let ma = own_attribute(item, a@);
    let mb = own_attribute(item, b@);
    assert(whole =~= head + ma + (chars(" "@) + mb + chars("/>\n"@)));
    lemma_stands_in(head, ma, chars(" "@) + mb + chars("/>\n"@), whole);
    lemma_stands_in(head + ma + chars(" "@), mb, chars("/>\n"@), whole);
}

proof fn lemma_json_literals()
    ensures
        chars(", \"io-reads\": {\"rtps\": "@) == chars(", "@) + chars(
            "\""@ + "io-reads"@ + "\": {"@,
        ) + chars("\""@ + "rtps"@ + "\": "@),
        chars(", \"bread\": "@) == chars(", "@) + chars("\""@ + "bread"@ + "\": "@),
        chars("}, \"io-writes\": {\"wtps\": "@) == chars("}"@) + chars(", "@) + chars(
            "\""@ + "io-writes"@ + "\": {"@,
        ) + chars("\""@ + "wtps"@ + "\": "@),
        chars(", \"bwrtn\": "@) == chars(", "@) + chars("\""@ + "bwrtn"@ + "\": "@),
        chars("}, \"io-discard\": {\"dtps\": "@) == chars("}"@) + chars(", "@) + chars(
            "\""@ + "io-discard"@ + "\": {"@,
        ) + chars("\""@ + "dtps"@ + "\": "@),
        chars(", \"bdscd\": "@) == chars(", "@) + chars("\""@ + "bdscd"@ + "\": "@),
        chars("}}"@) == chars("}"@) + chars("}"@),
{
    reveal_strlit("\"");
    reveal_strlit("\": ");
    reveal_strlit("\": {");
    reveal_strlit(", ");
    reveal_strlit("}");
    assert(chars(", \"io-reads\": {\"rtps\": "@) =~= chars(", "@) + chars(
        "\""@ + "io-reads"@ + "\": {"@,
    ) + chars("\""@ + "rtps"@ + "\": "@)) by {
        reveal_strlit(", \"io-reads\": {\"rtps\": ");
        reveal_strlit("io-reads");
        reveal_strlit("rtps");
    }
    assert(chars(", \"bread\": "@) =~= chars(", "@) + chars("\""@ + "bread"@ + "\": "@)) by {
        reveal_strlit(", \"bread\": ");
        reveal_strlit("bread");
    }
    assert(chars("}, \"io-writes\": {\"wtps\": "@) =~= chars("}"@) + chars(", "@) + chars(
        "\""@ + "io-writes"@ + "\": {"@,
    ) + chars("\""@ + "wtps"@ + "\": "@)) by {
        reveal_strlit("}, \"io-writes\": {\"wtps\": ");
        reveal_strlit("io-writes");
        reveal_strlit("wtps");
    }
    assert(chars(", \"bwrtn\": "@) =~= chars(", "@) + chars("\""@ + "bwrtn"@ + "\": "@)) by {
        reveal_strlit(", \"bwrtn\": ");
        reveal_strlit("bwrtn");
    }
    assert(chars("}, \"io-discard\": {\"dtps\": "@) =~= chars("}"@) + chars(", "@) + chars(
        "\""@ + "io-discard"@ + "\": {"@,
    ) + chars("\""@ + "dtps"@ + "\": "@)) by {
        reveal_strlit("}, \"io-discard\": {\"dtps\": ");
        reveal_strlit("io-discard");
        reveal_strlit("dtps");
    }
    assert(chars(", \"bdscd\": "@) =~= chars(", "@) + chars("\""@ + "bdscd"@ + "\": "@)) by {
        reveal_strlit(", \"bdscd\": ");
        reveal_strlit("bdscd");
    }
    assert(chars("}}"@) =~= chars("}"@) + chars("}"@)) by {
        reveal_strlit("}}");
    }
}

/// Two objects with what stands between them, regrouped.
proof fn lemma_regroup(
    lead: Seq<Glyph>,
    comma: Seq<Glyph>,
    kind: Seq<Glyph>,
    a: Seq<Glyph>,
    va: Seq<Glyph>,
    b: Seq<Glyph>,
    vb: Seq<Glyph>,
)
    ensures
        lead + (comma + kind + a) + va + (comma + b) + vb == lead + comma + (kind + (a + va)
            + comma + (b + vb)),
{
    assert(lead + (comma + kind + a) + va + (comma + b) + vb =~= lead + comma + (kind + (a + va)
        + comma + (b + vb)));
}

proof fn lemma_regroup_closed(
    lead: Seq<Glyph>,
    close: Seq<Glyph>,
    comma: Seq<Glyph>,
    kind: Seq<Glyph>,
    a: Seq<Glyph>,
    va: Seq<Glyph>,
    b: Seq<Glyph>,
    vb: Seq<Glyph>,
)
    ensures
        lead + (close + comma + kind + a) + va + (comma + b) + vb == (lead + close) + comma + (kind
            + (a + va) + comma + (b + vb)),
{
    assert(lead + (close + comma + kind + a) + va + (comma + b) + vb =~= (lead + close) + comma + (
    kind + (a + va) + comma + (b + vb)));
}

proof fn lemma_assoc(a: Seq<Glyph>, b: Seq<Glyph>, c: Seq<Glyph>)
    ensures
        (a + b) + c == a + (b + c),
{
    assert((a + b) + c =~= a + (b + c));
}

#[verifier::spinoff_prover]
#[verifier::rlimit(60)]
proof fn lemma_io_whole(item: ItemModel, tab: nat)
    ensures
        io_block(item, tab) == chars(tabs(tab)) + chars("\"io\": {\"tps\": "@) + value_shown(
            item.computed_by_name("tps"@),
            Fmt::R2,
            "null"@,
        ).glyphs() + chars(", "@) + pair_object(item, "io-reads"@, "rtps"@, "bread"@) + chars(
            ", "@,
        ) + pair_object(item, "io-writes"@, "wtps"@, "bwrtn"@) + chars(", "@) + pair_object(
            item,
            "io-discard"@,
            "dtps"@,
            "bdscd"@,
        ) + chars("}"@),
{
    lemma_json_literals();
    let comma = chars(", "@);
    let close = chars("}"@);
    let lead = chars(tabs(tab)) + chars("\"io\": {\"tps\": "@) + json_rate(item, "tps"@);
    let (k1, a1, b1) = (
        chars("\""@ + "io-reads"@ + "\": {"@),
        chars("\""@ + "rtps"@ + "\": "@),
        chars("\""@ + "bread"@ + "\": "@),
    );
    let (v1, w1) = (json_rate(item, "rtps"@), json_rate(item, "bread"@));
    lemma_regroup(lead, comma, k1, a1, v1, b1, w1);
    let first = lead + comma + (k1 + (a1 + v1) + comma + (b1 + w1));
    let (k2, a2, b2) = (
        chars("\""@ + "io-writes"@ + "\": {"@),
        chars("\""@ + "wtps"@ + "\": "@),
        chars("\""@ + "bwrtn"@ + "\": "@),
    );
    let (v2, w2) = (json_rate(item, "wtps"@), json_rate(item, "bwrtn"@));
    lemma_regroup_closed(first, close, comma, k2, a2, v2, b2, w2);
    let second = (first + close) + comma + (k2 + (a2 + v2) + comma + (b2 + w2));
    let (k3, a3, b3) = (
        chars("\""@ + "io-discard"@ + "\": {"@),
        chars("\""@ + "dtps"@ + "\": "@),
        chars("\""@ + "bdscd"@ + "\": "@),
    );
    let (v3, w3) = (json_rate(item, "dtps"@), json_rate(item, "bdscd"@));
    lemma_regroup_closed(second, close, comma, k3, a3, v3, b3, w3);
    let third = (second + close) + comma + (k3 + (a3 + v3) + comma + (b3 + w3));
    assert(io_block(item, tab) == third + (close + close));
    lemma_assoc(third, close, close);
    let reads = pair_object(item, "io-reads"@, "rtps"@, "bread"@);
    let writes = pair_object(item, "io-writes"@, "wtps"@, "bwrtn"@);
    let discards = pair_object(item, "io-discard"@, "dtps"@, "bdscd"@);
    lemma_assoc(lead + comma, k1 + (a1 + v1) + comma + (b1 + w1), close);
    lemma_assoc((first + close) + comma, k2 + (a2 + v2) + comma + (b2 + w2), close);
    lemma_assoc((second + close) + comma, k3 + (a3 + v3) + comma + (b3 + w3), close);
    assert(first + close == lead + comma + reads);
    assert(second + close == (first + close) + comma + writes);
    assert(third + close == (second + close) + comma + discards);
}

proof fn lemma_three_stand(
    lead: Seq<Glyph>,
    a: Seq<Glyph>,
    gap: Seq<Glyph>,
    b: Seq<Glyph>,
    c: Seq<Glyph>,
    end: Seq<Glyph>,
)
    ensures
        stands_in(a, lead + a + gap + b + gap + c + end),
        stands_in(b, lead + a + gap + b + gap + c + end),
        stands_in(c, lead + a + gap + b + gap + c + end),
{
    let whole = lead + a + gap + b + gap + c + end;
    assert(whole =~= lead + a + (gap + b + gap + c + end));
    lemma_stands_in(lead, a, gap + b + gap + c + end, whole);
    assert(whole =~= (lead + a + gap) + b + (gap + c + end));
    lemma_stands_in(lead + a + gap, b, gap + c + end, whole);
    lemma_stands_in(lead + a + gap + b + gap, c, end, whole);
}

proof fn lemma_io_object(item: ItemModel, tab: nat, j: int)
    requires
        0 <= j < 3,
    ensures
        stands_in(
            pair_object(item, io_kinds()[j].0@, io_kinds()[j].1@, io_kinds()[j].2@),
            io_block(item, tab),
        ),
{
    lemma_io_whole(item, tab);
    lemma_three_stand(
        chars(tabs(tab)) + chars("\"io\": {\"tps\": "@) + value_shown(
            item.computed_by_name("tps"@),
            Fmt::R2,
            "null"@,
        ).glyphs() + chars(", "@),
        pair_object(item, "io-reads"@, "rtps"@, "bread"@),
        chars(", "@),
        pair_object(item, "io-writes"@, "wtps"@, "bwrtn"@),
        pair_object(item, "io-discard"@, "dtps"@, "bdscd"@),
        chars("}"@),
    );
}

/// In the JSON of the transfer rates each member holds the displayed value of the column of its
/// own name, with two decimals, and the rates of reads, writes and discards stand together, each
/// in the object of its kind.
pub proof fn law_json_transfer_rates_hold_their_own_columns(item: ItemModel, tab: nat)
    ensures
        forall|i: int|
            0 <= i < io_names().len() ==> stands_in(
                own_member(item, (#[trigger] io_names()[i])@),
                io_block(item, tab),
            ),
        forall|j: int|
            0 <= j < io_kinds().len() ==> stands_in(
                pair_object(
                    item,
                    (#[trigger] io_kinds()[j]).0@,
                    io_kinds()[j].1@,
                    io_kinds()[j].2@,
                ),
                io_block(item, tab),
            ),
{
    let whole = io_block(item, tab);
    assert forall|j: int| 0 <= j < io_kinds().len() implies stands_in(
        pair_object(item, (#[trigger] io_kinds()[j]).0@, io_kinds()[j].1@, io_kinds()[j].2@),
        whole,
    ) by {
        lemma_io_object(item, tab, j);
    }
    assert forall|i: int| 0 <= i < io_names().len() implies stands_in(
        own_member(item, (#[trigger] io_names()[i])@),
        whole,
    ) by {
        if i == 0 {
            reveal_strlit("\"io\": {\"tps\": ");
            reveal_strlit("\"");
            reveal_strlit("\": ");
            reveal_strlit("tps");
            reveal_strlit("\"io\": {");
            let head = chars(tabs(tab)) + chars("\"io\": {"@);
            let own = own_member(item, "tps"@);
            assert(chars("\"io\": {\"tps\": "@) =~= chars("\"io\": {"@) + chars(
                "\""@ + "tps"@ + "\": "@,
            ));
            let rest = whole.skip((head + own).len() as int);
            assert(whole =~= head + own + rest);
            lemma_stands_in(head, own, rest, whole);
        } else {
            let j = (i - 1) / 2;
            let (kind, a, b) = io_kinds()[j];
            lemma_io_object(item, tab, j);
            lemma_pair_object(item, kind, a, b);
            lemma_stands_deeper(
                own_member(item, io_names()[i]@),
                pair_object(item, kind@, a@, b@),
                whole,
            );
        }
    }
}

proof fn lemma_xml_literals()
    ensures
        chars("<io-reads rtps=\""@) == chars("<"@ + "io-reads"@ + " "@) + chars("rtps"@ + "=\""@),
        chars("\" bread=\""@) == chars("\""@) + chars(" "@) + chars("bread"@ + "=\""@),
        chars("<io-writes wtps=\""@) == chars("<"@ + "io-writes"@ + " "@) + chars(
            "wtps"@ + "=\""@,
        ),
        chars("\" bwrtn=\""@) == chars("\""@) + chars(" "@) + chars("bwrtn"@ + "=\""@),
        chars("<io-discard dtps=\""@) == chars("<"@ + "io-discard"@ + " "@) + chars(
            "dtps"@ + "=\""@,
        ),
        chars("\" bdscd=\""@) == chars("\""@) + chars(" "@) + chars("bdscd"@ + "=\""@),
        chars("\"/>\n"@) == chars("\""@) + chars("/>\n"@),
{
    reveal_strlit("\"");
    reveal_strlit("=\"");
    reveal_strlit("<");
    reveal_strlit(" ");
    reveal_strlit("/>\n");
    assert(chars("<io-reads rtps=\""@) =~= chars("<"@ + "io-reads"@ + " "@) + chars(
        "rtps"@ + "=\""@,
    )) by {
        reveal_strlit("<io-reads rtps=\"");
        reveal_strlit("io-reads");
        reveal_strlit("rtps");
    }
    assert(chars("\" bread=\""@) =~= chars("\""@) + chars(" "@) + chars("bread"@ + "=\""@)) by {
        reveal_strlit("\" bread=\"");
        reveal_strlit("bread");
    }
    assert(chars("<io-writes wtps=\""@) =~= chars("<"@ + "io-writes"@ + " "@) + chars(
        "wtps"@ + "=\""@,
    )) by {
        reveal_strlit("<io-writes wtps=\"");
        reveal_strlit("io-writes");
        reveal_strlit("wtps");
    }
    assert(chars("\" bwrtn=\""@) =~= chars("\""@) + chars(" "@) + chars("bwrtn"@ + "=\""@)) by {
        reveal_strlit("\" bwrtn=\"");
        reveal_strlit("bwrtn");
    }
    assert(chars("<io-discard dtps=\""@) =~= chars("<"@ + "io-discard"@ + " "@) + chars(
        "dtps"@ + "=\""@,
    )) by {
        reveal_strlit("<io-discard dtps=\"");
        reveal_strlit("io-discard");
        reveal_strlit("dtps");
    }
    assert(chars("\" bdscd=\""@) =~= chars("\""@) + chars(" "@) + chars("bdscd"@ + "=\""@)) by {
        reveal_strlit("\" bdscd=\"");
        reveal_strlit("bdscd");
    }
    assert(chars("\"/>\n"@) =~= chars("\""@) + chars("/>\n"@)) by {
        reveal_strlit("\"/>\n");
    }
}

proof fn lemma_regroup_element(
    lead: Seq<Glyph>,
    kind: Seq<Glyph>,
    a: Seq<Glyph>,
    va: Seq<Glyph>,
    quote: Seq<Glyph>,
    blank: Seq<Glyph>,
    b: Seq<Glyph>,
    vb: Seq<Glyph>,
    end: Seq<Glyph>,
)
    ensures
        lead + (kind + a) + va + (quote + blank + b) + vb + (quote + end) == lead + (kind + (a + va
            + quote) + blank + (b + vb + quote) + end),
{
    assert(lead + (kind + a) + va + (quote + blank + b) + vb + (quote + end) =~= lead + (kind + (a
        + va + quote) + blank + (b + vb + quote) + end));
}

#[verifier::spinoff_prover]
#[verifier::rlimit(60)]
proof fn lemma_io_elements(item: ItemModel, depth: nat)
    ensures
        io_body(item, depth) == chars(tabs(depth)) + chars("<io per=\"second\">\n"@) + chars(
            tabs(depth + 1),
        ) + (chars("<tps>"@) + value_shown(
            item.computed_by_name("tps"@),
            Fmt::R2,
            ""@,
        ).glyphs() + chars("</tps>\n"@)) + chars(tabs(depth + 1)) + pair_element(
            item,
            "io-reads"@,
            "rtps"@,
            "bread"@,
        ) + chars(tabs(depth + 1)) + pair_element(item, "io-writes"@, "wtps"@, "bwrtn"@) + chars(
            tabs(depth + 1),
        ) + pair_element(item, "io-discard"@, "dtps"@, "bdscd"@) + (chars(tabs(depth)) + chars(
            "</io>\n"@,
        )),
{
    lemma_xml_literals();
    let t = chars(tabs(depth + 1));
    let quote = chars("\""@);
    let blank = chars(" "@);
    let end = chars("/>\n"@);
    let head = chars(tabs(depth)) + chars("<io per=\"second\">\n"@) + t;
    let tps = chars("<tps>"@) + xml_rate(item, "tps"@) + chars("</tps>\n"@);
    let lead = head + chars("<tps>"@) + xml_rate(item, "tps"@) + chars("</tps>\n"@) + t;
    assert(lead =~= head + tps + t);
    let reads = pair_element(item, "io-reads"@, "rtps"@, "bread"@);
    let writes = pair_element(item, "io-writes"@, "wtps"@, "bwrtn"@);
    let discards = pair_element(item, "io-discard"@, "dtps"@, "bdscd"@);
    lemma_regroup_element(
        lead,
        chars("<"@ + "io-reads"@ + " "@),
        chars("rtps"@ + "=\""@),
        xml_rate(item, "rtps"@),
        quote,
        blank,
        chars("bread"@ + "=\""@),
        xml_rate(item, "bread"@),
        end,
    );
    let second = lead + reads + t;
    lemma_regroup_element(
        second,
        chars("<"@ + "io-writes"@ + " "@),
        chars("wtps"@ + "=\""@),
        xml_rate(item, "wtps"@),
        quote,
        blank,
        chars("bwrtn"@ + "=\""@),
        xml_rate(item, "bwrtn"@),
        end,
    );
    let third = second + writes + t;
    lemma_regroup_element(
        third,
        chars("<"@ + "io-discard"@ + " "@),
        chars("dtps"@ + "=\""@),
        xml_rate(item, "dtps"@),
        quote,
        blank,
        chars("bdscd"@ + "=\""@),
        xml_rate(item, "bdscd"@),
        end,
    );
    let last = third + discards;
    assert(io_body(item, depth) == last + chars(tabs(depth)) + chars("</io>\n"@));
    assert(last + chars(tabs(depth)) + chars("</io>\n"@) =~= last + (chars(tabs(depth)) + chars(
        "</io>\n"@,
    )));
}

proof fn lemma_io_element(item: ItemModel, depth: nat, j: int)
    requires
        0 <= j < 3,
    ensures
        stands_in(
            pair_element(item, io_kinds()[j].0@, io_kinds()[j].1@, io_kinds()[j].2@),
            io_body(item, depth),
        ),
        stands_in(
            chars("<tps>"@) + value_shown(item.computed_by_name("tps"@), Fmt::R2, ""@).glyphs()
                + chars("</tps>\n"@),
            io_body(item, depth),
        ),
{
    lemma_io_elements(item, depth);
    let t = chars(tabs(depth + 1));
    let head = chars(tabs(depth)) + chars("<io per=\"second\">\n"@) + t;
    let tps = chars("<tps>"@) + value_shown(item.computed_by_name("tps"@), Fmt::R2, ""@).glyphs()
        + chars("</tps>\n"@);
    let reads = pair_element(item, "io-reads"@, "rtps"@, "bread"@);
    let writes = pair_element(item, "io-writes"@, "wtps"@, "bwrtn"@);
    let discards = pair_element(item, "io-discard"@, "dtps"@, "bdscd"@);
    let end = chars(tabs(depth)) + chars("</io>\n"@);
    lemma_three_stand(head + tps + t, reads, t, writes, discards, end);
    lemma_first_stands(head, tps, t, reads, writes, discards, end);
}

proof fn lemma_first_stands(
    head: Seq<Glyph>,
    first: Seq<Glyph>,
    gap: Seq<Glyph>,
    a: Seq<Glyph>,
    b: Seq<Glyph>,
    c: Seq<Glyph>,
    end: Seq<Glyph>,
)
    ensures
        stands_in(first, head + first + gap + a + gap + b + gap + c + end),
{
    let whole = head + first + gap + a + gap + b + gap + c + end;
    let rest = gap + a + gap + b + gap + c + end;
    assert(whole =~= head + first + rest);
    lemma_stands_in(head, first, rest, whole);
}

/// In the XML of the transfer rates each attribute holds the displayed value of the column of
/// its own name, with two decimals, and so does the element of all transfers. The rates of
/// reads, writes and discards stand together, each in the element of its kind.
pub proof fn law_xml_transfer_rates_hold_their_own_columns(item: ItemModel, depth: nat)
    ensures
        stands_in(
            chars("<tps>"@) + value_shown(item.computed_by_name("tps"@), Fmt::R2, ""@).glyphs()
                + chars("</tps>\n"@),
            io_body(item, depth),
        ),
        forall|i: int|
            1 <= i < io_names().len() ==> stands_in(
                own_attribute(item, (#[trigger] io_names()[i])@),
                io_body(item, depth),
            ),
        forall|j: int|
            0 <= j < io_kinds().len() ==> stands_in(
                pair_element(
                    item,
                    (#[trigger] io_kinds()[j]).0@,
                    io_kinds()[j].1@,
                    io_kinds()[j].2@,
                ),
                io_body(item, depth),
            ),
{
    let whole = io_body(item, depth);
    lemma_io_element(item, depth, 0);
    assert forall|j: int| 0 <= j < io_kinds().len() implies stands_in(
        pair_element(item, (#[trigger] io_kinds()[j]).0@, io_kinds()[j].1@, io_kinds()[j].2@),
        whole,
    ) by {
        lemma_io_element(item, depth, j);
    }
    assert forall|i: int| 1 <= i < io_names().len() implies stands_in(
        own_attribute(item, (#[trigger] io_names()[i])@),
        whole,
    ) by {
        let j = (i - 1) / 2;
        let (kind, a, b) = io_kinds()[j];
        lemma_io_element(item, depth, j);
        lemma_pair_element(item, kind, a, b);
        lemma_stands_deeper(
            own_attribute(item, io_names()[i]@),
            pair_element(item, kind@, a@, b@),
            whole,
        );
    }
}

/// The displayed value of the column that a key stands for. Some keys stand for none.
pub open spec fn keyed_value(item: ItemModel, e: Keyed) -> Computed {
    if e.column@.len() == 0 {
        Err(ComputeIssue::NotImplemented)
    } else {
        item.computed_by_name(e.column@)
    }
}

/// The text of the column that a key stands for; empty where there is none.
pub open spec fn keyed_text(id: ActivityId, item: ItemModel, e: Keyed) -> Seq<char> {
    match text_of(id, item, e.column@) {
        Some(t) => t,
        None => ""@,
    }
}

/// Whether a key is shown.
pub open spec fn key_is_open(cfg: SadfConfig, e: Keyed) -> bool {
    !e.detail || cfg.section.mem_all
}

/// A member of JSON: the key, and what tells the item, the text or the value of its column. Texts
/// and hexadecimal numbers stand in quotes, and a value that is not known is null.
pub open spec fn json_member(
    id: ActivityId,
    item: ItemModel,
    e: Keyed,
    told: Seq<char>,
) -> Seq<Glyph> {
    let key = chars("\""@ + e.key@ + "\": "@);
    match e.fmt {
        Fmt::ItemKeyNum => key + chars(told),
        Fmt::ItemKeyStr => key + chars("\""@) + chars(json::escaped(told)) + chars("\""@),
        Fmt::Str => key + chars("\""@) + chars(json::escaped(keyed_text(id, item, e))) + chars(
            "\""@,
        ),
        Fmt::Hex => key + chars("\""@) + value_shown(
            keyed_value(item, e),
            Fmt::Hex,
            ""@,
        ).glyphs() + chars("\""@),
        _ => key + value_shown(keyed_value(item, e), e.fmt, "null"@).glyphs(),
    }
}

/// What XML shows of a key: what tells the item, the text or the value of its column.
pub open spec fn xml_shown(id: ActivityId, item: ItemModel, e: Keyed, told: Seq<char>) -> Seq<Glyph> {
    match e.fmt {
        Fmt::ItemKeyNum | Fmt::ItemKeyStr => chars(xml::escaped(told)),
        Fmt::Str => chars(xml::escaped(keyed_text(id, item, e))),
        _ => value_shown(keyed_value(item, e), e.fmt, ""@).glyphs(),
    }
}

/// An attribute of XML, or an element where `depth` says how far it is indented.
pub open spec fn xml_member(
    id: ActivityId,
    item: ItemModel,
    e: Keyed,
    told: Seq<char>,
    depth: Option<nat>,
) -> Seq<Glyph> {
    let shown = xml_shown(id, item, e, told);
    match depth {
        None => chars(" "@ + e.attr@ + "=\""@) + shown + chars("\""@),
        Some(d) => chars(tabs(d)) + chars("<"@ + e.attr@ + ">"@) + shown + chars(
            "</"@ + e.attr@ + ">\n"@,
        ),
    }
}

/// The members of JSON for the first `n` keys that are shown.
pub open spec fn json_members(
    cfg: SadfConfig,
    id: ActivityId,
    item: ItemModel,
    list: Seq<Keyed>,
    told: Seq<char>,
    n: int,
) -> Seq<Seq<Glyph>>
    decreases n,
{
    if n <= 0 {
        Seq::empty()
    } else if key_is_open(cfg, list[n - 1]) {
        json_members(cfg, id, item, list, told, n - 1).push(
            json_member(id, item, list[n - 1], told),
        )
    } else {
        json_members(cfg, id, item, list, told, n - 1)
    }
}

/// The attributes or elements of XML for the first `n` keys that are shown.
pub open spec fn xml_members(
    cfg: SadfConfig,
    id: ActivityId,
    item: ItemModel,
    list: Seq<Keyed>,
    told: Seq<char>,
    depth: Option<nat>,
    n: int,
) -> Seq<Glyph>
    decreases n,
{
    if n <= 0 {
        Seq::empty()
    } else if key_is_open(cfg, list[n - 1]) {
        xml_members(cfg, id, item, list, told, depth, n - 1) + xml_member(
            id,
            item,
            list[n - 1],
            told,
            depth,
        )
    } else {
        xml_members(cfg, id, item, list, told, depth, n - 1)
    }
}

/// Whether a field shows what a key stands for.
spec fn is_keyed(f: Field, e: Keyed) -> bool {
    &&& f.key == e.key
    &&& f.key@.len() > 0
    &&& f.attr == e.attr
    &&& f.attr@.len() > 0
    &&& f.col == e.column
    &&& f.jx_fmt == e.fmt
    &&& is_detail(f.gate) == e.detail
    &&& e.fmt != Fmt::Skip
}

proof fn lemma_no_text_escaped()
    ensures
        json::escaped(""@) == Seq::<char>::empty(),
        xml::escaped(""@) == Seq::<char>::empty(),
        chars(Seq::<char>::empty()) == Seq::<Glyph>::empty(),
        ""@ == Seq::<char>::empty(),
{
    reveal_strlit("");
    assert(""@ =~= Seq::<char>::empty());
    assert(chars(Seq::<char>::empty()) =~= Seq::<Glyph>::empty());
}

proof fn lemma_json_member(
    cfg: SadfConfig,
    id: ActivityId,
    item: ItemModel,
    f: Field,
    e: Keyed,
    label: LabelModel,
)
    requires
        is_keyed(f, e),
    ensures
        json_field(cfg, f) == key_is_open(cfg, e),
        member(id, item, f, label) == json_member(id, item, e, label.jx),
{
    lemma_no_text_escaped();
    assert(chars("\""@ + f.key@ + "\": "@) =~= chars("\""@) + chars(f.key@) + chars("\": "@));
    reveal_strlit("\": \"");
    reveal_strlit("\": ");
    reveal_strlit("\"");
    assert(chars("\": \""@) =~= chars("\": "@) + chars("\""@));
    assert(member(id, item, f, label) =~= json_member(id, item, e, label.jx));
}

proof fn lemma_xml_member(
    cfg: SadfConfig,
    id: ActivityId,
    item: ItemModel,
    f: Field,
    e: Keyed,
    label: LabelModel,
    depth: Option<nat>,
)
    requires
        is_keyed(f, e),
    ensures
        xml_field(cfg, f) == key_is_open(cfg, e),
        field_text(id, item, f, label, depth) == xml_member(id, item, e, label.jx, depth),
{
    lemma_no_text_escaped();
    assert(chars(" "@ + f.attr@ + "=\""@) =~= chars(" "@) + chars(f.attr@) + chars("=\""@));
    assert(chars("<"@ + f.attr@ + ">"@) =~= chars("<"@) + chars(f.attr@) + chars(">"@));
    assert(chars("</"@ + f.attr@ + ">\n"@) =~= chars("</"@) + chars(f.attr@) + chars(">\n"@));
    assert(xml_value(id, item, f, label) =~= xml_shown(id, item, e, label.jx));
    assert(field_text(id, item, f, label, depth) =~= xml_member(id, item, e, label.jx, depth));
}

/// Whether a list keys something in each place.
spec fn keys_something(list: Seq<Keyed>) -> bool {
    forall|i: int| 0 <= i < list.len() ==> (#[trigger] list[i]).fmt != Fmt::Skip
}

proof fn lemma_keys_something(id: ActivityId, k: int)
    ensures
        keys_something(nested_members(id, k)),
{
}

proof fn lemma_json_members(
    cfg: SadfConfig,
    id: ActivityId,
    item: ItemModel,
    fields: Seq<Field>,
    list: Seq<Keyed>,
    label: LabelModel,
    n: int,
)
    requires
        0 <= n <= fields.len(),
        shows_keyed(fields, list),
        keys_something(list),
    ensures
        section_members(cfg, id, item, fields, label, n) == json_members(
            cfg,
            id,
            item,
            list,
            label.jx,
            n,
        ),
    decreases n,
{
    if n > 0 {
        lemma_json_members(cfg, id, item, fields, list, label, n - 1);
        assert(is_keyed(fields[n - 1], list[n - 1]));
        lemma_json_member(cfg, id, item, fields[n - 1], list[n - 1], label);
    }
}

proof fn lemma_xml_members(
    cfg: SadfConfig,
    id: ActivityId,
    item: ItemModel,
    fields: Seq<Field>,
    list: Seq<Keyed>,
    label: LabelModel,
    depth: Option<nat>,
    n: int,
)
    requires
        0 <= n <= fields.len(),
        shows_keyed(fields, list),
        keys_something(list),
    ensures
        section_fields(cfg, id, item, fields, label, depth, n) == xml_members(
            cfg,
            id,
            item,
            list,
            label.jx,
            depth,
            n,
        ),
    decreases n,
{
    if n > 0 {
        lemma_xml_members(cfg, id, item, fields, list, label, depth, n - 1);
        assert(is_keyed(fields[n - 1], list[n - 1]));
        lemma_xml_member(cfg, id, item, fields[n - 1], list[n - 1], label, depth);
    }
}

/// In JSON each member of a section holds the column that its key stands for.
pub proof fn law_json_members_hold_their_columns(
    cfg: SadfConfig,
    id: ActivityId,
    k: int,
    item: ItemModel,
)
    requires
        id != ActivityId::IRQ,
        table(id) matches Some(m) && 0 <= k < m.sections.len(),
    ensures
        ({
            let m = table(id)->0;
            let fields = nested_fields(m.sections[k]);
            let label = label_in(m.item, m.sections[k], item);
            let list = nested_members(id, k);
            section_members(cfg, id, item, fields, label, fields.len() as int) == json_members(
                cfg,
                id,
                item,
                list,
                label.jx,
                list.len() as int,
            )
        }),
{
    let m = table(id)->0;
    let fields = nested_fields(m.sections[k]);
    law_names_show_their_columns(id, k);
    lemma_keys_something(id, k);
    lemma_json_members(
        cfg,
        id,
        item,
        fields,
        nested_members(id, k),
        label_in(m.item, m.sections[k], item),
        fields.len() as int,
    );
}

/// In XML each attribute or element of a section holds the column that its name stands for.
pub proof fn law_xml_members_hold_their_columns(
    cfg: SadfConfig,
    id: ActivityId,
    k: int,
    item: ItemModel,
    depth: Option<nat>,
)
    requires
        id != ActivityId::IRQ,
        table(id) matches Some(m) && 0 <= k < m.sections.len(),
    ensures
        ({
            let m = table(id)->0;
            let fields = nested_fields(m.sections[k]);
            let label = label_in(m.item, m.sections[k], item);
            let list = nested_members(id, k);
            section_fields(cfg, id, item, fields, label, depth, fields.len() as int)
                == xml_members(cfg, id, item, list, label.jx, depth, list.len() as int)
        }),
{
    let m = table(id)->0;
    let fields = nested_fields(m.sections[k]);
    law_names_show_their_columns(id, k);
    lemma_keys_something(id, k);
    lemma_xml_members(
        cfg,
        id,
        item,
        fields,
        nested_members(id, k),
        label_in(m.item, m.sections[k], item),
        depth,
        fields.len() as int,
    );
}

}
