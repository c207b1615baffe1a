//! What the nested formats say of the time of a sample, a restart or a comment.

use vstd::prelude::*;

use crate::clock::RecordTime;
use crate::doc::{chars, Glyph};
use crate::sadf::access::ItemModel;
use crate::sadf::config::SadfConfig;
use crate::sadf::dbppc::comment_of;
use crate::sadf::document_laws::{
    amid, attribute_says, json_counts, json_says, lemma_deeper, occurs,
};
use crate::sadf::json;
use crate::sadf::logic1::RestartEntry;
use crate::sadf::records::Rec;
use crate::sadf::stamp::{rounded_seconds, stamp_of, FileInfo};
use crate::sadf::table::SpecModel;
use crate::sadf::xml;
use crate::sar_text::header::cpu_count;
use crate::text::dec;
use crate::text_laws::{decimal_value, law_decimals_have_their_value};
use crate::within::{lemma_stands_deeper, lemma_stands_in, stands_in};

verus! {

/// The timestamp of a sample in JSON says its date, its time, its zone and its interval, each under
/// its own key.
pub proof fn law_json_timestamps_say_when(
    cfg: SadfConfig,
    info: FileInfo,
    t: RecordTime,
    itv_cs: u64,
)
    ensures
        ({
            let s = stamp_of(cfg.time_base, t, info);
            let text = json::timestamp_entry(cfg, info, t, itv_cs);
            &&& json_says(text, "date"@, s.date)
            &&& json_says(text, "time"@, s.time)
            &&& json_says(text, "tz"@, json::escaped(s.tz))
            &&& json_counts(text, "interval"@, rounded_seconds(itv_cs))
        }),
{
    let s = stamp_of(cfg.time_base, t, info);
    let z = json::escaped(s.tz);
    let text = json::timestamp_entry(cfg, info, t, itv_cs);
    let n = dec(rounded_seconds(itv_cs) as nat);
    law_decimals_have_their_value(rounded_seconds(itv_cs) as nat);
    let a = "\t\t\t\t\t\"timestamp\": {\"date\": \""@;
    let c = "\", \"time\": \""@;
    let d = "\", \"tz\": \""@;
    let f = "\", \"interval\": "@;
    let q = seq!['"'];
    let sep = seq!['"', ',', ' '];
    let kd = q + "date"@ + "\": \""@;
    let kt = q + "time"@ + "\": \""@;
    let kz = q + "tz"@ + "\": \""@;
    let ki = q + "interval"@ + "\": "@;
    reveal_strlit("\t\t\t\t\t\"timestamp\": {\"date\": \"");
    reveal_strlit("\", \"time\": \"");
    reveal_strlit("\", \"tz\": \"");
    reveal_strlit("\", \"interval\": ");
    reveal_strlit("date");
    reveal_strlit("time");
    reveal_strlit("tz");
    reveal_strlit("interval");
    reveal_strlit("\": \"");
    reveal_strlit("\": ");
    reveal_strlit("\t\t\t\t\t\"timestamp\": {");
    assert(a =~= "\t\t\t\t\t\"timestamp\": {"@ + kd);
    assert(c =~= sep + kt);
    assert(d =~= sep + kz);
    assert(f =~= sep + ki);
    lemma_moment("\t\t\t\t\t\"timestamp\": {"@, kd, s.date, sep, kt, s.time, kz, z, ki, n, "}"@);
    assert(occurs(ki + n, text) && decimal_value(n) == rounded_seconds(itv_cs));
}

proof fn lemma_moment(
    lead: Seq<char>,
    kd: Seq<char>,
    date: Seq<char>,
    sep: Seq<char>,
    kt: Seq<char>,
    time: Seq<char>,
    kz: Seq<char>,
    z: Seq<char>,
    ki: Seq<char>,
    n: Seq<char>,
    end: Seq<char>,
)
    requires
        sep.len() > 0,
        sep[0] == '"',
    ensures
        ({
            let text = (lead + kd) + date + (sep + kt) + time + (sep + kz) + z + (sep + ki) + n + end;
            &&& occurs(kd + date + seq!['"'], text)
            &&& occurs(kt + time + seq!['"'], text)
            &&& occurs(kz + z + seq!['"'], text)
            &&& occurs(ki + n, text)
        }),
{
    let text = (lead + kd) + date + (sep + kt) + time + (sep + kz) + z + (sep + ki) + n + end;
    let rest = sep.drop_first();
    assert(amid(
        lead,
        kd + date + seq!['"'],
        rest + kt + time + (sep + kz) + z + (sep + ki) + n + end,
    ) =~= text);
    assert(amid(
        (lead + kd) + date + sep,
        kt + time + seq!['"'],
        rest + kz + z + (sep + ki) + n + end,
    ) =~= text);
    assert(amid(
        (lead + kd) + date + (sep + kt) + time + sep,
        kz + z + seq!['"'],
        rest + ki + n + end,
    ) =~= text);
    assert(amid(
        (lead + kd) + date + (sep + kt) + time + (sep + kz) + z + sep,
        ki + n,
        end,
    ) =~= text);
}

/// The attributes of a moment in XML are its date, its time and its zone.
pub proof fn law_xml_moments_say_when(cfg: SadfConfig, info: FileInfo, t: RecordTime)
    ensures
        ({
            let s = stamp_of(cfg.time_base, t, info);
            let text = xml::time_attributes(cfg, info, t);
            &&& attribute_says(text, "date"@, s.date)
            &&& attribute_says(text, "time"@, s.time)
            &&& attribute_says(text, "tz"@, xml::escaped(s.tz))
        }),
{
    let s = stamp_of(cfg.time_base, t, info);
    let z = xml::escaped(s.tz);
    let text = xml::time_attributes(cfg, info, t);
    let kd = seq![' '] + "date"@ + "=\""@;
    let kt = seq![' '] + "time"@ + "=\""@;
    let kz = seq![' '] + "tz"@ + "=\""@;
    reveal_strlit(" date=\"");
    reveal_strlit("\" time=\"");
    reveal_strlit("\" tz=\"");
    reveal_strlit("\"");
    reveal_strlit("date");
    reveal_strlit("time");
    reveal_strlit("tz");
    reveal_strlit("=\"");
    assert(" date=\""@ =~= Seq::<char>::empty() + kd);
    assert("\" time=\""@ =~= seq!['"'] + kt);
    assert("\" tz=\""@ =~= seq!['"'] + kz);
    assert("\""@ =~= seq!['"'] + Seq::<char>::empty());
    lemma_moment(
        Seq::empty(),
        kd,
        s.date,
        seq!['"'],
        kt,
        s.time,
        kz,
        z,
        Seq::empty(),
        Seq::empty(),
        Seq::empty(),
    );
    assert(text =~= (Seq::<char>::empty() + kd) + s.date + (seq!['"'] + kt) + s.time + (seq!['"'] + kz)
        + z + (seq!['"'] + Seq::<char>::empty()) + Seq::<char>::empty() + Seq::<char>::empty());
}

/// Each restart has an element of its own in XML, with its own time and number of CPUs.
pub proof fn law_xml_lists_each_restart(
    cfg: SadfConfig,
    info: FileInfo,
    recs: Seq<Rec>,
    list: Seq<RestartEntry>,
    n: int,
    k: int,
)
    requires
        0 <= k < n <= list.len(),
        list[k].rec < recs.len(),
    ensures
        occurs(
            "\t\t\t<boot"@ + xml::time_attributes(cfg, info, recs[list[k].rec as int].time)
                + " cpu_count=\""@ + dec(cpu_count(list[k].cpu_nr) as nat) + "\"/>\n"@,
            xml::boots(cfg, info, recs, list, n),
        ),
    decreases n,
{
    let whole = xml::boots(cfg, info, recs, list, n);
    let before = xml::boots(cfg, info, recs, list, n - 1);
    let part = "\t\t\t<boot"@ + xml::time_attributes(cfg, info, recs[list[k].rec as int].time)
        + " cpu_count=\""@ + dec(cpu_count(list[k].cpu_nr) as nat) + "\"/>\n"@;
    if k == n - 1 {
        assert(amid(before, part, Seq::empty()) =~= whole);
    } else {
        law_xml_lists_each_restart(cfg, info, recs, list, n - 1, k);
        let rest = whole.skip(before.len() as int);
        assert(amid(Seq::empty(), before, rest) =~= whole);
        lemma_deeper(part, before, whole);
    }
}

/// Each comment has an element of its own in XML, with its own time and text.
pub proof fn law_xml_lists_each_comment(
    cfg: SadfConfig,
    info: FileInfo,
    recs: Seq<Rec>,
    list: Seq<usize>,
    n: int,
    k: int,
)
    requires
        0 <= k < n <= list.len(),
        list[k] < recs.len(),
    ensures
        occurs(
            "\t\t\t<comment"@ + xml::time_attributes(cfg, info, recs[list[k] as int].time)
                + " com=\""@ + xml::escaped(comment_of(recs[list[k] as int])) + "\"/>\n"@,
            xml::remarks(cfg, info, recs, list, n),
        ),
    decreases n,
{
    let whole = xml::remarks(cfg, info, recs, list, n);
    let before = xml::remarks(cfg, info, recs, list, n - 1);
    let part = "\t\t\t<comment"@ + xml::time_attributes(cfg, info, recs[list[k] as int].time)
        + " com=\""@ + xml::escaped(comment_of(recs[list[k] as int])) + "\"/>\n"@;
    if k == n - 1 {
        assert(amid(before, part, Seq::empty()) =~= whole);
    } else {
        law_xml_lists_each_comment(cfg, info, recs, list, n - 1, k);
        let rest = whole.skip(before.len() as int);
        assert(amid(Seq::empty(), before, rest) =~= whole);
        lemma_deeper(part, before, whole);
    }
}

/// In XML each item that is shown has an element of its own.
pub proof fn law_xml_lists_each_item(
    cfg: SadfConfig,
    m: SpecModel,
    items: Seq<ItemModel>,
    depth: nat,
    k: int,
)
    requires
        0 <= k < items.len(),
    ensures
        stands_in(
            chars("<"@) + chars(m.xml_child@) + xml::item_fields(
                cfg,
                m,
                items[k],
                None,
                m.active(cfg.section),
            ) + chars("/>\n"@),
            xml::item_elements(cfg, m, items, depth),
        ),
    decreases items.len(),
{
    let whole = xml::item_elements(cfg, m, items, depth);
    let before = xml::item_elements(cfg, m, items.drop_last(), depth);
    let part = chars("<"@) + chars(m.xml_child@) + xml::item_fields(
        cfg,
        m,
        items[k],
        None,
        m.active(cfg.section),
    ) + chars("/>\n"@);
    if k == items.len() - 1 {
        let lead = before + chars(json::tabs(depth));
        assert(whole =~= lead + part + Seq::<Glyph>::empty());
        lemma_stands_in(lead, part, Seq::empty(), whole);
    } else {
        law_xml_lists_each_item(cfg, m, items.drop_last(), depth, k);
        let rest = whole.skip(before.len() as int);
        assert(whole =~= Seq::<Glyph>::empty() + before + rest);
        lemma_stands_in(Seq::empty(), before, rest, whole);
        lemma_stands_deeper(part, before, whole);
    }
}

}
