//! What the documents of the nested formats say of the machine, of restarts and of comments.

use vstd::prelude::*;

use crate::clock::RecordTime;
use crate::doc::chars;
use crate::sadf::config::SadfConfig;
use crate::sadf::dbppc::comment_of;
use crate::sadf::json;
use crate::sadf::logic1::RestartEntry;
use crate::sadf::records::Rec;
use crate::sadf::stamp::{stamp_of, FileInfo};
use crate::sadf::xml;
use crate::sar_text::header::cpu_count;
use crate::text::{dec, hex, zero_filled};
use crate::text_laws::{
    decimal_value, hexadecimal_value, law_decimals_have_their_value,
    law_hexadecimals_have_their_value,
};

verus! {

/// A text with what stands before it and what stands after it.
pub open spec fn amid(before: Seq<char>, part: Seq<char>, after: Seq<char>) -> Seq<char> {
    before + part + after
}

/// Whether a text stands somewhere in another, in one piece.
pub open spec fn occurs(part: Seq<char>, whole: Seq<char>) -> bool {
    exists|before: Seq<char>, after: Seq<char>| #[trigger] amid(before, part, after) == whole
}

/// Texts one after the other.
pub open spec fn in_a_row(parts: Seq<Seq<char>>) -> Seq<char>
    decreases parts.len(),
{
    if parts.len() == 0 {
        Seq::empty()
    } else {
        in_a_row(parts.drop_last()) + parts.last()
    }
}

proof fn lemma_part_occurs(parts: Seq<Seq<char>>, k: int)
    requires
        0 <= k < parts.len(),
    ensures
        occurs(parts[k], in_a_row(parts)),
    decreases parts.len(),
{
    let whole = in_a_row(parts);
    let before = in_a_row(parts.drop_last());
    if k == parts.len() - 1 {
        assert(amid(before, parts[k], Seq::empty()) =~= whole);
    } else {
        lemma_part_occurs(parts.drop_last(), k);
        let (a, b) = choose|a: Seq<char>, b: Seq<char>| #[trigger]
            amid(a, parts.drop_last()[k], b) == before;
        assert(amid(a, parts[k], b + parts.last()) =~= whole);
    }
}

pub(crate) proof fn lemma_deeper(part: Seq<char>, middle: Seq<char>, whole: Seq<char>)
    requires
        occurs(part, middle),
        occurs(middle, whole),
    ensures
        occurs(part, whole),
{
    let (a, b) = choose|a: Seq<char>, b: Seq<char>| #[trigger] amid(a, part, b) == middle;
    let (c, d) = choose|c: Seq<char>, d: Seq<char>| #[trigger] amid(c, middle, d) == whole;
    assert(amid(c + a, part, b + d) =~= whole);
}

/// Whether a text says in JSON that a key has a text for its value.
pub open spec fn json_says(whole: Seq<char>, key: Seq<char>, value: Seq<char>) -> bool {
    occurs(seq!['"'] + key + "\": \""@ + value + seq!['"'], whole)
}

/// Whether a text says in JSON that a key has a number for its value.
pub open spec fn json_counts(whole: Seq<char>, key: Seq<char>, n: int) -> bool {
    exists|value: Seq<char>| #[trigger]
        occurs(seq!['"'] + key + "\": "@ + value, whole) && decimal_value(value) == n
}

/// Whether a text says in XML that an element has a text for its value.
pub open spec fn xml_says(whole: Seq<char>, element: Seq<char>, value: Seq<char>) -> bool {
    occurs(seq!['<'] + element + seq!['>'] + value + "</"@ + element + seq!['>'], whole)
}

/// Whether a text says in XML that an attribute has a text for its value.
pub open spec fn attribute_says(whole: Seq<char>, name: Seq<char>, value: Seq<char>) -> bool {
    occurs(seq![' '] + name + "=\""@ + value + seq!['"'], whole)
}

/// What a character or an escape in a JSON text means.
pub open spec fn json_meaning(e: Seq<char>) -> Option<char> {
    if e.len() == 1 {
        if e[0] == '"' || e[0] == '\\' || (e[0] as u32) < 32 {
            None
        } else {
            Some(e[0])
        }
    } else if e.len() == 2 && e[0] == '\\' {
        match e[1] {
            '"' => Some('"'),
            '\\' => Some('\\'),
            'n' => Some('\n'),
            'r' => Some('\r'),
            't' => Some('\t'),
            _ => None,
        }
    } else if e.len() == 6 && e[0] == '\\' && e[1] == 'u' {
        Some(hexadecimal_value(e.skip(2)) as char)
    } else {
        None
    }
}

/// Each character of a text is written in JSON so that it means itself, one after the other.
pub proof fn law_escapes_mean_their_character(s: Seq<char>, c: char)
    ensures
        json_meaning(json::escaped_char(c)) == Some(c),
        json::escaped(s.push(c)) == json::escaped(s) + json::escaped_char(c),
        json::escaped(Seq::empty()) == Seq::<char>::empty(),
{
    reveal_strlit("\\\"");
    reveal_strlit("\\\\");
    reveal_strlit("\\n");
    reveal_strlit("\\r");
    reveal_strlit("\\t");
    reveal_strlit("\\u");
    assert(s.push(c).drop_last() =~= s);
    if (c as u32) < 32 && c != '\n' && c != '\r' && c != '\t' {
        let n = c as u32 as nat;
        let e = json::escaped_char(c);
        lemma_small_escape(n);
        assert(e.skip(2) =~= zero_filled(hex(n), 4));
        assert(e.len() == 6);
        assert(hexadecimal_value(e.skip(2)) == n);
        assert(n as char == c);
    }
}

proof fn lemma_small_escape(n: nat)
    requires
        n < 32,
    ensures
        zero_filled(hex(n), 4).len() == 4,
        hexadecimal_value(zero_filled(hex(n), 4)) == n,
{
    reveal_with_fuel(hex, 3);
    law_hexadecimals_have_their_value(n);
    let h = hex(n);
    assert(1 <= h.len() <= 2);
    let z = zero_filled(h, 4);
    reveal_with_fuel(hexadecimal_value, 5);
    if h.len() == 1 {
        assert(z.drop_last() =~= seq!['0', '0', '0']);
        assert(seq!['0', '0', '0'].drop_last() =~= seq!['0', '0']);
        assert(seq!['0', '0'].drop_last() =~= seq!['0']);
        assert(seq!['0'].drop_last() =~= Seq::<char>::empty());
        assert(h.drop_last() =~= Seq::<char>::empty());
    } else {
        assert(z.drop_last() =~= seq!['0', '0', h[0]]);
        assert(seq!['0', '0', h[0]].drop_last() =~= seq!['0', '0']);
        assert(seq!['0', '0'].drop_last() =~= seq!['0']);
        assert(seq!['0'].drop_last() =~= Seq::<char>::empty());
        assert(h.drop_last() =~= seq![h[0]]);
        assert(seq![h[0]].drop_last() =~= Seq::<char>::empty());
    }
}

/// What a character or a name for one in an XML text means.
pub open spec fn xml_meaning(e: Seq<char>) -> Option<char> {
    if e.len() == 1 {
        Some(e[0])
    } else if e == seq!['&', 'a', 'm', 'p', ';'] {
        Some('&')
    } else if e == seq!['&', 'l', 't', ';'] {
        Some('<')
    } else if e == seq!['&', 'g', 't', ';'] {
        Some('>')
    } else if e == seq!['&', 'q', 'u', 'o', 't', ';'] {
        Some('"')
    } else if e == seq!['&', 'a', 'p', 'o', 's', ';'] {
        Some('\'')
    } else {
        None
    }
}

/// Each character of a text is written in XML so that it means itself, one after the other.
pub proof fn law_names_mean_their_character(s: Seq<char>, c: char)
    ensures
        xml_meaning(xml::escaped_char(c)) == Some(c),
        xml::escaped(s.push(c)) == xml::escaped(s) + xml::escaped_char(c),
        xml::escaped(Seq::empty()) == Seq::<char>::empty(),
{
    reveal_strlit("&amp;");
    reveal_strlit("&lt;");
    reveal_strlit("&gt;");
    reveal_strlit("&quot;");
    reveal_strlit("&apos;");
    assert(s.push(c).drop_last() =~= s);
    let e = xml::escaped_char(c);
    assert(c == '&' ==> e =~= seq!['&', 'a', 'm', 'p', ';']);
    assert(c == '<' ==> e =~= seq!['&', 'l', 't', ';']);
    assert(c == '>' ==> e =~= seq!['&', 'g', 't', ';']);
    assert(c == '"' ==> e =~= seq!['&', 'q', 'u', 'o', 't', ';']);
    assert(c == '\'' ==> e =~= seq!['&', 'a', 'p', 'o', 's', ';']);
    if c == '"' || c == '\'' {
        assert(seq!['&', 'q', 'u', 'o', 't', ';'][1] == 'q');
        assert(seq!['&', 'a', 'p', 'o', 's', ';'][1] == 'a');
    }
    if c == '<' || c == '>' {
        assert(seq!['&', 'l', 't', ';'][1] == 'l');
        assert(seq!['&', 'g', 't', ';'][1] == 'g');
    }
    if c == '"' {
        assert(e[1] == 'q');
    }
}

proof fn lemma_text_line(key: Seq<char>, value: Seq<char>)
    ensures
        json_says(json::text_line(key, value), key, value),
{
    reveal_strlit("\t\t\t\"");
    reveal_strlit("\",\n");
    assert(amid(
        "\t\t\t"@,
        seq!['"'] + key + "\": \""@ + value + seq!['"'],
        ",\n"@,
    ) =~= json::text_line(key, value)) by {
        reveal_strlit("\t\t\t");
        reveal_strlit(",\n");
    }
}


/// The text of the lines before the samples in JSON.
spec fn json_lines(info: FileInfo) -> Seq<Seq<char>> {
    seq![
        "{\"sysstat\": {\n\t\"hosts\": [\n\t\t{\n"@,
        json::text_line("nodename"@, json::escaped(info.nodename@)),
        json::text_line("sysname"@, json::escaped(info.sysname@)),
        json::text_line("release"@, json::escaped(info.release@)),
        json::text_line("machine"@, json::escaped(info.machine@)),
        "\t\t\t\"number-of-cpus\": "@ + dec(info.cpu_count as nat) + ",\n"@,
        json::text_line("file-date"@, info.file_date@),
        json::text_line("file-utc-time"@, info.file_utc_time@),
        json::text_line("timezone"@, json::escaped(info.tzname@)),
        "\t\t\t\"statistics\": [\n"@,
    ]
}

proof fn lemma_chars_add(a: Seq<char>, b: Seq<char>)
    ensures
        chars(a + b) == chars(a) + chars(b),
{
    assert(chars(a + b) =~= chars(a) + chars(b));
}

proof fn lemma_json_lines(info: FileInfo)
    ensures
        json::prologue(info) == chars(in_a_row(json_lines(info))),
{
    let l = json_lines(info);
    reveal_with_fuel(in_a_row, 11);
    assert(l.take(10).drop_last() =~= l.take(9));
    assert(l.take(9).drop_last() =~= l.take(8));
    assert(l.take(8).drop_last() =~= l.take(7));
    assert(l.take(7).drop_last() =~= l.take(6));
    assert(l.take(6).drop_last() =~= l.take(5));
    assert(l.take(5).drop_last() =~= l.take(4));
    assert(l.take(4).drop_last() =~= l.take(3));
    assert(l.take(3).drop_last() =~= l.take(2));
    assert(l.take(2).drop_last() =~= l.take(1));
    assert(l.take(10) =~= l);
    assert(l.take(1).drop_last() =~= Seq::<Seq<char>>::empty());
    assert(in_a_row(l.take(1)) =~= l[0]);
    assert(l.take(2).last() == l[1]);
    assert(in_a_row(l.take(2)) == in_a_row(l.take(1)) + l[1]);
    lemma_chars_add(in_a_row(l.take(1)), l[1]);
    assert(l.take(3).last() == l[2]);
    assert(in_a_row(l.take(3)) == in_a_row(l.take(2)) + l[2]);
    lemma_chars_add(in_a_row(l.take(2)), l[2]);
    assert(l.take(4).last() == l[3]);
    assert(in_a_row(l.take(4)) == in_a_row(l.take(3)) + l[3]);
    lemma_chars_add(in_a_row(l.take(3)), l[3]);
    assert(l.take(5).last() == l[4]);
    assert(in_a_row(l.take(5)) == in_a_row(l.take(4)) + l[4]);
    lemma_chars_add(in_a_row(l.take(4)), l[4]);
    assert(l.take(6).last() == l[5]);
    assert(in_a_row(l.take(6)) == in_a_row(l.take(5)) + l[5]);
    lemma_chars_add(in_a_row(l.take(5)), l[5]);
    assert(l.take(7).last() == l[6]);
    assert(in_a_row(l.take(7)) == in_a_row(l.take(6)) + l[6]);
    lemma_chars_add(in_a_row(l.take(6)), l[6]);
    assert(l.take(8).last() == l[7]);
    assert(in_a_row(l.take(8)) == in_a_row(l.take(7)) + l[7]);
    lemma_chars_add(in_a_row(l.take(7)), l[7]);
    assert(l.take(9).last() == l[8]);
    assert(in_a_row(l.take(9)) == in_a_row(l.take(8)) + l[8]);
    lemma_chars_add(in_a_row(l.take(8)), l[8]);
    assert(l.take(10).last() == l[9]);
    assert(in_a_row(l.take(10)) == in_a_row(l.take(9)) + l[9]);
    lemma_chars_add(in_a_row(l.take(9)), l[9]);
}

/// A document in JSON says of the machine what the file says, each under its own key.
pub proof fn law_json_says_what_the_file_says(info: FileInfo)
    ensures
        exists|text: Seq<char>| json::prologue(info) == #[trigger] chars(text) && {
            &&& json_says(text, "nodename"@, json::escaped(info.nodename@))
            &&& json_says(text, "sysname"@, json::escaped(info.sysname@))
            &&& json_says(text, "release"@, json::escaped(info.release@))
            &&& json_says(text, "machine"@, json::escaped(info.machine@))
            &&& json_counts(text, "number-of-cpus"@, info.cpu_count as int)
            &&& json_says(text, "file-date"@, info.file_date@)
            &&& json_says(text, "file-utc-time"@, info.file_utc_time@)
            &&& json_says(text, "timezone"@, json::escaped(info.tzname@))
        },
{
    let l = json_lines(info);
    let text = in_a_row(l);
    lemma_json_lines(info);
    lemma_text_line("nodename"@, json::escaped(info.nodename@));
    lemma_part_occurs(l, 1);
    lemma_deeper(
        seq!['"'] + "nodename"@ + "\": \""@ + json::escaped(info.nodename@) + seq!['"'],
        l[1],
        text,
    );
    lemma_text_line("sysname"@, json::escaped(info.sysname@));
    lemma_part_occurs(l, 2);
    lemma_deeper(
        seq!['"'] + "sysname"@ + "\": \""@ + json::escaped(info.sysname@) + seq!['"'],
        l[2],
        text,
    );
    lemma_text_line("release"@, json::escaped(info.release@));
    lemma_part_occurs(l, 3);
    lemma_deeper(
        seq!['"'] + "release"@ + "\": \""@ + json::escaped(info.release@) + seq!['"'],
        l[3],
        text,
    );
    lemma_text_line("machine"@, json::escaped(info.machine@));
    lemma_part_occurs(l, 4);
    lemma_deeper(
        seq!['"'] + "machine"@ + "\": \""@ + json::escaped(info.machine@) + seq!['"'],
        l[4],
        text,
    );
    let n = dec(info.cpu_count as nat);
    law_decimals_have_their_value(info.cpu_count as nat);
    lemma_part_occurs(l, 5);
    let count = seq!['"'] + "number-of-cpus"@ + "\": "@ + n;
    assert(amid("\t\t\t"@, count, ",\n"@) =~= l[5]) by {
        reveal_strlit("\t\t\t");
        reveal_strlit("number-of-cpus");
        reveal_strlit("\": ");
        reveal_strlit("\t\t\t\"number-of-cpus\": ");
    }
    lemma_deeper(count, l[5], text);
    assert(occurs(count, text) && decimal_value(n) == info.cpu_count);
    lemma_text_line("file-date"@, info.file_date@);
    lemma_part_occurs(l, 6);
    lemma_deeper(
        seq!['"'] + "file-date"@ + "\": \""@ + info.file_date@ + seq!['"'],
        l[6],
        text,
    );
    lemma_text_line("file-utc-time"@, info.file_utc_time@);
    lemma_part_occurs(l, 7);
    lemma_deeper(
        seq!['"'] + "file-utc-time"@ + "\": \""@ + info.file_utc_time@ + seq!['"'],
        l[7],
        text,
    );
    lemma_text_line("timezone"@, json::escaped(info.tzname@));
    lemma_part_occurs(l, 8);
    lemma_deeper(
        seq!['"'] + "timezone"@ + "\": \""@ + json::escaped(info.tzname@) + seq!['"'],
        l[8],
        text,
    );
}

/// The parts of the text before the samples in XML.
spec fn xml_parts(info: FileInfo) -> Seq<Seq<char>> {
    seq![
        "<?xml version=\"1.0\" encoding=\"UTF-8\"?>\n"@,
        "<sysstat\n"@,
        "xmlns=\"https://sysstat.github.io\"\n"@,
        "xmlns:xsi=\"http://www.w3.org/2001/XMLSchema-instance\"\n"@,
        "xsi:schemaLocation=\"https://sysstat.github.io https://sysstat.github.io/sysstat.xsd\">\n"@,
        "\t<sysdata-version>"@,
        xml::XML_DTD_VERSION@,
        "</sysdata-version>\n"@,
        "\t<host nodename=\""@,
        xml::escaped(info.nodename@),
        "\">\n"@,
        "\t\t<sysname>"@,
        xml::escaped(info.sysname@),
        "</sysname>\n"@,
        "\t\t<release>"@,
        xml::escaped(info.release@),
        "</release>\n"@,
        "\t\t<machine>"@,
        xml::escaped(info.machine@),
        "</machine>\n"@,
        "\t\t<number-of-cpus>"@,
        dec(info.cpu_count as nat),
        "</number-of-cpus>\n"@,
        "\t\t<file-date>"@,
        info.file_date@,
        "</file-date>\n"@,
        "\t\t<file-utc-time>"@,
        info.file_utc_time@,
        "</file-utc-time>\n"@,
        "\t\t<timezone>"@,
        xml::escaped(info.tzname@),
        "</timezone>\n"@,
        "\t\t<statistics>\n"@,
    ]
}

#[verifier::rlimit(60)]
proof fn lemma_xml_parts(info: FileInfo)
    ensures
        xml::prologue(info) == in_a_row(xml_parts(info)),
{
    let l = xml_parts(info);
    reveal_with_fuel(in_a_row, 2);
    assert(l.take(1).drop_last() =~= Seq::<Seq<char>>::empty());
    assert(in_a_row(l.take(1)) =~= l[0]);
    assert(l.take(2).drop_last() =~= l.take(1));
    assert(in_a_row(l.take(2)) == in_a_row(l.take(1)) + l[1]);
    assert(l.take(3).drop_last() =~= l.take(2));
    assert(in_a_row(l.take(3)) == in_a_row(l.take(2)) + l[2]);
    assert(l.take(4).drop_last() =~= l.take(3));
    assert(in_a_row(l.take(4)) == in_a_row(l.take(3)) + l[3]);
    assert(l.take(5).drop_last() =~= l.take(4));
    assert(in_a_row(l.take(5)) == in_a_row(l.take(4)) + l[4]);
    assert(l.take(6).drop_last() =~= l.take(5));
    assert(in_a_row(l.take(6)) == in_a_row(l.take(5)) + l[5]);
    assert(l.take(7).drop_last() =~= l.take(6));
    assert(in_a_row(l.take(7)) == in_a_row(l.take(6)) + l[6]);
    assert(l.take(8).drop_last() =~= l.take(7));
    assert(in_a_row(l.take(8)) == in_a_row(l.take(7)) + l[7]);
    assert(l.take(9).drop_last() =~= l.take(8));
    assert(in_a_row(l.take(9)) == in_a_row(l.take(8)) + l[8]);
    assert(l.take(10).drop_last() =~= l.take(9));
    assert(in_a_row(l.take(10)) == in_a_row(l.take(9)) + l[9]);
    assert(l.take(11).drop_last() =~= l.take(10));
    assert(in_a_row(l.take(11)) == in_a_row(l.take(10)) + l[10]);
    assert(l.take(12).drop_last() =~= l.take(11));
    assert(in_a_row(l.take(12)) == in_a_row(l.take(11)) + l[11]);
    assert(l.take(13).drop_last() =~= l.take(12));
    assert(in_a_row(l.take(13)) == in_a_row(l.take(12)) + l[12]);
    assert(l.take(14).drop_last() =~= l.take(13));
    assert(in_a_row(l.take(14)) == in_a_row(l.take(13)) + l[13]);
    assert(l.take(15).drop_last() =~= l.take(14));
    assert(in_a_row(l.take(15)) == in_a_row(l.take(14)) + l[14]);
    assert(l.take(16).drop_last() =~= l.take(15));
    assert(in_a_row(l.take(16)) == in_a_row(l.take(15)) + l[15]);
    assert(l.take(17).drop_last() =~= l.take(16));
    assert(in_a_row(l.take(17)) == in_a_row(l.take(16)) + l[16]);
    assert(l.take(18).drop_last() =~= l.take(17));
    assert(in_a_row(l.take(18)) == in_a_row(l.take(17)) + l[17]);
    assert(l.take(19).drop_last() =~= l.take(18));
    assert(in_a_row(l.take(19)) == in_a_row(l.take(18)) + l[18]);
    assert(l.take(20).drop_last() =~= l.take(19));
    assert(in_a_row(l.take(20)) == in_a_row(l.take(19)) + l[19]);
    assert(l.take(21).drop_last() =~= l.take(20));
    assert(in_a_row(l.take(21)) == in_a_row(l.take(20)) + l[20]);
    assert(l.take(22).drop_last() =~= l.take(21));
    assert(in_a_row(l.take(22)) == in_a_row(l.take(21)) + l[21]);
    assert(l.take(23).drop_last() =~= l.take(22));
    assert(in_a_row(l.take(23)) == in_a_row(l.take(22)) + l[22]);
    assert(l.take(24).drop_last() =~= l.take(23));
    assert(in_a_row(l.take(24)) == in_a_row(l.take(23)) + l[23]);
    assert(l.take(25).drop_last() =~= l.take(24));
    assert(in_a_row(l.take(25)) == in_a_row(l.take(24)) + l[24]);
    assert(l.take(26).drop_last() =~= l.take(25));
    assert(in_a_row(l.take(26)) == in_a_row(l.take(25)) + l[25]);
    assert(l.take(27).drop_last() =~= l.take(26));
    assert(in_a_row(l.take(27)) == in_a_row(l.take(26)) + l[26]);
    assert(l.take(28).drop_last() =~= l.take(27));
    assert(in_a_row(l.take(28)) == in_a_row(l.take(27)) + l[27]);
    assert(l.take(29).drop_last() =~= l.take(28));
    assert(in_a_row(l.take(29)) == in_a_row(l.take(28)) + l[28]);
    assert(l.take(30).drop_last() =~= l.take(29));
    assert(in_a_row(l.take(30)) == in_a_row(l.take(29)) + l[29]);
    assert(l.take(31).drop_last() =~= l.take(30));
    assert(in_a_row(l.take(31)) == in_a_row(l.take(30)) + l[30]);
    assert(l.take(32).drop_last() =~= l.take(31));
    assert(in_a_row(l.take(32)) == in_a_row(l.take(31)) + l[31]);
    assert(l.take(33).drop_last() =~= l.take(32));
    assert(in_a_row(l.take(33)) == in_a_row(l.take(32)) + l[32]);
    assert(l.take(33) =~= l);
}

pub(crate) proof fn lemma_three_occur(parts: Seq<Seq<char>>, k: int)
    requires
        0 <= k,
        k + 2 < parts.len(),
    ensures
        occurs(parts[k] + parts[k + 1] + parts[k + 2], in_a_row(parts)),
    decreases parts.len(),
{
    let whole = in_a_row(parts);
    let three = parts[k] + parts[k + 1] + parts[k + 2];
    let rest = parts.drop_last();
    if k + 3 == parts.len() {
        let a = rest.drop_last();
        assert(a.last() == parts[k]);
        assert(rest.last() == parts[k + 1]);
        assert(in_a_row(a) == in_a_row(a.drop_last()) + parts[k]);
        assert(in_a_row(rest) == in_a_row(a) + parts[k + 1]);
        assert(amid(in_a_row(a.drop_last()), three, Seq::empty()) =~= whole);
    } else {
        lemma_three_occur(rest, k);
        assert(rest[k] == parts[k] && rest[k + 1] == parts[k + 1] && rest[k + 2] == parts[k + 2]);
        let (x, y) = choose|x: Seq<char>, y: Seq<char>| #[trigger]
            amid(x, three, y) == in_a_row(rest);
        assert(amid(x, three, y + parts.last()) =~= whole);
    }
}

proof fn lemma_element_sysname(v: Seq<char>)
    ensures
        xml_says("\t\t<sysname>"@ + v + "</sysname>\n"@, "sysname"@, v),
{
    reveal_strlit("\t\t");
    reveal_strlit("\n");
    reveal_strlit("</");
    reveal_strlit("sysname");
    reveal_strlit("\t\t<sysname>");
    reveal_strlit("</sysname>\n");
    assert("\t\t<sysname>"@ =~= "\t\t"@ + (seq!['<'] + "sysname"@ + seq!['>']));
    assert("</sysname>\n"@ =~= ("</"@ + "sysname"@ + seq!['>']) + "\n"@);
    assert(amid(
        "\t\t"@,
        seq!['<'] + "sysname"@ + seq!['>'] + v + "</"@ + "sysname"@ + seq!['>'],
        "\n"@,
    ) =~= "\t\t<sysname>"@ + v + "</sysname>\n"@);
}

proof fn lemma_element_release(v: Seq<char>)
    ensures
        xml_says("\t\t<release>"@ + v + "</release>\n"@, "release"@, v),
{
    reveal_strlit("\t\t");
    reveal_strlit("\n");
    reveal_strlit("</");
    reveal_strlit("release");
    reveal_strlit("\t\t<release>");
    reveal_strlit("</release>\n");
    assert("\t\t<release>"@ =~= "\t\t"@ + (seq!['<'] + "release"@ + seq!['>']));
    assert("</release>\n"@ =~= ("</"@ + "release"@ + seq!['>']) + "\n"@);
    assert(amid(
        "\t\t"@,
        seq!['<'] + "release"@ + seq!['>'] + v + "</"@ + "release"@ + seq!['>'],
        "\n"@,
    ) =~= "\t\t<release>"@ + v + "</release>\n"@);
}

proof fn lemma_element_machine(v: Seq<char>)
    ensures
        xml_says("\t\t<machine>"@ + v + "</machine>\n"@, "machine"@, v),
{
    reveal_strlit("\t\t");
    reveal_strlit("\n");
    reveal_strlit("</");
    reveal_strlit("machine");
    reveal_strlit("\t\t<machine>");
    reveal_strlit("</machine>\n");
    assert("\t\t<machine>"@ =~= "\t\t"@ + (seq!['<'] + "machine"@ + seq!['>']));
    assert("</machine>\n"@ =~= ("</"@ + "machine"@ + seq!['>']) + "\n"@);
    assert(amid(
        "\t\t"@,
        seq!['<'] + "machine"@ + seq!['>'] + v + "</"@ + "machine"@ + seq!['>'],
        "\n"@,
    ) =~= "\t\t<machine>"@ + v + "</machine>\n"@);
}

proof fn lemma_element_number_of_cpus(v: Seq<char>)
    ensures
        xml_says("\t\t<number-of-cpus>"@ + v + "</number-of-cpus>\n"@, "number-of-cpus"@, v),
{
    reveal_strlit("\t\t");
    reveal_strlit("\n");
    reveal_strlit("</");
    reveal_strlit("number-of-cpus");
    reveal_strlit("\t\t<number-of-cpus>");
    reveal_strlit("</number-of-cpus>\n");
    assert("\t\t<number-of-cpus>"@ =~= "\t\t"@ + (seq!['<'] + "number-of-cpus"@ + seq!['>']));
    assert("</number-of-cpus>\n"@ =~= ("</"@ + "number-of-cpus"@ + seq!['>']) + "\n"@);
    assert(amid(
        "\t\t"@,
        seq!['<'] + "number-of-cpus"@ + seq!['>'] + v + "</"@ + "number-of-cpus"@ + seq!['>'],
        "\n"@,
    ) =~= "\t\t<number-of-cpus>"@ + v + "</number-of-cpus>\n"@);
}

proof fn lemma_element_file_date(v: Seq<char>)
    ensures
        xml_says("\t\t<file-date>"@ + v + "</file-date>\n"@, "file-date"@, v),
{
    reveal_strlit("\t\t");
    reveal_strlit("\n");
    reveal_strlit("</");
    reveal_strlit("file-date");
    reveal_strlit("\t\t<file-date>");
    reveal_strlit("</file-date>\n");
    assert("\t\t<file-date>"@ =~= "\t\t"@ + (seq!['<'] + "file-date"@ + seq!['>']));
    assert("</file-date>\n"@ =~= ("</"@ + "file-date"@ + seq!['>']) + "\n"@);
    assert(amid(
        "\t\t"@,
        seq!['<'] + "file-date"@ + seq!['>'] + v + "</"@ + "file-date"@ + seq!['>'],
        "\n"@,
    ) =~= "\t\t<file-date>"@ + v + "</file-date>\n"@);
}

proof fn lemma_element_file_utc_time(v: Seq<char>)
    ensures
        xml_says("\t\t<file-utc-time>"@ + v + "</file-utc-time>\n"@, "file-utc-time"@, v),
{
    reveal_strlit("\t\t");
    reveal_strlit("\n");
    reveal_strlit("</");
    reveal_strlit("file-utc-time");
    reveal_strlit("\t\t<file-utc-time>");
    reveal_strlit("</file-utc-time>\n");
    assert("\t\t<file-utc-time>"@ =~= "\t\t"@ + (seq!['<'] + "file-utc-time"@ + seq!['>']));
    assert("</file-utc-time>\n"@ =~= ("</"@ + "file-utc-time"@ + seq!['>']) + "\n"@);
    assert(amid(
        "\t\t"@,
        seq!['<'] + "file-utc-time"@ + seq!['>'] + v + "</"@ + "file-utc-time"@ + seq!['>'],
        "\n"@,
    ) =~= "\t\t<file-utc-time>"@ + v + "</file-utc-time>\n"@);
}

proof fn lemma_element_timezone(v: Seq<char>)
    ensures
        xml_says("\t\t<timezone>"@ + v + "</timezone>\n"@, "timezone"@, v),
{
    reveal_strlit("\t\t");
    reveal_strlit("\n");
    reveal_strlit("</");
    reveal_strlit("timezone");
    reveal_strlit("\t\t<timezone>");
    reveal_strlit("</timezone>\n");
    assert("\t\t<timezone>"@ =~= "\t\t"@ + (seq!['<'] + "timezone"@ + seq!['>']));
    assert("</timezone>\n"@ =~= ("</"@ + "timezone"@ + seq!['>']) + "\n"@);
    assert(amid(
        "\t\t"@,
        seq!['<'] + "timezone"@ + seq!['>'] + v + "</"@ + "timezone"@ + seq!['>'],
        "\n"@,
    ) =~= "\t\t<timezone>"@ + v + "</timezone>\n"@);
}

/// A document in XML says of the machine what the file says, each in its own element.
pub proof fn law_xml_says_what_the_file_says(info: FileInfo)
    ensures
        attribute_says(xml::prologue(info), "nodename"@, xml::escaped(info.nodename@)),
        xml_says(xml::prologue(info), "sysname"@, xml::escaped(info.sysname@)),
        xml_says(xml::prologue(info), "release"@, xml::escaped(info.release@)),
        xml_says(xml::prologue(info), "machine"@, xml::escaped(info.machine@)),
        xml_says(xml::prologue(info), "number-of-cpus"@, dec(info.cpu_count as nat)),
        xml_says(xml::prologue(info), "file-date"@, info.file_date@),
        xml_says(xml::prologue(info), "file-utc-time"@, info.file_utc_time@),
        xml_says(xml::prologue(info), "timezone"@, xml::escaped(info.tzname@)),
        decimal_value(dec(info.cpu_count as nat)) == info.cpu_count,
{
    let l = xml_parts(info);
    let text = in_a_row(l);
    lemma_xml_parts(info);
    law_decimals_have_their_value(info.cpu_count as nat);
    lemma_three_occur(l, 8);
    let node = seq![' '] + "nodename"@ + "=\""@ + xml::escaped(info.nodename@) + seq!['"'];
    assert(amid("\t<host"@, node, ">\n"@) =~= l[8] + l[9] + l[10]) by {
        reveal_strlit("\t<host");
        reveal_strlit("nodename");
        reveal_strlit("=\"");
        reveal_strlit(">\n");
        reveal_strlit("\t<host nodename=\"");
        reveal_strlit("\">\n");
    }
    lemma_deeper(node, l[8] + l[9] + l[10], text);
    lemma_three_occur(l, 11);
    lemma_element_sysname(xml::escaped(info.sysname@));
    lemma_deeper(
        seq!['<'] + "sysname"@ + seq!['>'] + xml::escaped(info.sysname@) + "</"@ + "sysname"@ + seq!['>'],
        l[11] + l[12] + l[13],
        text,
    );
    lemma_three_occur(l, 14);
    lemma_element_release(xml::escaped(info.release@));
    lemma_deeper(
        seq!['<'] + "release"@ + seq!['>'] + xml::escaped(info.release@) + "</"@ + "release"@ + seq!['>'],
        l[14] + l[15] + l[16],
        text,
    );
    lemma_three_occur(l, 17);
    lemma_element_machine(xml::escaped(info.machine@));
    lemma_deeper(
        seq!['<'] + "machine"@ + seq!['>'] + xml::escaped(info.machine@) + "</"@ + "machine"@ + seq!['>'],
        l[17] + l[18] + l[19],
        text,
    );
    lemma_three_occur(l, 20);
    lemma_element_number_of_cpus(dec(info.cpu_count as nat));
    lemma_deeper(
        seq!['<'] + "number-of-cpus"@ + seq!['>'] + dec(info.cpu_count as nat) + "</"@ + "number-of-cpus"@ + seq!['>'],
        l[20] + l[21] + l[22],
        text,
    );
    lemma_three_occur(l, 23);
    lemma_element_file_date(info.file_date@);
    lemma_deeper(
        seq!['<'] + "file-date"@ + seq!['>'] + info.file_date@ + "</"@ + "file-date"@ + seq!['>'],
        l[23] + l[24] + l[25],
        text,
    );
    lemma_three_occur(l, 26);
    lemma_element_file_utc_time(info.file_utc_time@);
    lemma_deeper(
        seq!['<'] + "file-utc-time"@ + seq!['>'] + info.file_utc_time@ + "</"@ + "file-utc-time"@ + seq!['>'],
        l[26] + l[27] + l[28],
        text,
    );
    lemma_three_occur(l, 29);
    lemma_element_timezone(xml::escaped(info.tzname@));
    lemma_deeper(
        seq!['<'] + "timezone"@ + seq!['>'] + xml::escaped(info.tzname@) + "</"@ + "timezone"@ + seq!['>'],
        l[29] + l[30] + l[31],
        text,
    );
}

/// The entry of a restart in JSON says when it happened and how many CPUs there were, and that of
/// a comment when it was made and what it says.
pub proof fn law_json_entries_say_what_happened(
    cfg: SadfConfig,
    info: FileInfo,
    recs: Seq<Rec>,
    e: RestartEntry,
    at: usize,
)
    requires
        e.rec < recs.len(),
        at < recs.len(),
    ensures
        ({
            let boot = json::boot_text(cfg, info, recs, e);
            let s = stamp_of(cfg.time_base, recs[e.rec as int].time, info);
            &&& json_says(boot, "date"@, s.date)
            &&& json_says(boot, "time"@, s.time)
            &&& json_says(boot, "tz"@, json::escaped(s.tz))
            &&& json_counts(boot, "cpu_count"@, cpu_count(e.cpu_nr) as int)
            &&& occurs("\"boot\": {"@, boot)
        }),
        ({
            let remark = json::comment_entry(cfg, info, recs, at);
            let s = stamp_of(cfg.time_base, recs[at as int].time, info);
            &&& json_says(remark, "date"@, s.date)
            &&& json_says(remark, "time"@, s.time)
            &&& json_says(remark, "tz"@, json::escaped(s.tz))
            &&& json_says(remark, "com"@, json::escaped(comment_of(recs[at as int])))
            &&& occurs("\"comment\": {"@, remark)
        }),
{
    lemma_boot(cfg, info, recs, e);
    lemma_remark(cfg, info, recs, at);
}

proof fn lemma_regrouped(
    start: Seq<char>,
    key: Seq<char>,
    value: Seq<char>,
    end: Seq<char>,
    k1: Seq<char>,
    k2: Seq<char>,
)
    requires
        start.len() > 0,
        start.last() == '"',
        key == k1 + k2,
    ensures
        occurs(seq!['"'] + k1 + k2 + value, start + key + value + end),
{
    assert(amid(start.drop_last(), seq!['"'] + k1 + k2 + value, end) =~= start + key + value + end);
}

proof fn lemma_boot(cfg: SadfConfig, info: FileInfo, recs: Seq<Rec>, e: RestartEntry)
    requires
        e.rec < recs.len(),
    ensures
        ({
            let boot = json::boot_text(cfg, info, recs, e);
            let s = stamp_of(cfg.time_base, recs[e.rec as int].time, info);
            &&& json_says(boot, "date"@, s.date)
            &&& json_says(boot, "time"@, s.time)
            &&& json_says(boot, "tz"@, json::escaped(s.tz))
            &&& json_counts(boot, "cpu_count"@, cpu_count(e.cpu_nr) as int)
            &&& occurs("\"boot\": {"@, boot)
        }),
{
    let t = recs[e.rec as int].time;
    let boot = json::boot_text(cfg, info, recs, e);
    let n = dec(cpu_count(e.cpu_nr) as nat);
    law_decimals_have_their_value(cpu_count(e.cpu_nr) as nat);
    let start = json::event_text(cfg, info, t, "boot"@);
    assert(occurs(start, boot)) by {
        assert(amid(Seq::empty(), start, "cpu_count\": "@ + n + "}\n\t\t\t\t}"@) =~= boot);
    }
    lemma_event_within(cfg, info, t, "boot"@, boot);
    lemma_last_quote(cfg, info, t, "boot"@);
    assert("cpu_count\": "@ =~= "cpu_count"@ + "\": "@) by {
        reveal_strlit("cpu_count");
        reveal_strlit("\": ");
        reveal_strlit("cpu_count\": ");
    }
    lemma_regrouped(start, "cpu_count\": "@, n, "}\n\t\t\t\t}"@, "cpu_count"@, "\": "@);
    assert(occurs(seq!['"'] + "cpu_count"@ + "\": "@ + n, boot) && decimal_value(n) == cpu_count(
        e.cpu_nr,
    ));
    assert("\"boot\": {"@ =~= seq!['"'] + "boot"@ + "\": {"@) by {
        reveal_strlit("\"boot\": {");
        reveal_strlit("boot");
        reveal_strlit("\": {");
    }
}

proof fn lemma_remark(cfg: SadfConfig, info: FileInfo, recs: Seq<Rec>, at: usize)
    requires
        at < recs.len(),
    ensures
        ({
            let remark = json::comment_entry(cfg, info, recs, at);
            let s = stamp_of(cfg.time_base, recs[at as int].time, info);
            &&& json_says(remark, "date"@, s.date)
            &&& json_says(remark, "time"@, s.time)
            &&& json_says(remark, "tz"@, json::escaped(s.tz))
            &&& json_says(remark, "com"@, json::escaped(comment_of(recs[at as int])))
            &&& occurs("\"comment\": {"@, remark)
        }),
{
    let t = recs[at as int].time;
    let remark = json::comment_entry(cfg, info, recs, at);
    let start = json::event_text(cfg, info, t, "comment"@);
    let c = json::escaped(comment_of(recs[at as int]));
    let end = "\"}\n\t\t\t\t}"@;
    assert(occurs(start, remark)) by {
        assert(amid(Seq::empty(), start, "com\": \""@ + c + end) =~= remark);
    }
    lemma_event_within(cfg, info, t, "comment"@, remark);
    lemma_last_quote(cfg, info, t, "comment"@);
    assert("com\": \""@ =~= "com"@ + "\": \""@) by {
        reveal_strlit("com");
        reveal_strlit("\": \"");
        reveal_strlit("com\": \"");
    }
    assert(end.len() > 0 && end[0] == '"') by {
        reveal_strlit("\"}\n\t\t\t\t}");
    }
    lemma_regrouped(
        start,
        "com\": \""@,
        c + seq!['"'],
        end.drop_first(),
        "com"@,
        "\": \""@,
    );
    assert(end =~= seq!['"'] + end.drop_first());
    assert(remark =~= start + "com\": \""@ + (c + seq!['"']) + end.drop_first());
    assert(seq!['"'] + "com"@ + "\": \""@ + (c + seq!['"']) =~= seq!['"'] + "com"@ + "\": \""@ + c
        + seq!['"']);
    assert("\"comment\": {"@ =~= seq!['"'] + "comment"@ + "\": {"@) by {
        reveal_strlit("\"comment\": {");
        reveal_strlit("comment");
        reveal_strlit("\": {");
    }
}

proof fn lemma_last_quote(cfg: SadfConfig, info: FileInfo, t: RecordTime, key: Seq<char>)
    ensures
        json::event_text(cfg, info, t, key).len() > 0,
        json::event_text(cfg, info, t, key).last() == '"',
{
    reveal_strlit("\", \"");
}

proof fn lemma_event_says(cfg: SadfConfig, info: FileInfo, t: RecordTime, key: Seq<char>)
    ensures
        ({
            let s = stamp_of(cfg.time_base, t, info);
            let text = json::event_text(cfg, info, t, key);
            &&& json_says(text, "date"@, s.date)
            &&& json_says(text, "time"@, s.time)
            &&& json_says(text, "tz"@, json::escaped(s.tz))
            &&& occurs(seq!['"'] + key + "\": {"@, text)
        }),
{
    let s = stamp_of(cfg.time_base, t, info);
    let z = json::escaped(s.tz);
    let text = json::event_text(cfg, info, t, key);
    let a = "\t\t\t\t{\n\t\t\t\t\t\""@;
    let b = "\": {\"date\": \""@;
    let c = "\", \"time\": \""@;
    let d = "\", \"tz\": \""@;
    let f = "\", \""@;
    reveal_strlit("\t\t\t\t{\n\t\t\t\t\t\"");
    reveal_strlit("\": {\"date\": \"");
    reveal_strlit("\", \"time\": \"");
    reveal_strlit("\", \"tz\": \"");
    reveal_strlit("\", \"");
    reveal_strlit("date");
    reveal_strlit("time");
    reveal_strlit("tz");
    reveal_strlit("\": \"");
    reveal_strlit("\": {");
    assert(a =~= a.drop_last() + seq!['"']);
    assert(b =~= "\": {"@ + (seq!['"'] + "date"@ + "\": \""@));
    assert(c =~= seq!['"', ',', ' '] + (seq!['"'] + "time"@ + "\": \""@));
    assert(d =~= seq!['"', ',', ' '] + (seq!['"'] + "tz"@ + "\": \""@));
    assert(c =~= seq!['"'] + c.drop_first());
    assert(d =~= seq!['"'] + d.drop_first());
    assert(f =~= seq!['"'] + f.drop_first());
    lemma_event_parts(
        a,
        key,
        b,
        s.date,
        c,
        s.time,
        d,
        z,
        f,
        "\": {"@,
        seq!['"'] + "date"@ + "\": \""@,
        seq!['"', ',', ' '],
        seq!['"'] + "time"@ + "\": \""@,
        seq!['"'] + "tz"@ + "\": \""@,
    );
}

proof fn lemma_event_parts(
    a: Seq<char>,
    key: Seq<char>,
    b: Seq<char>,
    date: Seq<char>,
    c: Seq<char>,
    time: Seq<char>,
    d: Seq<char>,
    z: Seq<char>,
    f: Seq<char>,
    brace: Seq<char>,
    kd: Seq<char>,
    sep: Seq<char>,
    kt: Seq<char>,
    kz: Seq<char>,
)
    requires
        a == a.drop_last() + seq!['"'],
        b == brace + kd,
        c == sep + kt,
        d == sep + kz,
        c == seq!['"'] + c.drop_first(),
        d == seq!['"'] + d.drop_first(),
        f == seq!['"'] + f.drop_first(),
    ensures
        ({
            let text = a + key + b + date + c + time + d + z + f;
            &&& occurs(kd + date + seq!['"'], text)
            &&& occurs(kt + time + seq!['"'], text)
            &&& occurs(kz + z + seq!['"'], text)
            &&& occurs(seq!['"'] + key + brace, text)
        }),
{
    let text = a + key + b + date + c + time + d + z + f;
    assert(amid(a.drop_last(), seq!['"'] + key + brace, kd + date + c + time + d + z + f) =~= text);
    assert(amid(a + key + brace, kd + date + seq!['"'], c.drop_first() + time + d + z + f) =~= text);
    assert(amid(
        a + key + b + date + sep,
        kt + time + seq!['"'],
        d.drop_first() + z + f,
    ) =~= text);
    assert(amid(a + key + b + date + c + time + sep, kz + z + seq!['"'], f.drop_first()) =~= text);
}

proof fn lemma_event_within(
    cfg: SadfConfig,
    info: FileInfo,
    t: RecordTime,
    key: Seq<char>,
    whole: Seq<char>,
)
    requires
        occurs(json::event_text(cfg, info, t, key), whole),
    ensures
        ({
            let s = stamp_of(cfg.time_base, t, info);
            &&& json_says(whole, "date"@, s.date)
            &&& json_says(whole, "time"@, s.time)
            &&& json_says(whole, "tz"@, json::escaped(s.tz))
            &&& occurs(seq!['"'] + key + "\": {"@, whole)
        }),
{
    let s = stamp_of(cfg.time_base, t, info);
    let z = json::escaped(s.tz);
    let text = json::event_text(cfg, info, t, key);
    lemma_event_says(cfg, info, t, key);
    lemma_deeper(seq!['"'] + "date"@ + "\": \""@ + s.date + seq!['"'], text, whole);
    lemma_deeper(seq!['"'] + "time"@ + "\": \""@ + s.time + seq!['"'], text, whole);
    lemma_deeper(seq!['"'] + "tz"@ + "\": \""@ + z + seq!['"'], text, whole);
    lemma_deeper(seq!['"'] + key + "\": {"@, text, whole);
}

}
