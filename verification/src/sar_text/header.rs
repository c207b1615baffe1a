//! The lines of a report that hold no values: headings, the banner, restarts and comments.

use vstd::prelude::*;

use crate::clock::{format_time, has_date, time_text, utc_civil, utc_date_of, RecordTime};
use crate::model::as_signed;
use crate::sar_text::options::TimeStyle;
use crate::text::{
    cut, dec, dec_fill, dec_filled, dec_text, find, find_char, left_padded, pad_left, pad_right, printable_text, push_char, right_padded, sanitize, split, split_text,
    texts,
};

verus! {

/// The width of a value column.
pub const VALUE_WIDTH: usize = 9;

/// The width of the timestamp column.
pub const STAMP_WIDTH: usize = 11;

/// The width of the column for a manufacturer.
pub const MANUFACTURER_WIDTH: usize = 23;

/// A heading that a `*` stands for.
#[derive(Clone, Copy, PartialEq, Eq, Structural, Debug)]
pub enum StarLabel {
    /// All CPUs together.
    Aggregate,
    /// One CPU.
    Index(usize),
}

/// A column of the usual width: a space and the right-aligned text.
pub open spec fn column(s: Seq<char>) -> Seq<char> {
    seq![' '] + left_padded(s, VALUE_WIDTH as nat)
}

/// The columns of a section of a heading. What follows `&` are columns that only the long
/// form of a report has.
pub open spec fn section_columns(section: Seq<char>, ext: bool) -> Seq<char> {
    let i = find(section, '&');
    if i >= section.len() {
        section
    } else if ext {
        section.update(i, ';')
    } else {
        section.take(i)
    }
}

/// Whether a token stands for a heading of each CPU.
pub open spec fn has_star(token: Seq<char>) -> bool {
    find(token, '*') < token.len()
}

/// The heading of one CPU.
pub open spec fn star_text(token: Seq<char>, label: StarLabel) -> Seq<char> {
    let i = find(token, '*');
    match label {
        StarLabel::Aggregate => "all"@,
        StarLabel::Index(n) => token.take(i) + dec(n as nat) + token.skip(i + 1),
    }
}

/// The headings that a token with a `*` stands for.
pub open spec fn star_columns(token: Seq<char>, labels: Seq<StarLabel>) -> Seq<char>
    decreases labels.len(),
{
    if labels.len() == 0 {
        Seq::empty()
    } else {
        star_columns(token, labels.drop_last()) + column(star_text(token, labels.last()))
    }
}

/// Whether one of the first `k` tokens is a heading of its own.
pub open spec fn plain_before(tokens: Seq<Seq<char>>, k: int) -> bool {
    exists|j: int| 0 <= j < k && !#[trigger] has_star(tokens[j])
}

/// The heading of the token `k`. A positive `iwidth` is the width of the first heading; with a
/// negative one, the heading with that number, counted from 1, stands at the end of the line.
pub open spec fn token_column(
    tokens: Seq<Seq<char>>,
    k: int,
    iwidth: int,
    labels: Seq<StarLabel>,
) -> Seq<char> {
    if has_star(tokens[k]) {
        star_columns(tokens[k], labels)
    } else if iwidth > 0 && !plain_before(tokens, k) {
        seq![' '] + left_padded(tokens[k], iwidth as nat)
    } else if k == -iwidth - 1 {
        Seq::empty()
    } else {
        column(tokens[k])
    }
}

/// The headings of the first `n` tokens.
pub open spec fn token_columns(
    tokens: Seq<Seq<char>>,
    n: int,
    iwidth: int,
    labels: Seq<StarLabel>,
) -> Seq<char>
    decreases n,
{
    if n <= 0 {
        Seq::empty()
    } else {
        token_columns(tokens, n - 1, iwidth, labels) + token_column(tokens, n - 1, iwidth, labels)
    }
}

/// The heading that stands at the end of the line.
pub open spec fn moved_column(tokens: Seq<Seq<char>>, iwidth: int) -> Seq<char> {
    let k = -iwidth - 1;
    if iwidth < 0 && k < tokens.len() && !has_star(tokens[k]) {
        seq![' '] + tokens[k]
    } else {
        Seq::empty()
    }
}

/// A line of headings, after an empty line. Nothing where there is no section `pos`.
pub open spec fn header_text(
    timestamp: Seq<char>,
    hdr_line: Seq<char>,
    pos: int,
    iwidth: int,
    ext: bool,
    labels: Seq<StarLabel>,
) -> Seq<char> {
    let sections = split(hdr_line, '|');
    if pos >= sections.len() {
        Seq::empty()
    } else {
        let tokens = split(section_columns(sections[pos], ext), ';');
        seq!['\n'] + right_padded(timestamp, STAMP_WIDTH as nat) + token_columns(
            tokens,
            tokens.len() as int,
            iwidth,
            labels,
        ) + moved_column(tokens, iwidth) + seq!['\n']
    }
}

fn push_column(out: &mut String, s: &str)
    ensures
        final(out)@ == old(out)@ + column(s@),
{
    let ghost before = out@;
    push_char(out, ' ');
    out.append(pad_left(s, VALUE_WIDTH).as_str());
    assert(out@ == before + column(s@));
}

fn push_star_columns(out: &mut String, token: &str, star: usize, labels: &Vec<StarLabel>)
    requires
        star == find(token@, '*'),
        star < token@.len(),
    ensures
        final(out)@ == old(out)@ + star_columns(token@, labels@),
{
    let n: usize = token.unicode_len();
    let prefix = cut(token, 0, star);
    let suffix = cut(token, star + 1, n);
    let ghost before = out@;
    let mut k: usize = 0;
    proof {
        assert(labels@.take(0) == Seq::<StarLabel>::empty());
        assert(out@ == before + star_columns(token@, labels@.take(0)));
        assert(prefix@ == token@.take(star as int));
        assert(suffix@ == token@.skip(star + 1));
    }
    while k < labels.len()
        invariant
            k <= labels.len(),
            star == find(token@, '*'),
            prefix@ == token@.take(star as int),
            suffix@ == token@.skip(star + 1),
            out@ == before + star_columns(token@, labels@.take(k as int)),
        decreases labels.len() - k,
    {
        let text = match labels[k] {
            StarLabel::Aggregate => "all".to_owned(),
            StarLabel::Index(c) => {
                let mut t = prefix.clone();
                t.append(dec_text(c as u64).as_str());
                t.append(suffix.as_str());
                t
            },
        };
        proof {
            assert(labels@.take(k + 1).drop_last() == labels@.take(k as int));
            assert(text@ == star_text(token@, labels@[k as int]));
        }
        push_column(out, text.as_str());
        k = k + 1;
        assert(out@ == before + star_columns(token@, labels@.take(k as int)));
    }
    assert(labels@.take(labels@.len() as int) == labels@);
}

/// A line of headings, after an empty line. Nothing where there is no section `pos`.
pub fn header_line(
    timestamp: &str,
    hdr_line: &str,
    pos: usize,
    iwidth: i32,
    ext: bool,
    star_labels: &Vec<StarLabel>,
) -> (r: String)
    ensures
        r@ == header_text(
            timestamp@,
            hdr_line@,
            pos as int,
            iwidth as int,
            ext,
            star_labels@,
        ),
{
    let sections = split_text(hdr_line, '|');
    assert(sections@.len() == texts(sections@).len());
    if pos >= sections.len() {
        return String::new();
    }
    let section = sections[pos].as_str();
    assert(section@ == texts(sections@)[pos as int]);
    let n: usize = section.unicode_len();
    let amp: usize = find_char(section, '&');
    let body: String = if amp >= n {
        section.to_owned()
    } else if ext {
        let mut b = cut(section, 0, amp);
        push_char(&mut b, ';');
        b.append(cut(section, amp + 1, n).as_str());
        assert(b@ == section@.update(amp as int, ';'));
        b
    } else {
        cut(section, 0, amp)
    };
    assert(body@ == section_columns(section@, ext));
    let parts = split_text(body.as_str(), ';');
    let ghost tokens = split(body@, ';');
    assert(texts(parts@) == tokens);

    let mut out = String::new();
    push_char(&mut out, '\n');
    out.append(pad_right(timestamp, STAMP_WIDTH).as_str());
    let ghost lead = out@;
    let mut seen_plain = false;
    let mut k: usize = 0;
    assert(out@ == lead + token_columns(tokens, 0, iwidth as int, star_labels@));
    while k < parts.len()
        invariant
            k <= parts.len(),
            texts(parts@) == tokens,
            tokens.len() == parts@.len(),
            seen_plain == plain_before(tokens, k as int),
            out@ == lead + token_columns(tokens, k as int, iwidth as int, star_labels@),
        decreases parts.len() - k,
    {
        let token = parts[k].as_str();
        assert(token@ == tokens[k as int]);
        let ghost before = out@;
        let star: usize = find_char(token, '*');
        let len: usize = token.unicode_len();
        if star < len {
            push_star_columns(&mut out, token, star, star_labels);
        } else if iwidth > 0 && !seen_plain {
            push_char(&mut out, ' ');
            out.append(pad_left(token, iwidth as usize).as_str());
            assert(out@ == before + (seq![' '] + left_padded(token@, iwidth as nat)));
        } else if k as i128 == -(iwidth as i128) - 1 {
            assert(out@ == before + Seq::<char>::empty());
        } else {
            push_column(&mut out, token);
        }
        proof {
            assert(out@ == before + token_column(tokens, k as int, iwidth as int, star_labels@));
            assert(out@ == lead + token_columns(tokens, k + 1, iwidth as int, star_labels@));
            if star >= len {
                assert(!has_star(tokens[k as int]));
            }
            if plain_before(tokens, k + 1) && star < len {
                let j = choose|j: int| 0 <= j < k + 1 && !#[trigger] has_star(tokens[j]);
                assert(j != k);
            }
        }
        seen_plain = seen_plain || star >= len;
        k = k + 1;
    }
    let ghost body_out = out@;
    if iwidth < 0 {
        let m: i64 = -(iwidth as i64) - 1;
        if (m as u64) < parts.len() as u64 {
            let t = parts[m as usize].as_str();
            assert(t@ == tokens[m as int]);
            let star: usize = find_char(t, '*');
            if star >= t.unicode_len() {
                push_char(&mut out, ' ');
                out.append(t);
            }
        }
    }
    assert(out@ == body_out + moved_column(tokens, iwidth as int));
    push_char(&mut out, '\n');
    out
}

/// The heading of the USB devices.
pub open spec fn usb_header_text(timestamp: Seq<char>) -> Seq<char> {
    seq!['\n'] + right_padded(timestamp, STAMP_WIDTH as nat)
        + "     BUS  idvendor    idprod  maxpower "@ + right_padded(
        "manufact"@,
        MANUFACTURER_WIDTH as nat,
    ) + " product\n"@
}

/// The heading of the USB devices.
pub fn usb_header_line(timestamp: &str) -> (r: String)
    ensures
        r@ == usb_header_text(timestamp@),
{
    let mut out = String::new();
    push_char(&mut out, '\n');
    out.append(pad_right(timestamp, STAMP_WIDTH).as_str());
    out.append("     BUS  idvendor    idprod  maxpower ");
    out.append(pad_right("manufact", MANUFACTURER_WIDTH).as_str());
    out.append(" product\n");
    out
}

/// The number of CPUs: one less than the file counts, as it counts the line for all of them
/// too, and at least 1.
pub open spec fn cpu_count(sa_cpu_nr: Option<u32>) -> u32 {
    match sa_cpu_nr {
        Some(n) => if n > 1 {
            (n - 1) as u32
        } else {
            1
        },
        None => 1,
    }
}

/// The number of CPUs.
pub fn real_cpu_count(sa_cpu_nr: Option<u32>) -> (r: u32)
    ensures
        r == cpu_count(sa_cpu_nr),
{
    match sa_cpu_nr {
        Some(n) => if n > 1 {
            n - 1
        } else {
            1
        },
        None => 1,
    }
}

/// The count of the record where it has one, else that of the file.
pub open spec fn cpu_nr_of(record: Option<u32>, file_cpu_nr: Option<u32>) -> Option<u32> {
    match record {
        Some(_) => record,
        None => file_cpu_nr,
    }
}

/// The number of CPUs after a restart.
pub fn restart_cpu_count(record: Option<u32>, file_cpu_nr: Option<u32>) -> (r: u32)
    ensures
        r == cpu_count(cpu_nr_of(record, file_cpu_nr)),
{
    match record {
        Some(_) => real_cpu_count(record),
        None => real_cpu_count(file_cpu_nr),
    }
}

/// The identity of the machine and the day of the file.
#[derive(Clone, Debug)]
pub struct FileHeader {
    pub sysname: String,
    pub release: String,
    pub nodename: String,
    pub machine: String,
    /// When the file was created. The recorded date is that of the machine.
    pub created: RecordTime,
    pub year: i32,
    pub month: u8,
    pub day: u8,
    /// The number of CPUs, plus one.
    pub cpu_nr: Option<u32>,
    /// The name of the machine's time zone, where the file holds it.
    pub tzname: Option<String>,
}

/// `MM/DD/YY`.
pub open spec fn short_date(year: int, month: int, day: int) -> Seq<char> {
    dec_filled(month as nat, 2) + seq!['/'] + dec_filled(day as nat, 2) + seq!['/'] + dec_filled(
        (year % 100) as nat,
        2,
    )
}

/// `MM/DD/YY`.
pub fn report_date(year: i32, month: u8, day: u8) -> (r: String)
    ensures
        r@ == short_date(year as int, month as int, day as int),
{
    let y: u64 = (year as i64 + 2_147_483_700) as u64;
    assert(y as int % 100 == year as int % 100);
    let mut out = dec_fill(month as u64, 2);
    push_char(&mut out, '/');
    out.append(dec_fill(day as u64, 2).as_str());
    push_char(&mut out, '/');
    out.append(dec_fill(y % 100, 2).as_str());
    out
}

/// The day of the banner: that of the creation time, except where the recorded times are
/// shown. There, and where the creation time has no date, it is the day in the file.
pub open spec fn banner_day(h: FileHeader, style: TimeStyle) -> Seq<char> {
    let recorded = short_date(h.year as int, h.month as int, h.day as int);
    match style {
        TimeStyle::Recorded => recorded,
        TimeStyle::Local => if has_date(as_signed(h.created.ust_time)) {
            let c = h.created.local;
            short_date(c.year as int, c.month as u8 as int, c.day as u8 as int)
        } else {
            recorded
        },
        _ => if has_date(as_signed(h.created.ust_time)) {
            let c = utc_civil(h.created.ust_time);
            short_date(c.year as int, c.month as u8 as int, c.day as u8 as int)
        } else {
            recorded
        },
    }
}

/// The day of the banner.
pub fn banner_date(h: &FileHeader, style: TimeStyle) -> (r: String)
    ensures
        r@ == banner_day(*h, style),
{
    match style {
        TimeStyle::Recorded => report_date(h.year, h.month, h.day),
        TimeStyle::Local => match utc_date_of(h.created.ust_time) {
            Some(_) => {
                let c = h.created.local;
                report_date(c.year, c.month as u8, c.day as u8)
            },
            None => report_date(h.year, h.month, h.day),
        },
        _ => match utc_date_of(h.created.ust_time) {
            Some(c) => report_date(c.year, c.month as u8, c.day as u8),
            None => report_date(h.year, h.month, h.day),
        },
    }
}

/// The first line of a report.
pub open spec fn banner_text(h: FileHeader, style: TimeStyle) -> Seq<char> {
    h.sysname@ + " "@ + h.release@ + " ("@ + h.nodename@ + ") \t"@ + banner_day(h, style)
        + " \t_"@ + h.machine@ + "_\t("@ + dec(cpu_count(h.cpu_nr) as nat) + " CPU)\n"@
}

/// The first line of a report.
pub fn write_banner(h: &FileHeader, style: TimeStyle) -> (r: String)
    ensures
        r@ == banner_text(*h, style),
{
    let mut out = h.sysname.clone();
    out.append(" ");
    out.append(h.release.as_str());
    out.append(" (");
    out.append(h.nodename.as_str());
    out.append(") \t");
    out.append(banner_date(h, style).as_str());
    out.append(" \t_");
    out.append(h.machine.as_str());
    out.append("_\t(");
    out.append(dec_text(real_cpu_count(h.cpu_nr) as u64).as_str());
    out.append(" CPU)\n");
    out
}

/// The line of a restart, after an empty line.
pub open spec fn restart_text(timestamp: Seq<char>, cpu_nr: u32) -> Seq<char> {
    seq!['\n'] + right_padded(timestamp, STAMP_WIDTH as nat) + "  LINUX RESTART\t("@ + dec(
        cpu_nr as nat,
    ) + " CPU)\n"@
}

/// The line of a restart, after an empty line.
pub fn restart_line(timestamp: &str, cpu_nr: u32) -> (r: String)
    ensures
        r@ == restart_text(timestamp@, cpu_nr),
{
    let mut out = String::new();
    push_char(&mut out, '\n');
    out.append(pad_right(timestamp, STAMP_WIDTH).as_str());
    out.append("  LINUX RESTART\t(");
    out.append(dec_text(cpu_nr as u64).as_str());
    out.append(" CPU)\n");
    out
}

/// The line of a comment.
pub open spec fn comment_text(timestamp: Seq<char>, text: Seq<char>) -> Seq<char> {
    right_padded(timestamp, STAMP_WIDTH as nat) + "  COM "@ + printable_text(text) + "\n"@
}

/// The line of a comment.
pub fn comment_line(timestamp: &str, text: &str) -> (r: String)
    ensures
        r@ == comment_text(timestamp@, text@),
{
    let mut out = pad_right(timestamp, STAMP_WIDTH);
    out.append("  COM ");
    out.append(sanitize(text).as_str());
    out.append("\n");
    out
}

/// Appends the line of a restart.
pub fn write_restart(out: &mut String, timestamp: &str, cpu_nr: u32)
    ensures
        final(out)@ == old(out)@ + restart_text(timestamp@, cpu_nr),
{
    out.append(restart_line(timestamp, cpu_nr).as_str());
}

/// Appends the line of a comment.
pub fn write_comment(out: &mut String, timestamp: &str, text: &str)
    ensures
        final(out)@ == old(out)@ + comment_text(timestamp@, text@),
{
    out.append(comment_line(timestamp, text).as_str());
}

/// The timestamp of a record. Where the time has no date, it is the recorded time of day.
pub open spec fn stamp_text(t: RecordTime, style: TimeStyle) -> Seq<char> {
    let recorded = time_text(t.hour as int, t.minute as int, t.second as int);
    match style {
        TimeStyle::Recorded => recorded,
        TimeStyle::Epoch => dec(t.ust_time as nat),
        TimeStyle::Utc => if has_date(as_signed(t.ust_time)) {
            let c = utc_civil(t.ust_time);
            time_text(c.hour as int, c.minute as int, c.second as int)
        } else {
            recorded
        },
        TimeStyle::Local => if has_date(as_signed(t.ust_time)) {
            time_text(t.local.hour as int, t.local.minute as int, t.local.second as int)
        } else {
            recorded
        },
    }
}

/// The timestamp of a record.
pub fn time_string(t: &RecordTime, style: TimeStyle) -> (r: String)
    ensures
        r@ == stamp_text(*t, style),
{
    match style {
        TimeStyle::Recorded => format_time(t.hour as u32, t.minute as u32, t.second as u32),
        TimeStyle::Epoch => dec_text(t.ust_time),
        TimeStyle::Utc => match utc_date_of(t.ust_time) {
            Some(c) => format_time(c.hour, c.minute, c.second),
            None => format_time(t.hour as u32, t.minute as u32, t.second as u32),
        },
        TimeStyle::Local => match utc_date_of(t.ust_time) {
            Some(_) => format_time(t.local.hour, t.local.minute, t.local.second),
            None => format_time(t.hour as u32, t.minute as u32, t.second as u32),
        },
    }
}

/// Whether a heading fits a column of the usual width.
pub open spec fn fits_column(token: Seq<char>) -> bool {
    token.len() <= VALUE_WIDTH && vstd::utf8::is_ascii_chars(token) && !has_star(token)
}

/// Each heading of the usual width takes ten columns, as a value does, so that headings and
/// values stand below one another. The heading that is moved to the end of the line takes none
/// of them.
pub proof fn law_headings_take_ten_columns(
    tokens: Seq<Seq<char>>,
    n: int,
    iwidth: int,
    labels: Seq<StarLabel>,
)
    requires
        0 <= n <= tokens.len(),
        iwidth <= 0,
        forall|k: int| 0 <= k < n ==> fits_column(#[trigger] tokens[k]),
    ensures
        token_columns(tokens, n, iwidth, labels).len() == 10 * if 1 <= -iwidth <= n {
            n - 1
        } else {
            n
        },
    decreases n,
{
    if n > 0 {
        law_headings_take_ten_columns(tokens, n - 1, iwidth, labels);
        assert(fits_column(tokens[n - 1]));
        vstd::utf8::is_ascii_chars_encode_utf8(tokens[n - 1]);
    }
}

}
