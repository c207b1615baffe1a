//! The description of a file.

use vstd::prelude::*;

use crate::clock::{date_text, format_date, format_time, time_text, utc_civil, utc_of};
use crate::sadf::file::{FileActivityEntry, SaFile};
use crate::sadf::table::{lookup, table};
use crate::sar_text::header::{cpu_count, real_cpu_count, FileHeader};
use crate::text::{
    dec, dec_fill, dec_filled, hex, hex_text, int_dec, int_text, left_padded, pad_left, pad_right,
    push_dec, push_hex, right_padded, zero_fill, zero_filled,
};

verus! {

/// The format that is described in full.
pub const FORMAT_MAGIC: u16 = 0x2175;

/// The last two digits of a year, with its sign.
pub open spec fn short_year(year: int) -> Seq<char> {
    if year < 0 && (-year) % 100 != 0 {
        seq!['-'] + dec(((-year) % 100) as nat)
    } else {
        dec_filled((year % 100) as nat, 2)
    }
}

fn short_year_text(year: i32) -> (r: String)
    ensures
        r@ == short_year(year as int),
{
    if year < 0 {
        let n: u64 = (-(year as i64)) as u64;
        if n % 100 != 0 {
            let mut out = "-".to_owned();
            proof {
                reveal_strlit("-");
                assert(out@ =~= seq!['-']);
            }
            push_dec(&mut out, n % 100);
            return out;
        }
        assert(year as int % 100 == 0);
        return dec_fill(0, 2);
    }
    dec_fill((year % 100) as u64, 2)
}

/// The line that names the machine and the day of the file.
pub open spec fn machine_text(h: FileHeader) -> Seq<char> {
    let c = h.created.local;
    h.sysname@ + " "@ + h.release@ + " ("@ + h.nodename@ + ") \t"@ + dec_filled(c.month as nat, 2)
        + "/"@ + dec_filled(c.day as nat, 2) + "/"@ + short_year(c.year as int) + " \t_"@
        + h.machine@ + "_\t("@ + dec(cpu_count(h.cpu_nr) as nat) + " CPU)\n"@
}

/// The line that names the machine and the day of the file.
pub fn write_gal_header(h: &FileHeader) -> (r: String)
    ensures
        r@ == machine_text(*h),
{
    let c = h.created.local;
    let mut out = h.sysname.as_str().to_owned();
    out.append(" ");
    out.append(h.release.as_str());
    out.append(" (");
    out.append(h.nodename.as_str());
    out.append(") \t");
    out.append(dec_fill(c.month as u64, 2).as_str());
    out.append("/");
    out.append(dec_fill(c.day as u64, 2).as_str());
    out.append("/");
    out.append(short_year_text(c.year).as_str());
    out.append(" \t_");
    out.append(h.machine.as_str());
    out.append("_\t(");
    push_dec(&mut out, real_cpu_count(h.cpu_nr) as u64);
    out.append(" CPU)\n");
    out
}

/// Three numbers in brackets; zeros where there are none.
pub open spec fn triple(t: Option<[u32; 3]>) -> Seq<char> {
    match t {
        Some(a) => "("@ + dec(a@[0] as nat) + ","@ + dec(a@[1] as nat) + ","@ + dec(a@[2] as nat)
            + ")"@,
        None => "(0,0,0)"@,
    }
}

fn triple_text(t: &Option<[u32; 3]>) -> (r: String)
    ensures
        r@ == triple(*t),
{
    match t {
        Some(a) => {
            let mut out = "(".to_owned();
            push_dec(&mut out, a[0] as u64);
            out.append(",");
            push_dec(&mut out, a[1] as u64);
            out.append(",");
            push_dec(&mut out, a[2] as u64);
            out.append(")");
            out
        },
        None => "(0,0,0)".to_owned(),
    }
}

/// Whether the layout of an activity is not the current one.
pub open spec fn is_stale(e: FileActivityEntry) -> bool {
    e.current_magic != Some(e.magic)
}

/// The name of an activity.
pub open spec fn activity_name(e: FileActivityEntry) -> Seq<char> {
    match table(e.id) {
        Some(m) => m.name@,
        None => "Unknown activity"@,
    }
}

/// The line of an activity: its number, magic number and name, whether records say how many
/// items they hold, the numbers of items, and a mark where the layout is not the current one.
pub open spec fn activity_text(e: FileActivityEntry) -> Seq<char> {
    let head = dec_filled(e.id.num() as nat, 2) + ": ["@ + zero_filled(hex(e.magic as nat), 2)
        + "] "@ + right_padded(activity_name(e), 20) + (if e.has_nr {
        " Y:"@
    } else {
        " N:"@
    }) + left_padded(int_dec(e.nr as int), 4);
    let sized = if e.nr2 > 1 {
        head + "x"@ + int_dec(e.nr2 as int)
    } else {
        head
    };
    let typed = sized + "\t"@ + triple(e.types_nr);
    (if is_stale(e) {
        typed + " \t[Unknown format]"@
    } else {
        typed
    }) + "\n"@
}

/// The line of an activity.
pub fn write_activity_line(e: &FileActivityEntry) -> (r: String)
    ensures
        r@ == activity_text(*e),
{
    let mut out = dec_fill(e.id.number() as u64, 2);
    out.append(": [");
    out.append(zero_fill(hex_text(e.magic as u64).as_str(), 2).as_str());
    out.append("] ");
    let name = match lookup(e.id) {
        Some(s) => pad_right(s.name, 20),
        None => pad_right("Unknown activity", 20),
    };
    out.append(name.as_str());
    if e.has_nr {
        out.append(" Y:");
    } else {
        out.append(" N:");
    }
    out.append(pad_left(int_text(e.nr as i64).as_str(), 4).as_str());
    if e.nr2 > 1 {
        out.append("x");
        out.append(int_text(e.nr2 as i64).as_str());
    }
    out.append("\t");
    out.append(triple_text(&e.types_nr).as_str());
    let stale = match e.current_magic {
        Some(m) => m != e.magic,
        None => true,
    };
    if stale {
        out.append(" \t[Unknown format]");
    }
    out.append("\n");
    out
}

/// The lines of the first `n` activities.
pub open spec fn activity_lines(entries: Seq<FileActivityEntry>, n: int) -> Seq<char>
    decreases n,
{
    if n <= 0 {
        Seq::empty()
    } else {
        activity_lines(entries, n - 1) + activity_text(entries[n - 1])
    }
}

/// A number, 0 where there is none.
pub open spec fn or_zero(v: Option<u64>) -> nat {
    match v {
        Some(x) => x as nat,
        None => 0,
    }
}

/// The first two lines: the name and the format of the file, and the release that wrote it.
pub open spec fn head_text(file: SaFile) -> Seq<char> {
    "System activity data file: "@ + file.path@ + " (0x"@ + hex(file.magic.format_magic as nat)
        + ")\nFile created by sar/sadc from sysstat version "@ + file.magic.version@ + "\n"@
}

/// The lines between the first two and the list of activities.
pub open spec fn details_text(file: SaFile) -> Seq<char> {
    let h = file.header;
    let c = utc_civil(h.created.ust_time);
    let upgraded: nat = match file.magic.upgraded {
        Some(u) => u as nat,
        None => 0,
    };
    "Genuine sa datafile: "@ + (if upgraded == 0 {
        "yes"@
    } else {
        "no"@
    }) + " ("@ + hex(upgraded) + ")\nHost: "@ + machine_text(h) + "File date: "@ + date_text(
        h.year as int,
        h.month as int,
        h.day as int,
    ) + "\nFile time: "@ + time_text(c.hour as int, c.minute as int, c.second as int) + " UTC ("@
        + dec(h.created.ust_time as nat) + ")\nTimezone: "@ + (match h.tzname {
        Some(z) => z@,
        None => ""@,
    }) + "\nFile composition: "@ + triple(file.magic.hdr_types_nr) + ","@ + triple(
        file.layout.act_types_nr,
    ) + ","@ + triple(file.layout.rec_types_nr) + "\nSize of a long int: "@ + dec(
        file.layout.sizeof_long as nat,
    ) + "\nHZ = "@ + dec(or_zero(file.layout.hz)) + "\nNumber of activities in file: "@ + dec(
        file.layout.act_nr as nat,
    ) + "\nExtra structures available: "@ + (match file.layout.extra_next {
        Some(n) => if n != 0 {
            "Y"@
        } else {
            "N"@
        },
        None => "N"@,
    }) + "\nList of activities:\n"@
}

fn details_of(file: &SaFile) -> (r: String)
    ensures
        r@ == details_text(*file),
{
    let h = &file.header;
    let utc = utc_of(h.created.ust_time);
    let upgraded: u32 = match file.magic.upgraded {
        Some(u) => u,
        None => 0,
    };
    let mut out = "Genuine sa datafile: ".to_owned();
    if upgraded == 0 {
        out.append("yes");
    } else {
        out.append("no");
    }
    out.append(" (");
    push_hex(&mut out, upgraded as u64);
    out.append(")\nHost: ");
    out.append(write_gal_header(h).as_str());
    out.append("File date: ");
    out.append(format_date(h.year, h.month as u32, h.day as u32).as_str());
    out.append("\nFile time: ");
    out.append(format_time(utc.hour, utc.minute, utc.second).as_str());
    out.append(" UTC (");
    push_dec(&mut out, h.created.ust_time);
    out.append(")\nTimezone: ");
    match &h.tzname {
        Some(z) => out.append(z.as_str()),
        None => out.append(""),
    }
    out.append("\nFile composition: ");
    out.append(triple_text(&file.magic.hdr_types_nr).as_str());
    out.append(",");
    out.append(triple_text(&file.layout.act_types_nr).as_str());
    out.append(",");
    out.append(triple_text(&file.layout.rec_types_nr).as_str());
    out.append("\nSize of a long int: ");
    push_dec(&mut out, file.layout.sizeof_long as u64);
    out.append("\nHZ = ");
    let hz: u64 = match file.layout.hz {
        Some(v) => v,
        None => 0,
    };
    push_dec(&mut out, hz);
    out.append("\nNumber of activities in file: ");
    push_dec(&mut out, file.layout.act_nr as u64);
    out.append("\nExtra structures available: ");
    let extra: u32 = match file.layout.extra_next {
        Some(n) => n,
        None => 0,
    };
    if extra != 0 {
        out.append("Y");
    } else {
        out.append("N");
    }
    out.append("\nList of activities:\n");
    out
}

/// The description of a file. Of another format than the current one only the first two lines
/// are known.
pub open spec fn header_text(file: SaFile) -> Seq<char> {
    if file.magic.format_magic != FORMAT_MAGIC {
        head_text(file)
    } else {
        head_text(file) + details_text(file) + activity_lines(
            file.activities@,
            file.activities@.len() as int,
        )
    }
}

/// The description of a file.
pub fn write_header(file: &SaFile) -> (r: String)
    ensures
        r@ == header_text(*file),
{
    let mut out = "System activity data file: ".to_owned();
    out.append(file.path.as_str());
    out.append(" (0x");
    push_hex(&mut out, file.magic.format_magic as u64);
    out.append(")\nFile created by sar/sadc from sysstat version ");
    out.append(file.magic.version.as_str());
    out.append("\n");
    if file.magic.format_magic != FORMAT_MAGIC {
        return out;
    }
    out.append(details_of(file).as_str());
    let ghost start = out@;
    let mut i: usize = 0;
    assert(out@ =~= start + activity_lines(file.activities@, 0));
    while i < file.activities.len()
        invariant
            i <= file.activities@.len(),
            out@ == start + activity_lines(file.activities@, i as int),
        decreases file.activities.len() - i,
    {
        let ghost before = activity_lines(file.activities@, i as int);
        let line = write_activity_line(&file.activities[i]);
        out.append(line.as_str());
        assert(out@ =~= start + (before + line@));
        i = i + 1;
    }
    out
}

}
