//! What stands behind each label in the lines that describe a file and its records.

use vstd::prelude::*;

use crate::clock::{date_text, time_text, utc_civil};
use crate::sadf::document_laws::{in_a_row, lemma_three_occur, occurs};
use crate::sadf::file::{FileActivityEntry, SaFile};
use crate::sadf::header::{
    activity_name, activity_text, details_text, head_text, machine_text, or_zero, short_year, triple,
};
use crate::sadf::raw::{record_header_text, room_text};
use crate::sadf::records::RecHeader;
use crate::sar_text::header::{banner_day, banner_text, cpu_count, FileHeader};
use crate::sar_text::options::TimeStyle;
use crate::text::{dec, dec_filled, hex, int_dec, left_padded, right_padded, zero_filled};
use crate::text_laws::{decimal_value, law_decimals_have_their_value};

verus! {

spec fn a_banner_names_the_machine_parts(h: FileHeader, style: TimeStyle) -> Seq<Seq<char>> {
    seq![
        h.sysname@,
        " "@,
        h.release@,
        " ("@,
        h.nodename@,
        ") \t"@,
        banner_day(h, style),
        " \t_"@,
        h.machine@,
        "_\t("@,
        dec(cpu_count(h.cpu_nr) as nat),
        " CPU)\n"@,
    ]
}

#[verifier::rlimit(60)]
proof fn lemma_a_banner_names_the_machine_parts(h: FileHeader, style: TimeStyle)
    ensures
        banner_text(h, style) == in_a_row(a_banner_names_the_machine_parts(h, style)),
{
    let l = a_banner_names_the_machine_parts(h, style);
    reveal_with_fuel(in_a_row, 2);
    assert(l.take(1).drop_last() =~= Seq::<Seq<char>>::empty());
    assert(in_a_row(l.take(1)) =~= l[0]);
    assert(l.take(2).drop_last() =~= l.take(1));
    assert(in_a_row(l.take(2)) == in_a_row(l.take(1)) + l[1]);
    assert(l.take(3).drop_last() =~= l.take(2));
    assert(in_a_row(l.take(3)) == in_a_row(l.take(2)) + l[2]);
    assert(l.take(4).drop_last() =~= l.take(3));
    assert(in_a_row(l.take(4)) == in_a_row(l.take(3)) + l[3]);
    assert(l.take(5).drop_last() =~= l.take(4));
    assert(in_a_row(l.take(5)) == in_a_row(l.take(4)) + l[4]);
    assert(l.take(6).drop_last() =~= l.take(5));
    assert(in_a_row(l.take(6)) == in_a_row(l.take(5)) + l[5]);
    assert(l.take(7).drop_last() =~= l.take(6));
    assert(in_a_row(l.take(7)) == in_a_row(l.take(6)) + l[6]);
    assert(l.take(8).drop_last() =~= l.take(7));
    assert(in_a_row(l.take(8)) == in_a_row(l.take(7)) + l[7]);
    assert(l.take(9).drop_last() =~= l.take(8));
    assert(in_a_row(l.take(9)) == in_a_row(l.take(8)) + l[8]);
    assert(l.take(10).drop_last() =~= l.take(9));
    assert(in_a_row(l.take(10)) == in_a_row(l.take(9)) + l[9]);
    assert(l.take(11).drop_last() =~= l.take(10));
    assert(in_a_row(l.take(11)) == in_a_row(l.take(10)) + l[10]);
    assert(l.take(12).drop_last() =~= l.take(11));
    assert(in_a_row(l.take(12)) == in_a_row(l.take(11)) + l[11]);
    assert(l.take(12) =~= l);
}

/// The first line of a report names the system, its release, the machine, the day, the
/// architecture and the number of CPUs, in this order.
pub proof fn law_a_banner_names_the_machine(h: FileHeader, style: TimeStyle)
    ensures
        occurs(h.sysname@ + " "@ + h.release@, banner_text(h, style)),
        occurs(h.release@ + " ("@ + h.nodename@, banner_text(h, style)),
        occurs(" ("@ + h.nodename@ + ") \t"@, banner_text(h, style)),
        occurs(") \t"@ + banner_day(h, style) + " \t_"@, banner_text(h, style)),
        occurs(" \t_"@ + h.machine@ + "_\t("@, banner_text(h, style)),
        occurs("_\t("@ + dec(cpu_count(h.cpu_nr) as nat) + " CPU)\n"@, banner_text(h, style)),
        decimal_value(dec(cpu_count(h.cpu_nr) as nat)) == cpu_count(h.cpu_nr),
{
    lemma_a_banner_names_the_machine_parts(h, style);
    let l = a_banner_names_the_machine_parts(h, style);
    lemma_three_occur(l, 0);
    lemma_three_occur(l, 2);
    lemma_three_occur(l, 3);
    lemma_three_occur(l, 5);
    lemma_three_occur(l, 7);
    lemma_three_occur(l, 9);
    law_decimals_have_their_value(cpu_count(h.cpu_nr) as nat);
}

spec fn the_host_line_names_the_machine_parts(h: FileHeader) -> Seq<Seq<char>> {
    seq![
        h.sysname@,
        " "@,
        h.release@,
        " ("@,
        h.nodename@,
        ") \t"@,
        dec_filled(h.created.local.month as nat, 2),
        "/"@,
        dec_filled(h.created.local.day as nat, 2),
        "/"@,
        short_year(h.created.local.year as int),
        " \t_"@,
        h.machine@,
        "_\t("@,
        dec(cpu_count(h.cpu_nr) as nat),
        " CPU)\n"@,
    ]
}

#[verifier::rlimit(60)]
proof fn lemma_the_host_line_names_the_machine_parts(h: FileHeader)
    ensures
        machine_text(h) == in_a_row(the_host_line_names_the_machine_parts(h)),
{
    let l = the_host_line_names_the_machine_parts(h);
    reveal_with_fuel(in_a_row, 2);
    assert(l.take(1).drop_last() =~= Seq::<Seq<char>>::empty());
    assert(in_a_row(l.take(1)) =~= l[0]);
    assert(l.take(2).drop_last() =~= l.take(1));
    assert(in_a_row(l.take(2)) == in_a_row(l.take(1)) + l[1]);
    assert(l.take(3).drop_last() =~= l.take(2));
    assert(in_a_row(l.take(3)) == in_a_row(l.take(2)) + l[2]);
    assert(l.take(4).drop_last() =~= l.take(3));
    assert(in_a_row(l.take(4)) == in_a_row(l.take(3)) + l[3]);
    assert(l.take(5).drop_last() =~= l.take(4));
    assert(in_a_row(l.take(5)) == in_a_row(l.take(4)) + l[4]);
    assert(l.take(6).drop_last() =~= l.take(5));
    assert(in_a_row(l.take(6)) == in_a_row(l.take(5)) + l[5]);
    assert(l.take(7).drop_last() =~= l.take(6));
    assert(in_a_row(l.take(7)) == in_a_row(l.take(6)) + l[6]);
    assert(l.take(8).drop_last() =~= l.take(7));
    assert(in_a_row(l.take(8)) == in_a_row(l.take(7)) + l[7]);
    assert(l.take(9).drop_last() =~= l.take(8));
    assert(in_a_row(l.take(9)) == in_a_row(l.take(8)) + l[8]);
    assert(l.take(10).drop_last() =~= l.take(9));
    assert(in_a_row(l.take(10)) == in_a_row(l.take(9)) + l[9]);
    assert(l.take(11).drop_last() =~= l.take(10));
    assert(in_a_row(l.take(11)) == in_a_row(l.take(10)) + l[10]);
    assert(l.take(12).drop_last() =~= l.take(11));
    assert(in_a_row(l.take(12)) == in_a_row(l.take(11)) + l[11]);
    assert(l.take(13).drop_last() =~= l.take(12));
    assert(in_a_row(l.take(13)) == in_a_row(l.take(12)) + l[12]);
    assert(l.take(14).drop_last() =~= l.take(13));
    assert(in_a_row(l.take(14)) == in_a_row(l.take(13)) + l[13]);
    assert(l.take(15).drop_last() =~= l.take(14));
    assert(in_a_row(l.take(15)) == in_a_row(l.take(14)) + l[14]);
    assert(l.take(16).drop_last() =~= l.take(15));
    assert(in_a_row(l.take(16)) == in_a_row(l.take(15)) + l[15]);
    assert(l.take(16) =~= l);
}

/// The line of the host names the system, its release, the machine, the month, the day and the
/// year of the file, the architecture and the number of CPUs, in this order.
pub proof fn law_the_host_line_names_the_machine(h: FileHeader)
    ensures
        occurs(h.sysname@ + " "@ + h.release@, machine_text(h)),
        occurs(h.release@ + " ("@ + h.nodename@, machine_text(h)),
        occurs(" ("@ + h.nodename@ + ") \t"@, machine_text(h)),
        occurs(") \t"@ + dec_filled(h.created.local.month as nat, 2) + "/"@, machine_text(h)),
        occurs(dec_filled(h.created.local.month as nat, 2) + "/"@ + dec_filled(h.created.local.day as nat, 2), machine_text(h)),
        occurs(dec_filled(h.created.local.day as nat, 2) + "/"@ + short_year(h.created.local.year as int), machine_text(h)),
        occurs("/"@ + short_year(h.created.local.year as int) + " \t_"@, machine_text(h)),
        occurs(" \t_"@ + h.machine@ + "_\t("@, machine_text(h)),
        occurs("_\t("@ + dec(cpu_count(h.cpu_nr) as nat) + " CPU)\n"@, machine_text(h)),
{
    lemma_the_host_line_names_the_machine_parts(h);
    let l = the_host_line_names_the_machine_parts(h);
    lemma_three_occur(l, 0);
    lemma_three_occur(l, 2);
    lemma_three_occur(l, 3);
    lemma_three_occur(l, 5);
    lemma_three_occur(l, 6);
    lemma_three_occur(l, 8);
    lemma_three_occur(l, 9);
    lemma_three_occur(l, 11);
    lemma_three_occur(l, 13);
}

spec fn a_file_is_told_by_its_path_and_format_parts(file: SaFile) -> Seq<Seq<char>> {
    seq![
        "System activity data file: "@,
        file.path@,
        " (0x"@,
        hex(file.magic.format_magic as nat),
        ")\nFile created by sar/sadc from sysstat version "@,
        file.magic.version@,
        "\n"@,
    ]
}

#[verifier::rlimit(60)]
proof fn lemma_a_file_is_told_by_its_path_and_format_parts(file: SaFile)
    ensures
        head_text(file) == in_a_row(a_file_is_told_by_its_path_and_format_parts(file)),
{
    let l = a_file_is_told_by_its_path_and_format_parts(file);
    reveal_with_fuel(in_a_row, 2);
    assert(l.take(1).drop_last() =~= Seq::<Seq<char>>::empty());
    assert(in_a_row(l.take(1)) =~= l[0]);
    assert(l.take(2).drop_last() =~= l.take(1));
    assert(in_a_row(l.take(2)) == in_a_row(l.take(1)) + l[1]);
    assert(l.take(3).drop_last() =~= l.take(2));
    assert(in_a_row(l.take(3)) == in_a_row(l.take(2)) + l[2]);
    assert(l.take(4).drop_last() =~= l.take(3));
    assert(in_a_row(l.take(4)) == in_a_row(l.take(3)) + l[3]);
    assert(l.take(5).drop_last() =~= l.take(4));
    assert(in_a_row(l.take(5)) == in_a_row(l.take(4)) + l[4]);
    assert(l.take(6).drop_last() =~= l.take(5));
    assert(in_a_row(l.take(6)) == in_a_row(l.take(5)) + l[5]);
    assert(l.take(7).drop_last() =~= l.take(6));
    assert(in_a_row(l.take(7)) == in_a_row(l.take(6)) + l[6]);
    assert(l.take(7) =~= l);
}

/// The description of a file starts with its path, its format and the version that wrote it.
pub proof fn law_a_file_is_told_by_its_path_and_format(file: SaFile)
    ensures
        occurs("System activity data file: "@ + file.path@ + " (0x"@, head_text(file)),
        occurs(" (0x"@ + hex(file.magic.format_magic as nat) + ")\nFile created by sar/sadc from sysstat version "@, head_text(file)),
        occurs(")\nFile created by sar/sadc from sysstat version "@ + file.magic.version@ + "\n"@, head_text(file)),
{
    lemma_a_file_is_told_by_its_path_and_format_parts(file);
    let l = a_file_is_told_by_its_path_and_format_parts(file);
    lemma_three_occur(l, 0);
    lemma_three_occur(l, 2);
    lemma_three_occur(l, 4);
}

spec fn room_is_told_by_its_labels_parts(name: Seq<char>, nr_curr: u32, nr_alloc: u32, nr_ini: u32) -> Seq<Seq<char>> {
    seq![
        "# name; "@,
        name,
        "; nr_curr; "@,
        dec(nr_curr as nat),
        "; nr_alloc; "@,
        dec(nr_alloc as nat),
        "; nr_ini; "@,
        dec(nr_ini as nat),
        "\n"@,
    ]
}

#[verifier::rlimit(60)]
proof fn lemma_room_is_told_by_its_labels_parts(name: Seq<char>, nr_curr: u32, nr_alloc: u32, nr_ini: u32)
    ensures
        room_text(name, nr_curr, nr_alloc, nr_ini) == in_a_row(room_is_told_by_its_labels_parts(name, nr_curr, nr_alloc, nr_ini)),
{
    let l = room_is_told_by_its_labels_parts(name, nr_curr, nr_alloc, nr_ini);
    reveal_with_fuel(in_a_row, 2);
    assert(l.take(1).drop_last() =~= Seq::<Seq<char>>::empty());
    assert(in_a_row(l.take(1)) =~= l[0]);
    assert(l.take(2).drop_last() =~= l.take(1));
    assert(in_a_row(l.take(2)) == in_a_row(l.take(1)) + l[1]);
    assert(l.take(3).drop_last() =~= l.take(2));
    assert(in_a_row(l.take(3)) == in_a_row(l.take(2)) + l[2]);
    assert(l.take(4).drop_last() =~= l.take(3));
    assert(in_a_row(l.take(4)) == in_a_row(l.take(3)) + l[3]);
    assert(l.take(5).drop_last() =~= l.take(4));
    assert(in_a_row(l.take(5)) == in_a_row(l.take(4)) + l[4]);
    assert(l.take(6).drop_last() =~= l.take(5));
    assert(in_a_row(l.take(6)) == in_a_row(l.take(5)) + l[5]);
    assert(l.take(7).drop_last() =~= l.take(6));
    assert(in_a_row(l.take(7)) == in_a_row(l.take(6)) + l[6]);
    assert(l.take(8).drop_last() =~= l.take(7));
    assert(in_a_row(l.take(8)) == in_a_row(l.take(7)) + l[7]);
    assert(l.take(9).drop_last() =~= l.take(8));
    assert(in_a_row(l.take(9)) == in_a_row(l.take(8)) + l[8]);
    assert(l.take(9) =~= l);
}

/// The line on the room of an activity tells the items there are, the room for them, and the
/// room there was at first.
pub proof fn law_room_is_told_by_its_labels(name: Seq<char>, nr_curr: u32, nr_alloc: u32, nr_ini: u32)
    ensures
        occurs("# name; "@ + name + "; nr_curr; "@, room_text(name, nr_curr, nr_alloc, nr_ini)),
        occurs("; nr_curr; "@ + dec(nr_curr as nat) + "; nr_alloc; "@, room_text(name, nr_curr, nr_alloc, nr_ini)),
        occurs("; nr_alloc; "@ + dec(nr_alloc as nat) + "; nr_ini; "@, room_text(name, nr_curr, nr_alloc, nr_ini)),
        occurs("; nr_ini; "@ + dec(nr_ini as nat) + "\n"@, room_text(name, nr_curr, nr_alloc, nr_ini)),
{
    lemma_room_is_told_by_its_labels_parts(name, nr_curr, nr_alloc, nr_ini);
    let l = room_is_told_by_its_labels_parts(name, nr_curr, nr_alloc, nr_ini);
    lemma_three_occur(l, 0);
    lemma_three_occur(l, 2);
    lemma_three_occur(l, 4);
    lemma_three_occur(l, 6);
}

spec fn records_are_told_by_their_labels_parts(h: RecHeader) -> Seq<Seq<char>> {
    seq![
        "# uptime_cs; "@,
        dec(h.uptime_cs as nat),
        "; ust_time; "@,
        dec(h.time.ust_time as nat),
        "; extra_next; 0; record_type; "@,
        dec(h.record_type as nat),
        "; HH:MM:SS; "@,
        time_text(h.time.hour as int, h.time.minute as int, h.time.second as int),
        "\n"@,
    ]
}

#[verifier::rlimit(60)]
proof fn lemma_records_are_told_by_their_labels_parts(h: RecHeader)
    ensures
        record_header_text(h) == in_a_row(records_are_told_by_their_labels_parts(h)),
{
    let l = records_are_told_by_their_labels_parts(h);
    reveal_with_fuel(in_a_row, 2);
    assert(l.take(1).drop_last() =~= Seq::<Seq<char>>::empty());
    assert(in_a_row(l.take(1)) =~= l[0]);
    assert(l.take(2).drop_last() =~= l.take(1));
    assert(in_a_row(l.take(2)) == in_a_row(l.take(1)) + l[1]);
    assert(l.take(3).drop_last() =~= l.take(2));
    assert(in_a_row(l.take(3)) == in_a_row(l.take(2)) + l[2]);
    assert(l.take(4).drop_last() =~= l.take(3));
    assert(in_a_row(l.take(4)) == in_a_row(l.take(3)) + l[3]);
    assert(l.take(5).drop_last() =~= l.take(4));
    assert(in_a_row(l.take(5)) == in_a_row(l.take(4)) + l[4]);
    assert(l.take(6).drop_last() =~= l.take(5));
    assert(in_a_row(l.take(6)) == in_a_row(l.take(5)) + l[5]);
    assert(l.take(7).drop_last() =~= l.take(6));
    assert(in_a_row(l.take(7)) == in_a_row(l.take(6)) + l[6]);
    assert(l.take(8).drop_last() =~= l.take(7));
    assert(in_a_row(l.take(8)) == in_a_row(l.take(7)) + l[7]);
    assert(l.take(9).drop_last() =~= l.take(8));
    assert(in_a_row(l.take(9)) == in_a_row(l.take(8)) + l[8]);
    assert(l.take(9) =~= l);
}

/// The line on a record tells its uptime, its time, its kind, and the clock of the machine.
pub proof fn law_records_are_told_by_their_labels(h: RecHeader)
    ensures
        occurs("# uptime_cs; "@ + dec(h.uptime_cs as nat) + "; ust_time; "@, record_header_text(h)),
        occurs("; ust_time; "@ + dec(h.time.ust_time as nat) + "; extra_next; 0; record_type; "@, record_header_text(h)),
        occurs("; extra_next; 0; record_type; "@ + dec(h.record_type as nat) + "; HH:MM:SS; "@, record_header_text(h)),
        occurs("; HH:MM:SS; "@ + time_text(h.time.hour as int, h.time.minute as int, h.time.second as int) + "\n"@, record_header_text(h)),
{
    lemma_records_are_told_by_their_labels_parts(h);
    let l = records_are_told_by_their_labels_parts(h);
    lemma_three_occur(l, 0);
    lemma_three_occur(l, 2);
    lemma_three_occur(l, 4);
    lemma_three_occur(l, 6);
}

/// Whether a file is as it was written.
pub open spec fn is_genuine(file: SaFile) -> Seq<char> {
    if upgraded_from(file) == 0 {
        "yes"@
    } else {
        "no"@
    }
}

/// What a file was upgraded from; 0 where it was not.
pub open spec fn upgraded_from(file: SaFile) -> nat {
    match file.magic.upgraded {
        Some(u) => u as nat,
        None => 0,
    }
}

/// The time of day at which a file was made, in UTC.
pub open spec fn utc_clock(h: FileHeader) -> Seq<char> {
    let c = utc_civil(h.created.ust_time);
    time_text(c.hour as int, c.minute as int, c.second as int)
}

/// The name of the zone of a file.
pub open spec fn zone_name(h: FileHeader) -> Seq<char> {
    match h.tzname {
        Some(z) => z@,
        None => ""@,
    }
}

/// Whether a file has structures of its own.
pub open spec fn has_extra(file: SaFile) -> Seq<char> {
    if file.layout.extra_next is Some && file.layout.extra_next != Some(0u32) {
        "Y"@
    } else {
        "N"@
    }
}

spec fn a_file_is_described_by_its_labels_parts(file: SaFile) -> Seq<Seq<char>> {
    seq![
        "Genuine sa datafile: "@,
        is_genuine(file),
        " ("@,
        hex(upgraded_from(file)),
        ")\nHost: "@,
        machine_text(file.header),
        "File date: "@,
        date_text(file.header.year as int, file.header.month as int, file.header.day as int),
        "\nFile time: "@,
        utc_clock(file.header),
        " UTC ("@,
        dec(file.header.created.ust_time as nat),
        ")\nTimezone: "@,
        zone_name(file.header),
        "\nFile composition: "@,
        triple(file.magic.hdr_types_nr),
        ","@,
        triple(file.layout.act_types_nr),
        ","@,
        triple(file.layout.rec_types_nr),
        "\nSize of a long int: "@,
        dec(file.layout.sizeof_long as nat),
        "\nHZ = "@,
        dec(or_zero(file.layout.hz)),
        "\nNumber of activities in file: "@,
        dec(file.layout.act_nr as nat),
        "\nExtra structures available: "@,
        has_extra(file),
        "\nList of activities:\n"@,
    ]
}

#[verifier::rlimit(60)]
proof fn lemma_a_file_is_described_by_its_labels_parts(file: SaFile)
    ensures
        details_text(file) == in_a_row(a_file_is_described_by_its_labels_parts(file)),
{
    let l = a_file_is_described_by_its_labels_parts(file);
    reveal_with_fuel(in_a_row, 2);
    assert(l.take(1).drop_last() =~= Seq::<Seq<char>>::empty());
    assert(in_a_row(l.take(1)) =~= l[0]);
    assert(l.take(2).drop_last() =~= l.take(1));
    assert(in_a_row(l.take(2)) == in_a_row(l.take(1)) + l[1]);
    assert(l.take(3).drop_last() =~= l.take(2));
    assert(in_a_row(l.take(3)) == in_a_row(l.take(2)) + l[2]);
    assert(l.take(4).drop_last() =~= l.take(3));
    assert(in_a_row(l.take(4)) == in_a_row(l.take(3)) + l[3]);
    assert(l.take(5).drop_last() =~= l.take(4));
    assert(in_a_row(l.take(5)) == in_a_row(l.take(4)) + l[4]);
    assert(l.take(6).drop_last() =~= l.take(5));
    assert(in_a_row(l.take(6)) == in_a_row(l.take(5)) + l[5]);
    assert(l.take(7).drop_last() =~= l.take(6));
    assert(in_a_row(l.take(7)) == in_a_row(l.take(6)) + l[6]);
    assert(l.take(8).drop_last() =~= l.take(7));
    assert(in_a_row(l.take(8)) == in_a_row(l.take(7)) + l[7]);
    assert(l.take(9).drop_last() =~= l.take(8));
    assert(in_a_row(l.take(9)) == in_a_row(l.take(8)) + l[8]);
    assert(l.take(10).drop_last() =~= l.take(9));
    assert(in_a_row(l.take(10)) == in_a_row(l.take(9)) + l[9]);
    assert(l.take(11).drop_last() =~= l.take(10));
    assert(in_a_row(l.take(11)) == in_a_row(l.take(10)) + l[10]);
    assert(l.take(12).drop_last() =~= l.take(11));
    assert(in_a_row(l.take(12)) == in_a_row(l.take(11)) + l[11]);
    assert(l.take(13).drop_last() =~= l.take(12));
    assert(in_a_row(l.take(13)) == in_a_row(l.take(12)) + l[12]);
    assert(l.take(14).drop_last() =~= l.take(13));
    assert(in_a_row(l.take(14)) == in_a_row(l.take(13)) + l[13]);
    assert(l.take(15).drop_last() =~= l.take(14));
    assert(in_a_row(l.take(15)) == in_a_row(l.take(14)) + l[14]);
    assert(l.take(16).drop_last() =~= l.take(15));
    assert(in_a_row(l.take(16)) == in_a_row(l.take(15)) + l[15]);
    assert(l.take(17).drop_last() =~= l.take(16));
    assert(in_a_row(l.take(17)) == in_a_row(l.take(16)) + l[16]);
    assert(l.take(18).drop_last() =~= l.take(17));
    assert(in_a_row(l.take(18)) == in_a_row(l.take(17)) + l[17]);
    assert(l.take(19).drop_last() =~= l.take(18));
    assert(in_a_row(l.take(19)) == in_a_row(l.take(18)) + l[18]);
    assert(l.take(20).drop_last() =~= l.take(19));
    assert(in_a_row(l.take(20)) == in_a_row(l.take(19)) + l[19]);
    assert(l.take(21).drop_last() =~= l.take(20));
    assert(in_a_row(l.take(21)) == in_a_row(l.take(20)) + l[20]);
    assert(l.take(22).drop_last() =~= l.take(21));
    assert(in_a_row(l.take(22)) == in_a_row(l.take(21)) + l[21]);
    assert(l.take(23).drop_last() =~= l.take(22));
    assert(in_a_row(l.take(23)) == in_a_row(l.take(22)) + l[22]);
    assert(l.take(24).drop_last() =~= l.take(23));
    assert(in_a_row(l.take(24)) == in_a_row(l.take(23)) + l[23]);
    assert(l.take(25).drop_last() =~= l.take(24));
    assert(in_a_row(l.take(25)) == in_a_row(l.take(24)) + l[24]);
    assert(l.take(26).drop_last() =~= l.take(25));
    assert(in_a_row(l.take(26)) == in_a_row(l.take(25)) + l[25]);
    assert(l.take(27).drop_last() =~= l.take(26));
    assert(in_a_row(l.take(27)) == in_a_row(l.take(26)) + l[26]);
    assert(l.take(28).drop_last() =~= l.take(27));
    assert(in_a_row(l.take(28)) == in_a_row(l.take(27)) + l[27]);
    assert(l.take(29).drop_last() =~= l.take(28));
    assert(in_a_row(l.take(29)) == in_a_row(l.take(28)) + l[28]);
    assert(l.take(29) =~= l);
}

/// The description of a file has each of its facts behind the label for it.
pub proof fn law_a_file_is_described_by_its_labels(file: SaFile)
    ensures
        occurs("Genuine sa datafile: "@ + is_genuine(file) + " ("@, details_text(file)),
        occurs(" ("@ + hex(upgraded_from(file)) + ")\nHost: "@, details_text(file)),
        occurs(")\nHost: "@ + machine_text(file.header) + "File date: "@, details_text(file)),
        occurs("File date: "@ + date_text(file.header.year as int, file.header.month as int, file.header.day as int) + "\nFile time: "@, details_text(file)),
        occurs("\nFile time: "@ + utc_clock(file.header) + " UTC ("@, details_text(file)),
        occurs(" UTC ("@ + dec(file.header.created.ust_time as nat) + ")\nTimezone: "@, details_text(file)),
        occurs(")\nTimezone: "@ + zone_name(file.header) + "\nFile composition: "@, details_text(file)),
        occurs("\nFile composition: "@ + triple(file.magic.hdr_types_nr) + ","@, details_text(file)),
        occurs(","@ + triple(file.layout.act_types_nr) + ","@, details_text(file)),
        occurs(","@ + triple(file.layout.rec_types_nr) + "\nSize of a long int: "@, details_text(file)),
        occurs("\nSize of a long int: "@ + dec(file.layout.sizeof_long as nat) + "\nHZ = "@, details_text(file)),
        occurs("\nHZ = "@ + dec(or_zero(file.layout.hz)) + "\nNumber of activities in file: "@, details_text(file)),
        occurs("\nNumber of activities in file: "@ + dec(file.layout.act_nr as nat) + "\nExtra structures available: "@, details_text(file)),
        occurs("\nExtra structures available: "@ + has_extra(file) + "\nList of activities:\n"@, details_text(file)),
{
    lemma_a_file_is_described_by_its_labels_parts(file);
    let l = a_file_is_described_by_its_labels_parts(file);
    lemma_three_occur(l, 0);
    lemma_three_occur(l, 2);
    lemma_three_occur(l, 4);
    lemma_three_occur(l, 6);
    lemma_three_occur(l, 8);
    lemma_three_occur(l, 10);
    lemma_three_occur(l, 12);
    lemma_three_occur(l, 14);
    lemma_three_occur(l, 16);
    lemma_three_occur(l, 18);
    lemma_three_occur(l, 20);
    lemma_three_occur(l, 22);
    lemma_three_occur(l, 24);
    lemma_three_occur(l, 26);
}

/// The line of an activity starts with its number, its format and its name, tells whether the
/// number of its items is kept, and how many there are; a format that is not the present one is
/// marked at the end.
pub proof fn law_activities_are_listed_with_their_numbers(e: FileActivityEntry)
    ensures
        ({
            let start = dec_filled(e.id.num() as nat, 2) + ": ["@ + zero_filled(
                hex(e.magic as nat),
                2,
            ) + "] "@ + right_padded(activity_name(e), 20);
            let count = left_padded(int_dec(e.nr as int), 4);
            &&& e.has_nr ==> (start + " Y:"@ + count).is_prefix_of(activity_text(e))
            &&& !e.has_nr ==> (start + " N:"@ + count).is_prefix_of(activity_text(e))
            &&& e.nr2 > 1 && e.has_nr ==> (start + " Y:"@ + count + "x"@ + int_dec(
                e.nr2 as int,
            )).is_prefix_of(activity_text(e))
            &&& e.current_magic == Some(e.magic) ==> (triple(e.types_nr) + "\n"@).is_suffix_of(
                activity_text(e),
            )
            &&& e.current_magic != Some(e.magic) ==> (triple(e.types_nr) + " \t[Unknown format]"@
                + "\n"@).is_suffix_of(activity_text(e))
        }),
{
    let start = dec_filled(e.id.num() as nat, 2) + ": ["@ + zero_filled(hex(e.magic as nat), 2)
        + "] "@ + right_padded(activity_name(e), 20);
    let count = left_padded(int_dec(e.nr as int), 4);
    let text = activity_text(e);
    let a = start + " Y:"@ + count;
    let b = start + " N:"@ + count;
    let c = a + "x"@ + int_dec(e.nr2 as int);
    let x = triple(e.types_nr) + "\n"@;
    let y = triple(e.types_nr) + " \t[Unknown format]"@ + "\n"@;
    if e.has_nr {
        assert(text.take(a.len() as int) =~= a);
        if e.nr2 > 1 {
            assert(text.take(c.len() as int) =~= c);
        }
    } else {
        assert(text.take(b.len() as int) =~= b);
    }
    if e.current_magic == Some(e.magic) {
        assert(text.skip(text.len() - x.len()) =~= x);
    } else {
        assert(text.skip(text.len() - y.len()) =~= y);
    }
}

}
