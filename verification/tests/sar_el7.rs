//! The report of the older release.

use resarch::clock::{Civil, RecordTime};
use resarch::doc::{Doc, Form, Piece, Slot};
use resarch::model::ActivityId;
use resarch::sadf::records::RecordKind;
use resarch::sar_el7::options::{Bitmap, El7Options, Tstamp};
use resarch::sar_el7::records::{index_records, El7Record};
use resarch::sar_el7::report::{
    handle_pass, next_slice, order_times, plan_report, print_special, rectime, render_steps,
    write_report, El7Error, El7File, FileActivity, Kind, PassSetup, Rec, RecTime, Shared, Span,
    Step,
};
use resarch::sar_el7::rows::{push_cell, push_header, push_row, Cell, Label, MemOutput, Row, Tail};
use resarch::sar_text::header::FileHeader;
use resarch::sar_text::options::TimeStyle;
use resarch::text::pad_left;

/// A document as it is printed.
fn show(doc: &Doc) -> String {
    let mut out = String::new();
    for piece in &doc.pieces {
        match piece {
            Piece::Text(s) => out.push_str(s),
            Piece::Bytes(b) => out.push_str(&String::from_utf8_lossy(b)),
            Piece::Number(n) => out.push_str(&number(n)),
            Piece::Average(m, form, width) => {
                let sum: f64 = m.summands.iter().map(|b| f64::from_bits(*b)).sum();
                let bits = (sum / m.count as f64).to_bits();
                out.push_str(&number(&Slot { bits, form: *form, width: *width }));
            }
        }
    }
    out
}

fn whole(x: f64) -> u64 {
    if x <= 0.0 {
        0
    } else {
        x as u64
    }
}

fn count(x: f64) -> u64 {
    if x.is_finite() {
        whole(x)
    } else {
        0
    }
}

fn number(n: &Slot) -> String {
    let x = f64::from_bits(n.bits);
    let text = match n.form {
        Form::Fixed { decimals, divisor, sign } => {
            let v = x / f64::from(divisor);
            let d = usize::from(decimals);
            if sign {
                format!("{v:+.d$}")
            } else {
                format!("{v:.d$}")
            }
        }
        Form::Whole { divisor } => format!("{}", whole(x / f64::from(divisor))),
        Form::Hex => format!("{:x}", whole(x)),
        Form::Count => format!("{}", count(x)),
        Form::CountHex => format!("{:x}", count(x)),
        Form::CFixed { decimals } => {
            let d = usize::from(decimals);
            if x.is_nan() {
                if x.is_sign_negative() { "-nan".to_string() } else { "nan".to_string() }
            } else if x.is_infinite() {
                if x > 0.0 { "inf".to_string() } else { "-inf".to_string() }
            } else {
                format!("{x:.d$}")
            }
        }
        Form::Scaled { unit, decimals } => {
            let letters: Vec<char> = "sBkMGTP?".chars().collect();
            let mut v = x;
            let mut i = unit.index();
            while v >= 1024.0 {
                v /= 1024.0;
                i += 1;
            }
            let d = usize::from(decimals);
            let letter = letters[i.min(letters.len() - 1)];
            return format!("{v:>w$.d$}{letter}", w = n.width.saturating_sub(1));
        }
    };
    format!("{text:>w$}", w = n.width)
}

fn time(hms: (u8, u8, u8)) -> RecordTime {
    RecordTime {
        ust_time: 1_600_000_000 + u64::from(hms.0) * 3600 + u64::from(hms.1) * 60 + u64::from(hms.2),
        hour: hms.0,
        minute: hms.1,
        second: hms.2,
        local: Civil { year: 2020, month: 9, day: 13, hour: 21, minute: 26, second: 40 },
    }
}

fn stats(hms: (u8, u8, u8), uptime0: u64) -> Rec {
    Rec { kind: Kind::Stats, time: time(hms), uptime: uptime0 * 4, uptime0, comment: Vec::new(), unplanned: Vec::new() }
}

fn restart(hms: (u8, u8, u8)) -> Rec {
    Rec { kind: Kind::Restart, time: time(hms), uptime: 0, uptime0: 0, comment: Vec::new(), unplanned: Vec::new() }
}

fn comment(hms: (u8, u8, u8), text: &str) -> Rec {
    Rec {
        kind: Kind::Comment,
        time: time(hms),
        uptime: 0,
        uptime0: 0,
        comment: text.as_bytes().to_vec(),
        unplanned: Vec::new(),
    }
}

fn options() -> El7Options {
    El7Options::all(2, Bitmap { bytes: vec![0; 1] }, Bitmap { bytes: vec![0; 2] })
}

fn header() -> FileHeader {
    FileHeader {
        sysname: "Linux".to_string(),
        release: "3.10.0".to_string(),
        nodename: "host".to_string(),
        machine: "x86_64".to_string(),
        created: time((0, 0, 1)),
        year: 2020,
        month: 9,
        day: 13,
        cpu_nr: Some(5),
        tzname: None,
    }
}

fn activity(id: ActivityId, nr: i32) -> FileActivity {
    FileActivity { id, readable: true, nr, nr2: 1 }
}

fn file(activities: Vec<FileActivity>, recs: Vec<Rec>) -> El7File {
    El7File { header: header(), format_magic: 0x2171, activities, recs }
}

#[test]
fn datecmp_orders_by_hour_minute_second() {
    let rt = RecTime { hour: 10, min: 30, sec: 5 };
    let t = |hour, min, sec| Tstamp { hour, min, sec };
    assert!(order_times(rt, t(10, 30, 5)) == 0);
    assert!(order_times(rt, t(10, 30, 6)) < 0);
    assert!(order_times(rt, t(9, 59, 59)) > 0);
    assert!(order_times(rt, t(26, 0, 0)) < 0);
}

#[test]
fn next_slice_drops_records_closer_than_half_a_second() {
    let mut last = 0;
    assert!(next_slice(1000, 61_000, true, 1, &mut last));
    assert!(next_slice(1000, 121_000, false, 1, &mut last));
    assert!(!next_slice(1000, 121_040, false, 1, &mut last));
}

#[test]
fn next_slice_selects_multiples_of_the_interval() {
    let mut last = 0;
    let shown: Vec<bool> = (1..=4)
        .map(|k| next_slice(0, k * 60_000, k == 1, 1200, &mut last))
        .collect();
    assert_eq!(shown, vec![false, true, false, true]);
}

#[test]
fn cells_follow_the_printf_conversions() {
    let mut s = Doc::new();
    push_cell(&mut s, Cell::F92(1.285f64.to_bits()));
    push_cell(&mut s, Cell::P62(99.354f64.to_bits()));
    push_cell(&mut s, Cell::P72(12.5f64.to_bits()));
    push_cell(&mut s, Cell::F90(9015.0f64.to_bits()));
    push_cell(&mut s, Cell::U9(42));
    push_cell(&mut s, Cell::X9(0x1d6b));
    push_cell(&mut s, Cell::Na);
    assert_eq!(
        show(&s),
        "      1.28     99.35     12.50      9015        42      1d6b       N/A"
    );
}

#[test]
fn c_float_prints_nan_and_infinity_like_glibc() {
    let cell = |c: Cell| {
        let mut d = Doc::new();
        push_cell(&mut d, c);
        show(&d)
    };
    assert_eq!(cell(Cell::F92(f64::NAN.to_bits())), "       nan");
    assert_eq!(cell(Cell::F92((-f64::NAN).to_bits())), "      -nan");
    assert_eq!(cell(Cell::F92(f64::INFINITY.to_bits())), "       inf");
    assert_eq!(cell(Cell::F90(f64::NEG_INFINITY.to_bits())), "      -inf");
}

#[test]
fn labels_and_tails_match_the_row_prefixes() {
    let mut s = push_row(
        "00:10:01",
        &Row { label: Label::All, cells: vec![Cell::P62(1.0f64.to_bits())], tail: Tail::Nothing },
    );
    s.join(push_row(
        "00:10:01",
        &Row { label: Label::Num3Wide(5), cells: vec![], tail: Tail::Name("sda".into()) },
    ));
    s.join(push_row(
        "Summary",
        &Row {
            label: Label::Bus(-1),
            cells: vec![],
            tail: Tail::Usb(String::new(), "x".into()),
        },
    ));
    let s = show(&s);
    let lines: Vec<&str> = s.lines().collect();
    assert_eq!(lines[0], "00:10:01        all      1.00");
    assert_eq!(lines[1], format!("00:10:01{}5 sda", " ".repeat(12)));
    assert_eq!(
        lines[2],
        format!("Summary{}-1 {} {}", " ".repeat(10), " ".repeat(23), pad_left("x", 47))
    );
}

#[test]
fn the_other_labels_and_the_sensor_tail() {
    let row = |label: Label, tail: Tail| show(&push_row("00:10:01", &Row { label, cells: vec![], tail }));
    assert_eq!(row(Label::Nothing, Tail::Nothing), "00:10:01   \n");
    assert_eq!(row(Label::Num3(7), Tail::Nothing), "00:10:01          7\n");
    assert_eq!(row(Label::Sum, Tail::Nothing), "00:10:01          sum\n");
    assert_eq!(row(Label::Name("eth0".into()), Tail::Nothing), "00:10:01         eth0\n");
    assert!(row(Label::Num3Wide(1), Tail::Sensor("fan".into())).ends_with("fan\n"));
}

#[test]
fn headings_follow_an_empty_line() {
    assert_eq!(
        push_header("00:10:01", ActivityId::CPU, MemOutput::Amt, false, false),
        "\n00:10:01        CPU     %user     %nice   %system   %iowait    %steal     %idle\n"
    );
    assert_eq!(
        push_header("00:10:01", ActivityId::MEMORY, MemOutput::Swap, false, false),
        "\n00:10:01    kbswpfree kbswpused  %swpused  kbswpcad   %swpcad\n"
    );
}

#[test]
fn bits_are_counted() {
    let mut b = Bitmap { bytes: vec![0b1010_0001, 0, 0xff] };
    assert_eq!(b.count_bits(), 11);
    b.set_all();
    assert_eq!(b.count_bits(), 24);
    let o = options();
    assert_eq!(o.print.cpu_bitmap.count_bits(), 8);
    assert_eq!(o.print.irq_bitmap.count_bits(), 16);
    assert_eq!(o.activities.len(), 37);
    assert_eq!(o.mem_outputs(), vec![MemOutput::Dia, MemOutput::Amt, MemOutput::Swap]);
    let o = El7Options { mem_amt: false, mem_dia: false, ..options() };
    assert_eq!(o.mem_outputs(), vec![MemOutput::Swap]);
}

#[test]
fn records_are_indexed() {
    let raw = |kind: RecordKind, jiffies: Option<(u64, u64)>, cs: Option<u64>| El7Record {
        kind,
        time: time((1, 2, 3)),
        uptime_jiffies: jiffies,
        uptime_cs: cs,
        comment: Some(b"x".to_vec()),
        unplanned: vec![ActivityId::QUEUE],
    };
    let recs = index_records(&vec![
        raw(RecordKind::Restart, None, None),
        raw(RecordKind::Extra(7), Some((1, 2)), None),
        raw(RecordKind::Stats, Some((400, 100)), Some(9)),
        raw(RecordKind::Invalid(9), None, None),
        raw(RecordKind::LastStats, None, Some(9)),
        raw(RecordKind::Comment, None, None),
    ]);
    let got: Vec<(Kind, u64, u64)> = recs.iter().map(|r| (r.kind, r.uptime, r.uptime0)).collect();
    assert_eq!(
        got,
        vec![
            (Kind::Restart, 0, 0),
            (Kind::Stats, 400, 100),
            (Kind::Stats, 0, 9),
            (Kind::Comment, 0, 0),
        ]
    );
    assert_eq!(recs[3].comment, b"x".to_vec());
    assert_eq!(recs[3].unplanned, vec![ActivityId::QUEUE]);
}

#[test]
fn comments_end_at_a_zero_byte_and_at_their_limit() {
    let text = |b: &[u8]| {
        let raw = El7Record {
            kind: RecordKind::Comment,
            time: time((1, 2, 3)),
            uptime_jiffies: None,
            uptime_cs: None,
            comment: Some(b.to_vec()),
            unplanned: Vec::new(),
        };
        index_records(&vec![raw]).remove(0).comment
    };
    assert_eq!(text(b"hello\0\0rest"), b"hello".to_vec());
    assert_eq!(text(&[b'x'; 100]), vec![b'x'; 63]);
    assert_eq!(text(&[b'y'; 63]), vec![b'y'; 63]);
    assert_eq!(text(b""), Vec::<u8>::new());
}

#[test]
fn times_of_records_follow_the_style() {
    let t = time((1, 2, 3));
    assert_eq!(rectime(&t, TimeStyle::Recorded), Some(RecTime { hour: 1, min: 2, sec: 3 }));
    // 1 600 003 723 s after the epoch.
    assert_eq!(rectime(&t, TimeStyle::Utc), Some(RecTime { hour: 13, min: 28, sec: 43 }));
    assert_eq!(rectime(&t, TimeStyle::Local), Some(RecTime { hour: 21, min: 26, sec: 40 }));
    let never = RecordTime { ust_time: u64::MAX, ..t };
    assert_eq!(rectime(&never, TimeStyle::Utc), None);
    assert_eq!(rectime(&never, TimeStyle::Recorded), Some(RecTime { hour: 1, min: 2, sec: 3 }));
}

#[test]
fn restarts_and_comments_are_shown() {
    let o = options();
    assert_eq!(
        show(&print_special(&restart((1, 2, 3)), &o)),
        "\n01:02:03          LINUX RESTART\n"
    );
    assert_eq!(
        show(&print_special(&comment((1, 2, 3), "hello"), &o)),
        "01:02:03     COM hello\n"
    );
}

#[test]
fn other_formats_have_no_report() {
    let f = El7File { format_magic: 0x2175, ..file(vec![activity(ActivityId::CPU, 5)], vec![]) };
    assert_eq!(plan_report(&f, &options()), Err(El7Error::Format(0x2175)));
    assert!(matches!(write_report(&f, &options(), &vec![]), Err(El7Error::Format(0x2175))));
}

#[test]
fn files_without_cpu_statistics_have_no_report() {
    let f = file(vec![activity(ActivityId::QUEUE, 1)], vec![]);
    assert_eq!(plan_report(&f, &options()), Err(El7Error::NoCpu));
    let unreadable = FileActivity { readable: false, ..activity(ActivityId::CPU, 5) };
    assert_eq!(plan_report(&file(vec![unreadable], vec![]), &options()), Err(El7Error::NoCpu));
}

#[test]
fn files_without_the_activities_asked_for_have_no_report() {
    let f = file(vec![activity(ActivityId::CPU, 5)], vec![]);
    let o = El7Options { activities: vec![ActivityId::QUEUE], ..options() };
    assert_eq!(plan_report(&f, &o), Err(El7Error::NotInFile));
}

fn two_stretches() -> El7File {
    file(
        vec![activity(ActivityId::CPU, 5), activity(ActivityId::QUEUE, 1)],
        vec![
            restart((0, 0, 0)),
            stats((0, 0, 1), 1_000),
            stats((0, 10, 1), 61_000),
            comment((0, 11, 0), "note"),
            stats((0, 20, 1), 121_000),
            restart((0, 21, 0)),
            stats((0, 30, 1), 1_000),
        ],
    )
}

#[test]
fn a_stretch_is_passed_once_for_each_activity() {
    let o = El7Options { activities: vec![ActivityId::CPU, ActivityId::QUEUE], ..options() };
    let f = two_stretches();
    let steps = plan_report(&f, &o).unwrap();
    let sample = |id, rec, prev, header, span| Step::Sample {
        id,
        mem: MemOutput::Amt,
        rec,
        prev,
        header,
        span,
    };
    let average = |id, span| Step::Average {
        id,
        mem: MemOutput::Amt,
        first: 1,
        last: 4,
        count: 2,
        header: false,
        span,
    };
    let (cpu, queue) = (ActivityId::CPU, ActivityId::QUEUE);
    assert_eq!(
        steps,
        vec![
            Step::Special { rec: 0 },
            sample(cpu, 2, 1, true, Span { from: 4_000, to: 244_000 }),
            Step::Special { rec: 3 },
            sample(cpu, 4, 2, false, Span { from: 244_000, to: 484_000 }),
            average(cpu, Span { from: 4_000, to: 484_000 }),
            sample(queue, 2, 1, true, Span { from: 1_000, to: 61_000 }),
            Step::Special { rec: 3 },
            sample(queue, 4, 2, false, Span { from: 61_000, to: 121_000 }),
            average(queue, Span { from: 1_000, to: 121_000 }),
            Step::Special { rec: 5 },
        ]
    );
}

#[test]
fn a_report_has_a_banner_headings_and_lines() {
    let o = El7Options { activities: vec![ActivityId::QUEUE], ..options() };
    let line = |v: u64| vec![Row { label: Label::Nothing, cells: vec![Cell::U9(v)], tail: Tail::Nothing }];
    let rows = vec![line(1), line(2), line(3)];
    let text = show(&write_report(&two_stretches(), &o, &rows).unwrap());
    let lines: Vec<&str> = text.lines().collect();
    assert!(lines[0].starts_with("Linux 3.10.0 (host) \t"), "{text}");
    assert!(lines[0].ends_with("\t_x86_64_\t(4 CPU)"), "{text}");
    assert_eq!(lines[2], "00:00:00          LINUX RESTART");
    assert_eq!(lines[3], "");
    assert!(lines[4].starts_with("00:00:01      runq-sz"), "{text}");
    assert_eq!(lines[5], "00:10:01            1");
    assert_eq!(lines[6], "00:11:00     COM note");
    assert_eq!(lines[7], "00:20:01            2");
    assert_eq!(lines[8], "Average:            3");
    assert_eq!(lines[9], "");
    assert_eq!(lines[10], "00:21:00          LINUX RESTART");
    assert_eq!(lines.len(), 11);
    // Parts without lines are left out.
    let steps = plan_report(&two_stretches(), &o).unwrap();
    let bare = show(&render_steps(&two_stretches().recs, &o, &steps, &vec![]));
    assert!(!bare.contains("00:10:01"), "{bare}");
}

#[test]
fn the_count_ends_a_pass() {
    let o = El7Options { activities: vec![ActivityId::QUEUE], count: 1, ..options() };
    let f = two_stretches();
    let c = PassSetup {
        recs: &f.recs,
        opts: &o,
        id: ActivityId::QUEUE,
        mem: MemOutput::Amt,
        first: 1,
        inc: 1,
        cpu_nr: 5,
    };
    let start = Shared {
        cross_day: false,
        last_uptime: 0,
        rt: RecTime { hour: 0, min: 0, sec: 0 },
    };
    let (end, shared, steps) = handle_pass(&c, start);
    assert_eq!((end.pos, end.eosaf, end.restart, end.cnt), (3, false, false, 0));
    assert_eq!(shared.last_uptime, 61_000);
    assert_eq!(steps.len(), 2);
    assert!(matches!(steps[1], Step::Average { count: 1, first: 1, last: 2, .. }));
}

#[test]
fn the_time_range_bounds_what_is_shown() {
    let o = El7Options {
        activities: vec![ActivityId::QUEUE],
        tm_start: Some(Tstamp { hour: 0, min: 0, sec: 1 }),
        tm_end: Some(Tstamp { hour: 0, min: 15, sec: 0 }),
        ..options()
    };
    let steps = plan_report(&two_stretches(), &o).unwrap();
    let samples: Vec<usize> = steps
        .iter()
        .filter_map(|s| match s {
            Step::Sample { rec, .. } => Some(*rec),
            _ => None,
        })
        .collect();
    assert_eq!(samples, vec![2]);
    assert!(!steps.contains(&Step::Special { rec: 0 }));
}

#[test]
fn midnight_moves_the_time_range_to_the_next_day() {
    let day = 86_400;
    let mut late = stats((23, 55, 0), 1_000);
    let mut shown = stats((0, 5, 0), 61_000);
    let mut out = stats((0, 45, 0), 301_000);
    late.time.ust_time = 1_600_000_000;
    shown.time.ust_time = 1_600_000_600;
    out.time.ust_time = 1_600_000_000 + day;
    let f = file(
        vec![activity(ActivityId::CPU, 5), activity(ActivityId::QUEUE, 1)],
        vec![late, shown, out],
    );
    let o = El7Options {
        activities: vec![ActivityId::QUEUE],
        tm_start: Some(Tstamp { hour: 23, min: 0, sec: 0 }),
        tm_end: Some(Tstamp { hour: 24, min: 30, sec: 0 }),
        ..options()
    };
    let steps = plan_report(&f, &o).unwrap();
    assert_eq!(steps.len(), 2);
    assert!(matches!(steps[0], Step::Sample { rec: 1, prev: 0, .. }));
}

#[test]
fn the_banner_has_the_date_that_was_asked_for() {
    let f = two_stretches();
    let line = |o: &El7Options| {
        show(&write_report(&f, o, &vec![]).unwrap()).lines().next().unwrap().to_string()
    };
    assert!(line(&options()).contains(" \t09/13/20 \t_x86_64_"));
    let iso = El7Options { date: Some("2020-09-13".to_string()), ..options() };
    assert!(line(&iso).contains(" \t2020-09-13 \t_x86_64_"));
}

#[test]
fn an_activity_that_cannot_be_read_ends_the_report() {
    let mut f = two_stretches();
    f.recs[1].unplanned = vec![ActivityId::QUEUE];
    let o = El7Options { activities: vec![ActivityId::CPU, ActivityId::QUEUE], ..options() };
    let steps = plan_report(&f, &o).unwrap();
    assert_eq!(steps.len(), 5);
    assert!(steps.iter().all(|s| !matches!(s, Step::Sample { id: ActivityId::QUEUE, .. })));
    assert!(!steps.contains(&Step::Special { rec: 5 }));
    // At a later record it makes no difference.
    let mut f = two_stretches();
    f.recs[2].unplanned = vec![ActivityId::QUEUE];
    assert_eq!(plan_report(&f, &o).unwrap().len(), 10);
}

#[test]
fn any_number_of_rows_is_accepted() {
    let o = El7Options { activities: vec![ActivityId::QUEUE], rows: u64::MAX, ..options() };
    assert_eq!(plan_report(&two_stretches(), &o).unwrap().len(), 6);
    // With one row, each sample has headings.
    let o = El7Options { activities: vec![ActivityId::QUEUE], rows: 1, ..options() };
    let steps = plan_report(&two_stretches(), &o).unwrap();
    let headed = steps.iter().filter(|s| matches!(s, Step::Sample { header: true, .. })).count();
    assert_eq!(headed, 2);
}
