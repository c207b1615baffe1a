//! The formats for other programs, part by part.

use resarch::clock::{Civil, RecordTime};
use resarch::doc::{Doc, Form, Piece, Slot};
use resarch::model::{ActivityId, Availability, ComputeIssue, Discontinuity};
use resarch::sadf::config::SadfConfig;
use resarch::sadf::dbppc::{display_cpu_count, write_comment, write_field_list, write_restart};
use resarch::sadf::file::FileActivityEntry;
use resarch::sadf::header::write_activity_line;
use resarch::sadf::json;
use resarch::sadf::json::{flush_group, group_tab};
use resarch::sadf::logic1;
use resarch::sadf::logic1::Entry;
use resarch::sadf::logic2::{is_persistent, ActState};
use resarch::sadf::range::stretches;
use resarch::sadf::raw::{is_decrease, join_tokens, raw_fields, u64_token, write_record_header};
use resarch::sadf::records::{printable, DebugIndex, Rec, RecHeader, RecKind, RecordIndex};
use resarch::sadf::render::bat_status;
use resarch::sadf::select::{next_slice, RecordSelect, Slicer};
use resarch::sadf::stamp::{
    interval_secs, local_tz_name, shift_to_recorded, zone_label, FileInfo, Stamp, TimeBase,
};
use resarch::sadf::table::{
    all_specs, in_id_order, lookup, Fmt, Group, ItemKind, RawSpec, RawStyle, SectionConfig,
};
use resarch::sadf::value::{
    write_value, ItemLabel, Shown, Unavailable, ABSENT_JSON, ABSENT_TEXT,
};
use resarch::sadf::xml;
use resarch::sadf::xml::XML_DTD_VERSION;

/// A document as it is printed.
fn show(doc: &Doc) -> String {
    let mut out = String::new();
    for piece in &doc.pieces {
        match piece {
            Piece::Text(s) => out.push_str(s),
            Piece::Bytes(b) => out.push_str(&String::from_utf8_lossy(b)),
            Piece::Number(n) => out.push_str(&number(n)),
            Piece::Average(m, form, width) => {
                let sum: f64 = m.summands.iter().map(|b| f64::from_bits(*b)).sum();
                let bits = (sum / m.count as f64).to_bits();
                out.push_str(&number(&Slot { bits, form: *form, width: *width }));
            }
        }
    }
    out
}

fn whole(x: f64) -> u64 {
    if x <= 0.0 {
        0
    } else {
        x as u64
    }
}

fn count(x: f64) -> u64 {
    if x.is_finite() {
        whole(x)
    } else {
        0
    }
}

fn number(n: &Slot) -> String {
    let x = f64::from_bits(n.bits);
    let text = match n.form {
        Form::Fixed { decimals, divisor, sign } => {
            let v = x / f64::from(divisor);
            let d = usize::from(decimals);
            if sign {
                format!("{v:+.d$}")
            } else {
                format!("{v:.d$}")
            }
        }
        Form::Whole { divisor } => format!("{}", whole(x / f64::from(divisor))),
        Form::Hex => format!("{:x}", whole(x)),
        Form::Count => format!("{}", count(x)),
        Form::CountHex => format!("{:x}", count(x)),
        Form::CFixed { decimals } => {
            let d = usize::from(decimals);
            if x.is_nan() {
                if x.is_sign_negative() { "-nan".to_string() } else { "nan".to_string() }
            } else if x.is_infinite() {
                if x > 0.0 { "inf".to_string() } else { "-inf".to_string() }
            } else {
                format!("{x:.d$}")
            }
        }
        Form::Scaled { unit, decimals } => {
            let letters: Vec<char> = "sBkMGTP?".chars().collect();
            let mut v = x;
            let mut i = unit.index();
            while v >= 1024.0 {
                v /= 1024.0;
                i += 1;
            }
            let d = usize::from(decimals);
            let letter = letters[i.min(letters.len() - 1)];
            return format!("{v:>w$.d$}{letter}", w = n.width.saturating_sub(1));
        }
    };
    format!("{text:>w$}", w = n.width)
}

fn epoch() -> Civil {
    Civil { year: 1970, month: 1, day: 1, hour: 0, minute: 0, second: 0 }
}

fn at(ust_time: u64, hms: (u8, u8, u8)) -> RecordTime {
    RecordTime { ust_time, hour: hms.0, minute: hms.1, second: hms.2, local: epoch() }
}

fn dummy_info() -> FileInfo {
    FileInfo {
        nodename: "testhost".to_string(),
        sysname: "Linux".to_string(),
        release: "5.0.0".to_string(),
        machine: "x86_64".to_string(),
        cpu_count: 8,
        file_date: "2019-04-18".to_string(),
        file_utc_time: "13:20:09".to_string(),
        ust_time: 1_555_593_609,
        tzname: String::new(),
        local_tz: "+00:00".to_string(),
    }
}

fn default_cfg() -> SadfConfig {
    SadfConfig::default()
}

// ---- time stamps ----

#[test]
fn interval_rounds_at_half_a_second() {
    assert_eq!(interval_secs(3117), 31);
    assert_eq!(interval_secs(3150), 32);
    assert_eq!(interval_secs(3149), 31);
    assert_eq!(interval_secs(0), 0);
}

#[test]
fn epoch_stamp_has_no_date_or_tz() {
    let info = dummy_info();
    let s = Stamp::new(TimeBase::SecEpoch, &at(1_555_593_639, (13, 20, 39)), &info);
    assert_eq!(s.dbppc(), "1555593639");
    assert!(s.date.is_empty());
    assert!(s.tz.is_empty());
    assert_eq!(s.raw(), "1555593639");
    assert_eq!(s.raw_event(), "1555593639");
}

#[test]
fn utc_stamp_matches_documented_example() {
    let info = dummy_info();
    let s = Stamp::new(TimeBase::Utc, &at(1_555_593_619, (15, 20, 19)), &info);
    assert_eq!(s.dbppc(), "2019-04-18 13:20:19 UTC");
    assert_eq!(s.raw(), "13:20:19 UTC");
}

#[test]
fn true_time_uses_recorded_local_clock() {
    let mut info = dummy_info();
    info.tzname = "CET".to_string();
    let s = Stamp::new(TimeBase::TrueTime, &at(1_555_593_619, (15, 20, 19)), &info);
    assert_eq!(s.dbppc(), "2019-04-18 15:20:19 CET");
}

#[test]
fn true_time_without_tzname_keeps_separator() {
    let info = dummy_info();
    let s = Stamp::new(TimeBase::TrueTime, &at(1_555_593_619, (13, 20, 19)), &info);
    assert_eq!(s.dbppc(), "2019-04-18 13:20:19 ");
    assert_eq!(s.raw(), "13:20:19");
    assert_eq!(s.raw_event(), "13:20:19 ");
}

#[test]
fn true_time_handles_day_rollover() {
    let mut info = dummy_info();
    info.tzname = "JST".to_string();
    let s = Stamp::new(TimeBase::TrueTime, &at(1_555_630_200, (8, 30, 0)), &info);
    assert_eq!(s.dbppc(), "2019-04-19 08:30:00 JST");
}

#[test]
fn recorded_seconds_fall_on_the_recorded_time_of_day() {
    // One second past the epoch, at a machine two hours behind: cut off at the epoch.
    assert_eq!(shift_to_recorded(&at(1, (22, 0, 1))), 0);
    // Half a day ahead counts as ahead.
    assert_eq!(shift_to_recorded(&at(86_400, (12, 0, 0))), 86_400 + 43_200);
    // A second more counts as behind.
    assert_eq!(shift_to_recorded(&at(86_400, (12, 0, 1))), 43_201);
    for (t, hms) in [(1_555_593_619u64, (3u8, 4u8, 5u8)), (1_600_000_000, (23, 59, 59))] {
        let r = shift_to_recorded(&at(t, hms));
        let want = u64::from(hms.0) * 3600 + u64::from(hms.1) * 60 + u64::from(hms.2);
        assert_eq!(r % 86_400, want);
    }
}

#[test]
fn local_stamp_shows_the_local_date_and_zone() {
    let mut info = dummy_info();
    info.local_tz = "CEST".to_string();
    let t = RecordTime {
        local: Civil { year: 2019, month: 4, day: 18, hour: 15, minute: 20, second: 19 },
        ..at(1_555_593_619, (1, 2, 3))
    };
    let s = Stamp::new(TimeBase::LocalTime, &t, &info);
    assert_eq!(s.dbppc(), "2019-04-18 15:20:19 CEST");
}

#[test]
fn zone_names_come_from_the_zone_tables() {
    // January and July 2021.
    assert_eq!(local_tz_name(Some("Europe/Paris"), 1_610_000_000, "+01:00"), "CET");
    assert_eq!(local_tz_name(Some("Europe/Paris"), 1_625_500_000, "+02:00"), "CEST");
    assert_eq!(local_tz_name(Some("Asia/Tokyo"), 1_610_000_000, "+09:00"), "JST");
    assert_eq!(local_tz_name(Some("no such zone"), 1_610_000_000, "+09:00"), "+09:00");
    assert_eq!(local_tz_name(None, 1_610_000_000, "+09:00"), "+09:00");
    assert_eq!(local_tz_name(Some("Asia/Tokyo"), i64::MAX, "+09:00"), "+09:00");
    assert_eq!(zone_label(Some("JST".to_string()), "+09:00"), "JST");
    assert_eq!(zone_label(None, "+09:00"), "+09:00");
}

#[test]
fn dates_of_points_in_time() {
    let info = dummy_info();
    for (t, want) in [
        (0u64, "1970-01-01 00:00:00 UTC"),
        (951_782_399, "2000-02-28 23:59:59 UTC"),
        (951_782_400, "2000-02-29 00:00:00 UTC"),
        (4_107_542_400, "2100-03-01 00:00:00 UTC"),
        (u64::MAX, "1969-12-31 23:59:59 UTC"),
        // Out of the range of dates: the epoch stands in.
        (i64::MAX as u64, "1970-01-01 00:00:00 UTC"),
    ] {
        assert_eq!(Stamp::new(TimeBase::Utc, &at(t, (0, 0, 0)), &info).dbppc(), want);
    }
    let t = RecordTime::read(951_782_400, 1, 2, 3);
    assert_eq!((t.ust_time, t.hour, t.minute, t.second), (951_782_400, 1, 2, 3));
    assert_eq!((t.local.year, t.local.month), (2000, 2));
    // Without a date, the local date is that of the epoch.
    let never = RecordTime::read(i64::MAX as u64, 1, 2, 3);
    assert_eq!(never.local, RecordTime::read(0, 0, 0, 0).local);
}

// ---- labels and values ----

#[test]
fn item_labels_differ_per_format() {
    let all = ItemLabel::cpu(0);
    assert_eq!((all.ppc.as_str(), all.db.as_str(), all.jx.as_str()), ("all", "-1", "all"));
    let c3 = ItemLabel::cpu(4);
    assert_eq!((c3.ppc.as_str(), c3.db.as_str(), c3.jx.as_str()), ("cpu3", "3", "3"));
    assert_eq!(ItemLabel::none().ppc, "-");
    let n = ItemLabel::named("eth0");
    assert_eq!((n.ppc.as_str(), n.db.as_str(), n.jx.as_str()), ("eth0", "eth0", "eth0"));
    let t = ItemLabel::numbered("ttyS", 7);
    assert_eq!((t.ppc.as_str(), t.db.as_str(), t.jx.as_str()), ("ttyS7", "7", "7"));
    let f = ItemLabel::counted("fan", u64::MAX, 1);
    assert_eq!(f.db, "18446744073709551616");
}

fn value_text(v: Result<u64, ComputeIssue>, fmt: Fmt, absent: &str) -> String {
    let mut doc = Doc::new();
    write_value(&mut doc, v, fmt, absent);
    show(&doc)
}

#[test]
fn integer_format_truncates_like_c_cast() {
    assert_eq!(value_text(Ok(1283.99f64.to_bits()), Fmt::Int, ABSENT_TEXT), "1283");
    assert_eq!(value_text(Ok((-5.0f64).to_bits()), Fmt::Int, ABSENT_TEXT), "0");
}

#[test]
fn rounded_format_has_no_decimal_point() {
    assert_eq!(value_text(Ok(272.6f64.to_bits()), Fmt::R0, ABSENT_TEXT), "273");
}

#[test]
fn absent_values_are_not_zero() {
    assert_eq!(value_text(Err(ComputeIssue::NotImplemented), Fmt::R2, ABSENT_TEXT), "");
    assert_eq!(value_text(Err(ComputeIssue::NotImplemented), Fmt::R2, ABSENT_JSON), "null");
    for issue in [
        ComputeIssue::MissingInSample,
        ComputeIssue::Discontinuous(Discontinuity::Restart),
        ComputeIssue::NeedsItemGroup,
    ] {
        assert_eq!(value_text(Err(issue), Fmt::R2, ABSENT_JSON), "null", "{issue:?}");
    }
}

#[test]
fn unsupported_by_source_is_zero_filled_like_upstream() {
    let cases = [(Fmt::R2, "0.00"), (Fmt::R0, "0"), (Fmt::Int, "0"), (Fmt::Hex, "0")];
    for (fmt, want) in cases {
        let issue = ComputeIssue::UnsupportedBySource;
        assert_eq!(value_text(Err(issue), fmt, ABSENT_TEXT), want, "{fmt:?}");
        assert_eq!(value_text(Err(issue), fmt, ABSENT_JSON), want, "{fmt:?} (JSON)");
    }
}

#[test]
fn values_take_the_form_of_their_field() {
    assert_eq!(value_text(Ok(1283.99f64.to_bits()), Fmt::Int, ""), "1283");
    assert_eq!(value_text(Ok((-5.0f64).to_bits()), Fmt::Int, ""), "0");
    assert_eq!(value_text(Ok(272.6f64.to_bits()), Fmt::R0, ""), "273");
    assert_eq!(value_text(Ok(1.005f64.to_bits()), Fmt::R2, ""), "1.00");
    assert_eq!(value_text(Ok(1008.0f64.to_bits()), Fmt::Hex, ""), "3f0");
    assert_eq!(value_text(Ok(1.0f64.to_bits()), Fmt::Str, ""), "");
}

#[test]
fn reasons_have_words() {
    let words: Vec<&str> = [
        ComputeIssue::UnsupportedBySource,
        ComputeIssue::MissingInSample,
        ComputeIssue::Discontinuous(Discontinuity::Restart),
        ComputeIssue::Discontinuous(Discontinuity::ItemReplaced),
        ComputeIssue::NotNumeric,
        ComputeIssue::NeedsItemGroup,
        ComputeIssue::NotImplemented,
    ]
    .into_iter()
    .map(|i| Unavailable(i).label())
    .collect();
    assert_eq!(
        words,
        vec![
            "unsupported_by_source",
            "missing_in_sample",
            "restart",
            "item_replaced",
            "not_numeric",
            "needs_item_group",
            "not_implemented",
        ]
    );
}

#[test]
fn battery_status_names_match_upstream_table() {
    assert_eq!(bat_status(0), "Unknown");
    assert_eq!(bat_status(1), "Charging");
    assert_eq!(bat_status(2), "Discharging");
    assert_eq!(bat_status(3), "NotCharging");
    assert_eq!(bat_status(4), "Full");
    assert_eq!(bat_status(99), "UNDEFINED");
}

// ---- the flat formats ----

#[test]
fn field_list_line_matches_upstream() {
    let cpu = lookup(ActivityId::CPU).unwrap();
    let cfg = default_cfg();
    let section = cpu.active_sections(&cfg.section)[0];
    assert_eq!(
        write_field_list(&cfg, section),
        "# hostname;interval;timestamp;CPU;%usr;%nice;%sys;%iowait;%steal;%irq;%soft;%guest;%gnice;%idle\n"
    );
}

#[test]
fn pcsw_field_list_line() {
    let pcsw = lookup(ActivityId::PCSW).unwrap();
    assert_eq!(
        write_field_list(&default_cfg(), &pcsw.sections[0]),
        "# hostname;interval;timestamp;proc/s;cswch/s\n"
    );
}

#[test]
fn irq_field_list_keeps_star() {
    let irq = lookup(ActivityId::IRQ).unwrap();
    assert_eq!(
        write_field_list(&default_cfg(), &irq.sections[0]),
        "# hostname;interval;timestamp;INTR;CPU*\n"
    );
}

#[test]
fn fs_field_list_switches_on_mount() {
    let fs = lookup(ActivityId::FS).unwrap();
    let mut cfg = default_cfg();
    let line = write_field_list(&cfg, fs.active_sections(&cfg.section)[0]);
    assert!(line.contains(";FILESYSTEM;"));

    cfg.section.fs_mount = true;
    let line = write_field_list(&cfg, fs.active_sections(&cfg.section)[0]);
    assert!(line.contains(";MOUNTPOINT;"));
}

#[test]
fn restart_line_uses_literal_tab() {
    let cfg = default_cfg();
    let t = at(1_555_594_649, (13, 37, 29));
    assert_eq!(
        write_restart(&cfg, &dummy_info(), &t, Some(10), true),
        "testhost;-1;2019-04-18 13:37:29 UTC;LINUX-RESTART\t(9 CPU)\n"
    );
    assert_eq!(
        write_restart(&cfg, &dummy_info(), &t, Some(10), false),
        "testhost\t-1\t2019-04-18 13:37:29 UTC\tLINUX-RESTART\t(9 CPU)\n"
    );
}

#[test]
fn restart_line_keeps_the_tz_separator_under_true_time() {
    let mut cfg = default_cfg();
    cfg.time_base = TimeBase::TrueTime;
    let t = at(1_555_594_649, (13, 37, 29));
    assert_eq!(
        write_restart(&cfg, &dummy_info(), &t, Some(10), true),
        "testhost;-1;2019-04-18 13:37:29 ;LINUX-RESTART\t(9 CPU)\n"
    );
}

#[test]
fn comment_line_holds_the_text() {
    let mut r = rec(RecKind::Comment);
    r.time = at(1_555_594_649, (13, 37, 29));
    r.comment = Some("a;b".to_string());
    assert_eq!(
        write_comment(&default_cfg(), &dummy_info(), &r, true),
        "testhost;-1;2019-04-18 13:37:29 UTC;COM a;b\n"
    );
    r.comment = None;
    assert_eq!(
        write_comment(&default_cfg(), &dummy_info(), &r, false),
        "testhost\t-1\t2019-04-18 13:37:29 UTC\tCOM \n"
    );
}

#[test]
fn cpu_count_subtracts_the_aggregate_slot() {
    assert_eq!(display_cpu_count(Some(9)), 8);
    assert_eq!(display_cpu_count(Some(1)), 1);
    assert_eq!(display_cpu_count(None), 1);
}

#[test]
fn act_order_puts_hugepages_after_memory() {
    let specs = all_specs();
    let pos = |id| specs.iter().position(|s| s.id == id).unwrap();
    assert_eq!(pos(ActivityId::HUGE), pos(ActivityId::MEMORY) + 1);
    assert!(pos(ActivityId::HUGE) < pos(ActivityId::NET_DEV));
    assert!(pos(ActivityId::PWR_USB) < pos(ActivityId::FS));
}

// ---- the description of a file ----

fn entry(id: ActivityId, magic: u32, current: Option<u32>) -> FileActivityEntry {
    FileActivityEntry {
        id,
        magic,
        nr: 9,
        nr2: 1,
        size: 80,
        has_nr: true,
        types_nr: Some([10, 0, 0]),
        current_magic: current,
        displayed: true,
    }
}

#[test]
fn activity_line_matches_upstream_layout() {
    let e = entry(ActivityId::CPU, 0x8b, Some(0x8b));
    assert_eq!(write_activity_line(&e), "01: [8b] A_CPU                Y:   9\t(10,0,0)\n");
}

#[test]
fn nr2_suffix_only_when_greater_than_one() {
    let e = FileActivityEntry {
        nr: 10,
        nr2: 44,
        size: 12,
        types_nr: Some([0, 0, 1]),
        ..entry(ActivityId::IRQ, 0x8c, Some(0x8c))
    };
    assert_eq!(write_activity_line(&e), "03: [8c] A_IRQ                Y:  10x44\t(0,0,1)\n");
}

#[test]
fn stale_magic_appends_marker_with_space_then_tab() {
    let e = FileActivityEntry {
        nr: 489,
        size: 8,
        types_nr: Some([1, 0, 0]),
        ..entry(ActivityId::IRQ, 0x8b, Some(0x8c))
    };
    assert_eq!(
        write_activity_line(&e),
        "03: [8b] A_IRQ                Y: 489\t(1,0,0) \t[Unknown format]\n"
    );
    let e = FileActivityEntry { magic: 0x8c, ..e };
    assert!(!write_activity_line(&e).contains("[Unknown format]"));
}

#[test]
fn unknown_activity_name() {
    let e = FileActivityEntry {
        nr: 1,
        size: 8,
        has_nr: false,
        types_nr: Some([0, 1, 0]),
        ..entry(ActivityId::Unknown(200), 0x01, None)
    };
    let s = write_activity_line(&e);
    assert!(s.starts_with("200: [01] Unknown activity     N:   1\t(0,1,0)"));
    assert!(s.contains("[Unknown format]"));
}

// ---- JSON ----

#[test]
fn indent_depth_matches_upstream() {
    assert_eq!(group_tab(Group::Ungrouped), 5);
    assert_eq!(group_tab(Group::Network), 6);
    assert_eq!(group_tab(Group::PowerManagement), 6);
    assert_eq!(group_tab(Group::Psi), 6);
}

#[test]
fn group_wrapper_sits_at_tab_five() {
    let mut entries: Vec<Doc> = Vec::new();
    let mut children = vec![Doc::of("\t\t\t\t\t\t\"psi-cpu\": {}")];
    flush_group(&mut entries, Group::Psi, &mut children);
    assert_eq!(entries.len(), 1);
    let text = show(&entries[0]);
    assert!(text.starts_with("\t\t\t\t\t\"psi\": {\n"));
    assert!(text.ends_with("\n\t\t\t\t\t}"));
    assert!(children.is_empty());
}

#[test]
fn empty_group_emits_nothing() {
    let mut entries: Vec<Doc> = Vec::new();
    let mut children: Vec<Doc> = Vec::new();
    flush_group(&mut entries, Group::Network, &mut children);
    assert!(entries.is_empty());
}

#[test]
fn json_escaping_protects_the_document() {
    assert_eq!(json::esc("a\"b\\c"), "a\\\"b\\\\c");
    assert_eq!(json::esc("x\ty"), "x\\ty");
    assert_eq!(json::esc("l1\nl2\rl3\u{1}\u{1f}z"), "l1\\nl2\\rl3\\u0001\\u001fz");
    assert_eq!(json::esc("\u{e9}\u{2197}"), "\u{e9}\u{2197}");
}

#[test]
fn filesystem_keys_keep_percent_sign() {
    let fs = lookup(ActivityId::FS).unwrap();
    let keys: Vec<_> = fs.sections[0].fields.iter().map(|f| f.key).collect();
    assert!(keys.contains(&"%fsused"));
    assert!(keys.contains(&"%ufsused"));
    assert!(keys.contains(&"%Iused"));
    assert!(keys.contains(&"filesystem"));
}

#[test]
fn json_and_xml_names_differ_where_documented() {
    let attr = |id: ActivityId, key: &str| {
        let s = lookup(id).unwrap();
        s.sections[0].fields.iter().find(|f| f.key == key).unwrap().attr
    };
    assert_eq!(attr(ActivityId::FS, "%fsused"), "fsused-percent");
    assert_eq!(attr(ActivityId::DISK, "disk-device"), "dev");
    assert_eq!(attr(ActivityId::NET_FC, "fchost"), "name");
    assert_eq!(attr(ActivityId::CPU, "cpu"), "number");
}

#[test]
fn fan_rpm_is_integer_in_json_but_float_in_db() {
    let fan = lookup(ActivityId::PWR_FAN).unwrap();
    let rpm = fan.sections[0].fields.iter().find(|f| f.key == "rpm").unwrap();
    assert_eq!(rpm.jx_fmt, Fmt::Int);
    assert_eq!(rpm.dp_fmt, Fmt::R2);
}

#[test]
fn only_socket_counters_are_integers() {
    for id in [ActivityId::NET_SOCK, ActivityId::NET_SOCK6] {
        let s = lookup(id).unwrap();
        assert!(s.sections[0].fields.iter().all(|f| f.jx_fmt == Fmt::Int));
    }
    let tcp = lookup(ActivityId::NET_TCP).unwrap();
    assert!(tcp.sections[0].fields.iter().all(|f| f.jx_fmt == Fmt::R2));
}

#[test]
fn softnet_backlog_is_the_only_integer() {
    let s = lookup(ActivityId::NET_SOFT).unwrap();
    let ints: Vec<_> = s.sections[0]
        .fields
        .iter()
        .filter(|f| f.jx_fmt == Fmt::Int)
        .map(|f| f.key)
        .collect();
    assert_eq!(ints, vec!["blg_len"]);
}

#[test]
fn sensor_numbering_base_differs() {
    assert!(matches!(
        lookup(ActivityId::PWR_IN).unwrap().item,
        ItemKind::Index { base: 0, .. }
    ));
    assert!(matches!(
        lookup(ActivityId::PWR_FAN).unwrap().item,
        ItemKind::Index { base: 1, .. }
    ));
    assert!(matches!(
        lookup(ActivityId::PWR_TEMP).unwrap().item,
        ItemKind::Index { base: 1, .. }
    ));
}

// ---- XML ----

#[test]
fn dtd_version_is_fixed() {
    assert_eq!(XML_DTD_VERSION, "3.18");
}

#[test]
fn xml_escaping_protects_the_document() {
    assert_eq!(xml::esc("a<b&c\""), "a&lt;b&amp;c&quot;");
    assert_eq!(xml::esc("'>"), "&apos;&gt;");
}

#[test]
fn memory_wrapper_declares_unit() {
    assert_eq!(lookup(ActivityId::MEMORY).unwrap().xml_wrapper_attrs, " unit=\"kB\"");
    assert_eq!(lookup(ActivityId::HUGE).unwrap().xml_wrapper_attrs, " unit=\"kB\"");
}

#[test]
fn sensor_wrappers_declare_documented_units() {
    let u = |id| lookup(id).unwrap().xml_wrapper_attrs;
    assert_eq!(u(ActivityId::PWR_FAN), " unit=\"rpm\"");
    assert_eq!(u(ActivityId::PWR_TEMP), " unit=\"degree Celsius\"");
    assert_eq!(u(ActivityId::PWR_IN), " unit=\"V\"");
    assert_eq!(u(ActivityId::PWR_CPU), " unit=\"MHz\"");
    assert_eq!(u(ActivityId::PWR_FREQ), " unit=\"MHz\"");
    assert_eq!(u(ActivityId::PWR_BAT), " unit=\"minute\"");
}

#[test]
fn group_wrapper_attributes() {
    assert_eq!(Group::Network.xml_attrs(), " per=\"second\"");
    assert_eq!(Group::Psi.xml_attrs(), " per=\"second\"");
    assert_eq!(Group::PowerManagement.xml_attrs(), "");
}

#[test]
fn network_arrays_have_no_own_wrapper() {
    for id in [
        ActivityId::NET_DEV,
        ActivityId::NET_EDEV,
        ActivityId::NET_FC,
        ActivityId::NET_SOFT,
    ] {
        assert_eq!(lookup(id).unwrap().group, Group::Network);
    }
}

#[test]
fn filesystem_first_attribute_is_dynamic() {
    let fs = lookup(ActivityId::FS).unwrap();
    assert_eq!(fs.sections[0].fields[0].attr, "fsname");
    assert_eq!(fs.sections[1].fields[0].attr, "mountp");
}

// ---- the raw format ----

#[test]
fn all_pval_expands_from_dp_fields() {
    let pcsw = lookup(ActivityId::PCSW).unwrap();
    let fields = raw_fields(&pcsw.sections[0], &default_cfg());
    let names: Vec<_> = fields.iter().map(|f| f.name).collect();
    assert_eq!(names, vec!["proc/s", "cswch/s"]);
    assert!(fields.iter().all(|f| matches!(f.style, RawStyle::Pval)));
}

#[test]
fn sensor_raw_names_differ_from_hdr_line() {
    let fan = lookup(ActivityId::PWR_FAN).unwrap();
    let fields = raw_fields(&fan.sections[0], &default_cfg());
    let names: Vec<_> = fields.iter().map(|f| f.name).collect();
    assert_eq!(names, vec!["DEVICE", "rpm", "rpm_min"]);
    assert!(fan.sections[0].hdr_line.contains("drpm"));
}

#[test]
fn memory_raw_uses_hardcoded_total_name() {
    let mem = lookup(ActivityId::MEMORY).unwrap();
    let fields = raw_fields(&mem.sections[0], &default_cfg());
    let names: Vec<_> = fields.iter().map(|f| f.name).collect();
    assert!(names.contains(&"kbttlmem"));
    assert!(!names.contains(&"kbmemused"));
    assert!(!names.contains(&"%memused"));
}

#[test]
fn memory_raw_detail_fields_need_r_all() {
    let mem = lookup(ActivityId::MEMORY).unwrap();
    let mut plain = default_cfg();
    plain.section = SectionConfig { mem_all: false, ..SectionConfig::default() };
    let names: Vec<_> = raw_fields(&mem.sections[0], &plain).iter().map(|f| f.name).collect();
    assert_eq!(names.last(), Some(&"kbshmem"), "{names:?}");
    assert!(!names.contains(&"kbanonpg"));

    let all: Vec<_> =
        raw_fields(&mem.sections[0], &default_cfg()).iter().map(|f| f.name).collect();
    assert_eq!(all.last(), Some(&"kbvmused"), "{all:?}");
}

#[test]
fn disk_raw_starts_with_major_minor() {
    let disk = lookup(ActivityId::DISK).unwrap();
    let fields = raw_fields(&disk.sections[0], &default_cfg());
    assert_eq!(fields[0].name, "major");
    assert_eq!(fields[1].name, "minor");
    let names: Vec<_> = fields.iter().map(|f| f.name).collect();
    assert!(!names.contains(&"await"));
    assert!(names.contains(&"tot_ticks"));
}

#[test]
fn unsupported_field_is_zero_filled_but_missing_sample_is_empty() {
    assert_eq!(u64_token(Availability::UnsupportedBySource), "0");
    assert_eq!(u64_token(Availability::MissingInSample), "");
    assert_eq!(u64_token(Availability::Present(0)), "0");
}

#[test]
fn line_is_semicolon_space_separated_with_trailing_semicolon() {
    let tok: Vec<Shown> = ["13:20:19 UTC", "proc/s", "46972", "47083"]
        .into_iter()
        .map(|s| Shown::Text(s.to_string()))
        .collect();
    assert_eq!(show(&join_tokens(&tok)), "13:20:19 UTC; proc/s; 46972; 47083;\n");
}

#[test]
fn a_counter_decreases_where_both_values_are_known() {
    let p = Availability::Present;
    assert!(is_decrease(p(5), p(4)));
    assert!(!is_decrease(p(5), p(5)));
    assert!(is_decrease(p(5), Availability::UnsupportedBySource));
    assert!(!is_decrease(Availability::UnsupportedBySource, p(5)));
    assert!(!is_decrease(Availability::MissingInSample, p(0)));
    assert!(!is_decrease(p(5), Availability::MissingInSample));
}

#[test]
fn record_header_line_names_its_parts() {
    let h = RecHeader { uptime_cs: 12_345, time: at(1_555_593_619, (9, 8, 7)), record_type: 3 };
    assert_eq!(
        write_record_header(&h),
        "# uptime_cs; 12345; ust_time; 1555593619; extra_next; 0; record_type; 3; HH:MM:SS; 09:08:07\n"
    );
}

// ---- the tables ----

#[test]
fn every_activity_has_a_spec() {
    let specs = all_specs();
    assert_eq!(specs.len(), 43);
    let by_number = in_id_order();
    assert_eq!(by_number.len(), 43);
    for (i, s) in by_number.iter().enumerate() {
        assert_eq!(s.id.number() as usize, i + 1);
        assert_eq!(lookup(s.id).unwrap().name, s.name);
        assert!(specs.iter().any(|x| x.id == s.id));
    }
    assert!(lookup(ActivityId::Unknown(44)).is_none());
}

#[test]
fn jx_order_is_a_permutation() {
    let mut reordered = 0;
    for spec in all_specs() {
        for sec in &spec.sections {
            if sec.jx_order.is_empty() {
                continue;
            }
            reordered += 1;
            assert_eq!(sec.jx_order.len(), sec.fields.len(), "{}", spec.name);
            let mut seen = vec![false; sec.fields.len()];
            for &i in &sec.jx_order {
                assert!(!seen[i], "{}", spec.name);
                seen[i] = true;
            }
        }
    }
    assert_eq!(reordered, 3);
}

#[test]
fn hdr_line_matches_documented_text() {
    let cpu = lookup(ActivityId::CPU).unwrap();
    assert_eq!(cpu.sections[0].hdr_line, "CPU;%user;%nice;%system;%iowait;%steal;%idle");
    assert_eq!(
        cpu.sections[1].hdr_line,
        "CPU;%usr;%nice;%sys;%iowait;%steal;%irq;%soft;%guest;%gnice;%idle"
    );
    let usb = lookup(ActivityId::PWR_USB).unwrap();
    assert_eq!(usb.sections[0].hdr_line, "manufact;product;BUS;idvendor;idprod;maxpower");
    assert_eq!(usb.sections[0].fields[1].pp, "idvendor");
}

#[test]
fn memory_label_mismatch_is_preserved() {
    let mem = lookup(ActivityId::MEMORY).unwrap();
    let sec = &mem.sections[0];
    assert!(sec.hdr_line.contains(";kbshmem&"));
    assert!(sec.fields.iter().any(|f| f.pp == "kbshared"));
}

#[test]
fn hdr_line_ampersand_expansion() {
    let mem = lookup(ActivityId::MEMORY).unwrap();
    let hdr = mem.sections[0].hdr_line;
    let all = SectionConfig { mem_all: true, ..SectionConfig::default() };
    assert_eq!(
        all.expand_hdr_line(hdr),
        "kbmemfree;kbavail;kbmemused;%memused;kbbuffers;kbcached;kbcommit;%commit;kbactive;kbinact;kbdirty;kbshmem;kbanonpg;kbslab;kbkstack;kbpgtbl;kbvmused"
    );
    let basic = SectionConfig { mem_all: false, ..SectionConfig::default() };
    assert_eq!(
        basic.expand_hdr_line(hdr),
        "kbmemfree;kbavail;kbmemused;%memused;kbbuffers;kbcached;kbcommit;%commit;kbactive;kbinact;kbdirty;kbshmem"
    );
    assert_eq!(basic.expand_hdr_line("a;b"), "a;b");
}

#[test]
fn exactly_three_activities_close_a_group() {
    let specs = all_specs();
    let closers: Vec<_> = specs.iter().filter(|s| s.closes_group).map(|s| s.name).collect();
    assert_eq!(closers, vec!["A_NET_SOFT", "A_PWR_USB", "A_PSI_MEM"]);
}

#[test]
fn hugepages_is_not_in_power_management() {
    assert_eq!(lookup(ActivityId::HUGE).unwrap().group, Group::Ungrouped);
}

#[test]
fn all_column_references_resolve() {
    // Each field that shows a value names a column, and the columns that a raw field is made of
    // are named too.
    for spec in all_specs() {
        for sec in &spec.sections {
            for f in &sec.fields {
                let shows_item = matches!(f.jx_fmt, Fmt::ItemKeyStr | Fmt::ItemKeyNum);
                if f.col.is_empty() {
                    assert!(f.pp.is_empty(), "{}: {}", spec.name, f.key);
                } else {
                    assert!(!shows_item, "{}: {}", spec.name, f.key);
                    assert!(f.col.bytes().all(|b| b.is_ascii_lowercase() || b.is_ascii_digit() || b == b'_'));
                }
            }
            if let RawSpec::Fields(list) = &sec.raw {
                for r in list {
                    match r.style {
                        RawStyle::PvalSum(a, b, c) => {
                            assert_eq!((a, b, c), ("sys", "irq", "soft"));
                            assert!(r.col.is_empty());
                        }
                        RawStyle::PvalDiff(a, b) => {
                            assert!(!a.is_empty() && !b.is_empty());
                            assert!(r.col.is_empty());
                        }
                        _ => assert!(!r.col.is_empty(), "{}: {}", spec.name, r.name),
                    }
                }
            }
        }
        if let ItemKind::Column { col, .. } = spec.item {
            assert!(!col.is_empty());
        }
    }
}

// ---- records ----

fn rec(kind: RecKind) -> Rec {
    Rec {
        kind,
        time: at(0, (0, 0, 0)),
        uptime_cs: 0,
        cpu_count: None,
        comment: None,
        in_range: true,
        past_end: false,
        nrs: Vec::new(),
    }
}

#[test]
fn next_restart_finds_the_boundary() {
    let index = RecordIndex {
        recs: vec![
            rec(RecKind::Stats),
            rec(RecKind::Comment),
            rec(RecKind::Restart),
            rec(RecKind::Stats),
        ],
        debug: None,
    };
    assert_eq!(index.next_restart(0), 2);
    assert_eq!(index.next_restart(2), 2);
    assert_eq!(index.next_restart(3), 4);
    assert_eq!(index.next_restart(9), 4);
}

#[test]
fn extra_headers_travel_with_the_next_record() {
    let h = |t: u8| RecHeader {
        uptime_cs: 0,
        time: at(u64::from(t), (0, 0, 0)),
        record_type: t,
    };
    let index = RecordIndex {
        recs: vec![rec(RecKind::Stats), rec(RecKind::Stats)],
        debug: Some(DebugIndex {
            headers: vec![h(1), h(5), h(1), h(6)],
            own: vec![0, 2],
        }),
    };
    let types = |at: usize| -> Vec<u8> {
        let (start, end) = index.headers_for(at);
        index.debug.as_ref().unwrap().headers[start..end].iter().map(|h| h.record_type).collect()
    };
    assert_eq!(types(0), vec![1]);
    assert_eq!(types(1), vec![5, 1]);
    assert_eq!(types(2), vec![6]);
}

#[test]
fn nonprintable_bytes_become_dots() {
    assert_eq!(printable(&b"a\tb\x7fc".to_vec()), "a.b.c");
}

#[test]
fn allocation_doubles_until_it_fits() {
    let mut a = ActState { id: ActivityId::CPU, nr_ini: 10, nr_alloc: 10 };
    a.grow(9);
    assert_eq!(a.nr_alloc, 10);
    a.grow(11);
    assert_eq!(a.nr_alloc, 20);
    a.grow(41);
    assert_eq!(a.nr_alloc, 80);

    let mut z = ActState { id: ActivityId::DISK, nr_ini: 0, nr_alloc: 0 };
    z.grow(3);
    assert_eq!(z.nr_alloc, 3);
}

#[test]
fn only_cpu_irq_and_softnet_are_persistent() {
    assert!(is_persistent(ActivityId::CPU));
    assert!(is_persistent(ActivityId::IRQ));
    assert!(is_persistent(ActivityId::NET_SOFT));
    assert!(!is_persistent(ActivityId::DISK));
    assert!(!is_persistent(ActivityId::PWR_CPU));
}

// ---- the end of the time range ----

/// A sample each ten seconds, with a restart after the eighth.
fn two_stretches() -> RecordIndex {
    let mut recs: Vec<Rec> = (0..8u64)
        .map(|k| Rec { uptime_cs: 1_000 * k, ..rec(RecKind::Stats) })
        .collect();
    recs.push(rec(RecKind::Restart));
    recs.push(rec(RecKind::Stats));
    recs.push(Rec { uptime_cs: 1_000, ..rec(RecKind::Stats) });
    RecordIndex { recs, debug: None }
}

fn shown(index: &RecordIndex, select: RecordSelect) -> Vec<(usize, usize)> {
    let (entries, _) = logic1::run(index, select, false, None);
    entries
        .iter()
        .filter_map(|e| match e {
            Entry::Shown { rec, prev } => Some((*rec, *prev)),
            Entry::Hidden { .. } => None,
        })
        .collect()
}

#[test]
fn the_end_of_the_range_is_asked_of_the_samples_that_would_be_shown() {
    let index = two_stretches();
    let found = stretches(&index, RecordSelect { interval: 20, count: None });
    assert_eq!(found.len(), 2);
    assert_eq!(found[0].reference, 0);
    assert_eq!(found[0].samples, vec![(2, 0), (4, 2), (6, 4)]);
    assert_eq!(found[1].reference, 9);
    assert!(found[1].samples.is_empty());
    let every = stretches(&index, RecordSelect { interval: 1, count: Some(2) });
    assert_eq!(every[0].samples, vec![(1, 0), (2, 1)]);
    assert_eq!(every[1].samples, vec![(10, 9)]);
}

#[test]
fn a_stretch_stops_at_its_first_sample_after_the_range() {
    let select = RecordSelect { interval: 20, count: None };
    let mut index = two_stretches();
    index.recs[4].past_end = true;
    assert_eq!(shown(&index, select), vec![(2, 0)]);
    assert_eq!(stretches(&index, select)[0].samples, vec![(2, 0), (4, 2), (6, 4)]);
    // A record that is left out is not asked.
    index.recs[4].past_end = false;
    index.recs[3].past_end = true;
    assert_eq!(shown(&index, select), vec![(2, 0), (4, 2), (6, 4)]);
}

// ---- the selection of records ----

#[test]
fn interval_one_admits_everything() {
    let mut s = Slicer::new(RecordSelect::default(), 1_000);
    for up in [1_000u64, 4_100, 7_300, 9_000] {
        assert!(s.takes(up));
    }
}

#[test]
fn interval_picks_multiples_of_the_user_interval() {
    let select = RecordSelect { interval: 60, count: None };
    let mut s = Slicer::new(select, 0);
    let picked: Vec<u64> = (1..=12u64).map(|k| k * 1_000).filter(|&up| s.takes(up)).collect();
    assert_eq!(picked, vec![6_000, 12_000]);
}

#[test]
fn odd_file_interval_widens_the_right_edge() {
    assert!(next_slice(0, 5_950, false, 60, &mut 5_850));
    assert!(!next_slice(0, 5_949, false, 60, &mut 5_849));
}

#[test]
fn uptime_difference_is_masked_to_32_bits() {
    const WRAP: u64 = 1 << 32;
    assert!(next_slice(0, WRAP + 200, false, 2, &mut (WRAP + 100)));
}

#[test]
fn an_interval_of_zero_counts_as_one() {
    let s = RecordSelect { interval: 0, count: None };
    assert_eq!(s.interval(), 1);
    assert!(s.selects_every_record());
    assert!(!RecordSelect { interval: 2, count: None }.selects_every_record());
}
