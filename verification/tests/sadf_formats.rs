//! The formats for other programs, file by file.

use std::collections::BTreeMap;

use resarch::clock::{Civil, RecordTime};
use resarch::doc::{Doc, Form, Piece, Slot};
use resarch::model::{
    ActivityId, Availability, ComputeIssue, Computed, DecodePlan, FieldPlan, ItemSnapshot,
};
use resarch::sadf::access::{
    ActivityDef, ActivityPair, ActivitySample, ActivitySnapshot, ColumnMeta, ComputeContext, CpuFacts,
    IntervalView, ItemFacts, ItemPair, ItemShape, RowFacts,
};
use resarch::sadf::config::{SadfConfig, SadfExtra};
use resarch::sadf::dbppc;
use resarch::sadf::file::{
    act_entries, any_selected_in_file, present_specs, selected_specs, FileActivityEntry, FileLayout,
    FileMagic, SaFile,
};
use resarch::sadf::header;
use resarch::sadf::json;
use resarch::sadf::logic2::{Action, Pass};
use resarch::sadf::raw;
use resarch::sadf::records::{RawRecord, RecordKind, SliceCount};
use resarch::sadf::render::{absence_of, field_text, item_label, value_of};
use resarch::sadf::select::RecordSelect;
use resarch::sadf::stamp::{FileInfo, TimeBase};
use resarch::sadf::table::{lookup, ItemKind, RawSpec, RawStyle, SectionConfig};
use resarch::sadf::value::Unavailable;
use resarch::sadf::xml;
use resarch::sar_text::header::FileHeader;
use resarch::sar_text::options::{CpuSelection, NameFilter};

/// A document as it is printed.
fn show(doc: &Doc) -> String {
    let mut out = String::new();
    for piece in &doc.pieces {
        match piece {
            Piece::Text(s) => out.push_str(s),
            Piece::Bytes(b) => out.push_str(&String::from_utf8_lossy(b)),
            Piece::Number(n) => out.push_str(&number(n)),
            Piece::Average(m, form, width) => {
                let sum: f64 = m.summands.iter().map(|b| f64::from_bits(*b)).sum();
                let bits = (sum / m.count as f64).to_bits();
                out.push_str(&number(&Slot { bits, form: *form, width: *width }));
            }
        }
    }
    out
}

fn whole(x: f64) -> u64 {
    if x <= 0.0 {
        0
    } else {
        x as u64
    }
}

fn count(x: f64) -> u64 {
    if x.is_finite() {
        whole(x)
    } else {
        0
    }
}

fn number(n: &Slot) -> String {
    let x = f64::from_bits(n.bits);
    let text = match n.form {
        Form::Fixed { decimals, divisor, sign } => {
            let v = x / f64::from(divisor);
            let d = usize::from(decimals);
            if sign {
                format!("{v:+.d$}")
            } else {
                format!("{v:.d$}")
            }
        }
        Form::Whole { divisor } => format!("{}", whole(x / f64::from(divisor))),
        Form::Hex => format!("{:x}", whole(x)),
        Form::Count => format!("{}", count(x)),
        Form::CountHex => format!("{:x}", count(x)),
        Form::CFixed { decimals } => {
            let d = usize::from(decimals);
            if x.is_nan() {
                if x.is_sign_negative() { "-nan".to_string() } else { "nan".to_string() }
            } else if x.is_infinite() {
                if x > 0.0 { "inf".to_string() } else { "-inf".to_string() }
            } else {
                format!("{x:.d$}")
            }
        }
        Form::Scaled { unit, decimals } => {
            let letters: Vec<char> = "sBkMGTP?".chars().collect();
            let mut v = x;
            let mut i = unit.index();
            while v >= 1024.0 {
                v /= 1024.0;
                i += 1;
            }
            let d = usize::from(decimals);
            let letter = letters[i.min(letters.len() - 1)];
            return format!("{v:>w$.d$}{letter}", w = n.width.saturating_sub(1));
        }
    };
    format!("{text:>w$}", w = n.width)
}

// ---- a file made by hand ----

/// The texts of the file, by column.
const TEXTS: [(&str, &str); 5] = [
    ("device", "device"),
    ("manufacturer", "manufacturer"),
    ("product", "product"),
    ("filesystem", "fs_name"),
    ("mountpoint", "mountp"),
];

/// An item: its key, its texts, and for some columns the value before, the value now and the
/// value that is displayed.
#[derive(Clone, Default)]
struct It {
    key: Option<&'static str>,
    texts: Vec<(&'static str, &'static str)>,
    values: Vec<(&'static str, u64, u64, f64)>,
    unused: bool,
    offline: bool,
    replaced: bool,
    /// Whether the earlier record does not hold the item.
    fresh: bool,
}

fn it(values: &[(&'static str, u64, u64, f64)]) -> It {
    It { values: values.to_vec(), ..It::default() }
}

/// The columns that the tables show of an activity.
fn columns_of(id: ActivityId) -> Vec<String> {
    let spec = lookup(id).unwrap();
    let mut cols: Vec<String> = Vec::new();
    let mut add = |c: &str| {
        if !c.is_empty() && !cols.iter().any(|x| x == c) {
            cols.push(c.to_string());
        }
    };
    for sec in &spec.sections {
        add(sec.item_col);
        for f in &sec.fields {
            add(f.col);
        }
        if let RawSpec::Fields(list) = &sec.raw {
            for r in list {
                add(r.col);
                if let RawStyle::PvalSum(a, b, c) = r.style {
                    add(a);
                    add(b);
                    add(c);
                }
                if let RawStyle::PvalDiff(a, b) = r.style {
                    add(a);
                    add(b);
                }
            }
        }
    }
    if let ItemKind::Column { col, .. } = spec.item {
        add(col);
    }
    if id == ActivityId::IRQ {
        add("intr");
    }
    cols
}

fn snapshot(cols: &[String], item: &It, now: bool) -> ItemSnapshot {
    let mut values = vec![Availability::Present(0); cols.len()];
    for (name, before, after, _) in &item.values {
        let i = cols.iter().position(|c| c == name).unwrap_or_else(|| panic!("{name}"));
        values[i] = Availability::Present(if now { *after } else { *before });
    }
    ItemSnapshot {
        key: item.key.map(str::to_string),
        texts: TEXTS
            .iter()
            .map(|(col, _)| {
                item.texts.iter().find(|(c, _)| c == col).map(|(_, t)| (*t).to_string())
            })
            .collect(),
        values,
    }
}

fn facts(cols: &[String], item: &It) -> ItemFacts {
    let mut shown: Vec<Computed> = vec![Ok(0); cols.len()];
    for (name, _, _, v) in &item.values {
        let i = cols.iter().position(|c| c == name).unwrap();
        shown[i] = Ok(v.to_bits());
    }
    ItemFacts {
        strict: shown.clone(),
        shown,
        unused: item.unused,
        offline: item.offline,
        replaced: item.replaced,
    }
}

fn sample(id: ActivityId, items: &[It]) -> ActivitySample {
    let cols = columns_of(id);
    let columns = cols
        .iter()
        .map(|c| ColumnMeta {
            public_name: c.clone(),
            wire_name: TEXTS
                .iter()
                .find(|(col, _)| col == c)
                .map_or(String::new(), |(_, w)| (*w).to_string()),
        })
        .collect();
    let matrix = matches!(id, ActivityId::IRQ | ActivityId::PWR_FREQ);
    ActivitySample {
        def: ActivityDef {
            id,
            shape: if matrix { ItemShape::Matrix } else { ItemShape::List },
            columns,
        },
        plan: DecodePlan {
            fields: cols
                .iter()
                .map(|c| FieldPlan { name: c.clone(), available: true })
                .collect(),
            column_fields: (0..cols.len()).map(Some).collect(),
            text_fields: TEXTS.iter().map(|(_, w)| (*w).to_string()).collect(),
            nr2: 1,
            serial_line_offset: 0,
        },
        curr: ActivitySnapshot {
            id,
            nr: items.len() as u32,
            nr2: 1,
            items: items.iter().map(|i| snapshot(&cols, i, true)).collect(),
        },
        prev: Some(ActivitySnapshot {
            id,
            nr: items.len() as u32,
            nr2: 1,
            items: items.iter().filter(|i| !i.fresh).map(|i| snapshot(&cols, i, false)).collect(),
        }),
        items: items.iter().map(|i| facts(&cols, i)).collect(),
        rows: Vec::new(),
        offline: Vec::new(),
        cpus: Vec::new(),
        zero: snapshot(&cols, &It::default(), true),
    }
}

/// Interrupts on two CPUs and the line for all of them.
fn interrupts() -> ActivitySample {
    let cell = |key: Option<&'static str>, before: u64, now: u64, rate: f64| It {
        key,
        ..it(&[("intr", before, now, rate)])
    };
    let mut s = sample(
        ActivityId::IRQ,
        &[
            cell(Some("sum"), 100, 300, 4.0),
            cell(Some("9"), 10, 30, 0.4),
            cell(None, 60, 200, 2.8),
            cell(None, 5, 20, 0.3),
            cell(None, 40, 100, 1.2),
            cell(None, 5, 3, 0.1),
        ],
    );
    s.curr.nr = 3;
    s.curr.nr2 = 2;
    s
}

const DAY: u64 = 1_535_500_800;

fn at(secs: u64) -> RecordTime {
    let sod = (secs - DAY) as u32;
    RecordTime {
        ust_time: secs,
        hour: (sod / 3600) as u8,
        minute: (sod / 60 % 60) as u8,
        second: (sod % 60) as u8,
        local: Civil {
            year: 2018,
            month: 8,
            day: 29,
            hour: sod / 3600,
            minute: sod / 60 % 60,
            second: sod % 60,
        },
    }
}

fn record(kind: RecordKind, secs: u64, uptime_cs: u64) -> RawRecord {
    RawRecord {
        kind,
        time: at(secs),
        uptime_cs: Some(uptime_cs),
        cpu_count: None,
        comment: None,
        slices: Vec::new(),
        in_range: true,
        past_end: false,
    }
}

fn view(rec: usize, prev: usize, activities: Vec<ActivitySample>) -> IntervalView {
    IntervalView { rec, prev, itv_cs: 4_600, has_prev: true, continuous: true, activities }
}

fn entry(id: ActivityId, nr: i32) -> FileActivityEntry {
    FileActivityEntry {
        id,
        magic: 0x8b,
        nr,
        nr2: 1,
        size: 8,
        has_nr: true,
        types_nr: None,
        current_magic: Some(0x8b),
        displayed: true,
    }
}

fn header_of() -> FileHeader {
    FileHeader {
        sysname: "Linux".to_string(),
        release: "4.4.14".to_string(),
        nodename: "testhost".to_string(),
        machine: "x86_64".to_string(),
        created: at(DAY + 34_418),
        year: 2018,
        month: 8,
        day: 29,
        cpu_nr: Some(9),
        tzname: None,
    }
}

fn bare_file(activities: Vec<FileActivityEntry>, records: Vec<RawRecord>) -> SaFile {
    SaFile {
        path: "tests/data.tmp".to_string(),
        magic: FileMagic {
            format_magic: 0x2175,
            version: "11.6.5".to_string(),
            upgraded: None,
            hdr_types_nr: Some([1, 1, 11]),
        },
        header: header_of(),
        layout: FileLayout {
            act_types_nr: Some([0, 0, 9]),
            rec_types_nr: Some([2, 0, 0]),
            sizeof_long: 8,
            hz: Some(100),
            act_nr: activities.len() as u32,
            extra_next: None,
        },
        activities,
        records,
        views: Vec::new(),
        zeros: Vec::new(),
    }
}

/// The activities of the file, in its order, with their items.
fn contents() -> Vec<(ActivityId, Vec<It>)> {
    let fan = It {
        texts: vec![("device", "f71858fg-isa-0200")],
        ..it(&[
            ("rpm", 0, 1283.0f64.to_bits(), 1283.0),
            ("rpm_delta", 0, 0, 1283.0),
            ("rpm_min", 0, 0.0f64.to_bits(), 0.0),
        ])
    };
    let temp = It {
        texts: vec![("device", "f71858fg-isa-0200")],
        ..it(&[
            ("temp_celsius", 0, 34.0f64.to_bits(), 34.0),
            ("temp_pct", 0, 0, 48.571_428),
            ("temp_max", 0, 70.0f64.to_bits(), 70.0),
        ])
    };
    let volts = It {
        texts: vec![("device", "f71858fg-isa-0200")],
        ..it(&[("volts", 0, 3.328f64.to_bits(), 3.328)])
    };
    let usb = |bus: u64, vendor: u64, product: u64, power: u64, texts: &[(&'static str, &'static str)]| {
        let bits = [bus, vendor, product, power];
        It {
            texts: texts.to_vec(),
            ..it(&[
                ("bus", 0, bits[0], bits[0] as f64),
                ("vendor_id", 0, bits[1], bits[1] as f64),
                ("product_id", 0, bits[2], bits[2] as f64),
                ("max_power", 0, bits[3], bits[3] as f64),
            ])
        }
    };
    let fs = It {
        key: Some("/dev/sda9"),
        texts: vec![("filesystem", "/dev/sda9"), ("mountpoint", "/")],
        ..it(&[("fs_free", 0, 739_246_080, 705.0), ("inodes_used", 0, 0, 12_345.0)])
    };
    vec![
        (
            ActivityId::CPU,
            vec![
                it(&[("user", 96_000, 96_600, 3.0), ("guest", 0, 0, 0.0), ("usr", 0, 0, 3.0)]),
                it(&[("user", 12_000, 12_100, 2.5)]),
            ],
        ),
        (ActivityId::PCSW, vec![it(&[("proc", 46_972, 47_083, 2.41), ("cswch", 7, 5, 0.5)])]),
        (ActivityId::IO, vec![it(&[("tps", 10, 20, 1.5), ("rtps", 1, 2, 0.25)])]),
        (ActivityId::MEMORY, vec![it(&[("kbmemfree", 0, 1_234, 1_234.0), ("kbavail", 0, 0, 99.0)])]),
        (ActivityId::HUGE, vec![it(&[("kbhugfree", 0, 4_096, 4_096.0)])]),
        (
            ActivityId::DISK,
            vec![It {
                fresh: false,
                ..it(&[("major", 8, 8, 8.0), ("minor", 0, 0, 0.0), ("tps", 100, 146, 1.0)])
            }],
        ),
        (
            ActivityId::NET_DEV,
            vec![It { key: Some("lo"), ..it(&[("rxpck_per_sec", 4, 50, 1.0)]) }],
        ),
        (ActivityId::PWR_FAN, vec![fan.clone(), fan]),
        (ActivityId::PWR_TEMP, vec![temp.clone(), temp]),
        (ActivityId::PWR_IN, vec![volts.clone(), volts]),
        (
            ActivityId::PWR_USB,
            vec![
                usb(1, 0x3f0, 0x862, 196, &[
                    ("manufacturer", "HP"),
                    ("product", "HP Wireless Keyboard Mouse Kit"),
                ]),
                usb(1, 0x8087, 0x24, 0, &[]),
            ],
        ),
        (ActivityId::FS, vec![fs]),
        (ActivityId::PSI_CPU, vec![it(&[("scpu_10", 0, 12, 0.12), ("scpu", 100, 90, 0.2)])]),
    ]
}

/// A restart, a reference sample and a sample 46 seconds later.
fn file() -> SaFile {
    let all = contents();
    let mut restart = record(RecordKind::Restart, DAY + 34_418, 0);
    restart.cpu_count = Some(9);
    let mut f = bare_file(
        all.iter().map(|(id, items)| entry(*id, items.len() as i32)).collect(),
        vec![
            restart,
            record(RecordKind::Stats, DAY + 34_428, 10_000),
            record(RecordKind::Stats, DAY + 34_474, 14_600),
        ],
    );
    f.views = vec![view(2, 1, all.iter().map(|(id, items)| sample(*id, items)).collect())];
    f
}

fn cfg() -> SadfConfig {
    SadfConfig { cpus: CpuSelection::All, ..SadfConfig::default() }
}

fn db(f: &SaFile, c: &SadfConfig) -> String {
    show(&dbppc::write_db(f, c, "UTC"))
}

fn ppc(f: &SaFile, c: &SadfConfig) -> String {
    show(&dbppc::write_ppc(f, c, "UTC"))
}

fn rawed(f: &SaFile, c: &SadfConfig) -> String {
    show(&raw::write_raw(f, c, "UTC"))
}

fn jsoned(f: &SaFile, c: &SadfConfig) -> String {
    show(&json::write_json(f, c, "UTC"))
}

fn xmled(f: &SaFile, c: &SadfConfig) -> String {
    show(&xml::write_xml(f, c, "UTC"))
}

fn assert_has_line(text: &str, want: &str) {
    assert!(text.lines().any(|l| l.trim_start() == want), "no line {want}\nin {text}");
}

// ---- items ----

fn context() -> ComputeContext {
    ComputeContext { itv_cs: 100, has_prev: true, continuous: true, aggregate_item: false }
}

#[test]
fn raw_sum_propagates_absence() {
    let names = ["user", "nice", "sys", "iowait", "steal", "idle", "irq", "soft", "guest", "gnice"];
    let def = ActivityDef {
        id: ActivityId::CPU,
        shape: ItemShape::List,
        columns: names
            .iter()
            .map(|n| ColumnMeta { public_name: (*n).to_string(), wire_name: String::new() })
            .collect(),
    };
    let plan = DecodePlan {
        fields: Vec::new(),
        column_fields: (0..10).map(Some).collect(),
        text_fields: Vec::new(),
        nr2: 1,
        serial_line_offset: 0,
    };
    let item = |v: Vec<u64>| ItemSnapshot {
        key: None,
        texts: Vec::new(),
        values: v.into_iter().map(Availability::Present).collect(),
    };
    let curr = item((1..=10).collect());
    let prev = item(vec![0; 10]);
    let pair = ItemPair::single(0, &def, &plan, Some(&prev), &curr, context(), None);
    assert_eq!(pair.raw_sum(&["sys", "irq", "soft"], false), Availability::Present(18));
    assert_eq!(pair.raw_sum(&["sys", "irq", "soft"], true), Availability::Present(0));
    assert_eq!(
        pair.raw_sum(&["sys", "no_such_column"], false),
        Availability::UnsupportedBySource
    );
    assert_eq!(pair.raw_diff("soft", "sys", false), Availability::Present(5));
    assert_eq!(pair.raw_diff("sys", "soft", false), Availability::Present(u64::MAX - 4));
    assert_eq!(
        pair.raw_diff("sys", "no_such_column", false),
        Availability::UnsupportedBySource
    );
    assert_eq!(pair.raw_sum(&[], false), Availability::Present(0));
    assert_eq!(pair.column_index("idle"), Some(5));
    assert!(pair.column_meta(10).is_none());
    assert_eq!(pair.computed_by_name("idle"), Err(ComputeIssue::UnsupportedBySource));
    // Without an item to compare with there is no value before.
    let alone = ItemPair::single(
        0,
        &def,
        &plan,
        None,
        &curr,
        ComputeContext { has_prev: false, ..context() },
        None,
    );
    assert_eq!(alone.raw_prev_by_name("sys"), Availability::MissingInSample);
    assert_eq!(alone.raw_curr_by_name("sys"), Availability::Present(3));
}

fn pair_of(s: &ActivitySample) -> ActivityPair<'_> {
    ActivityPair { id: s.curr.id, sample: s, itv_cs: 400, has_prev: true, continuous: true }
}

#[test]
fn weighted_frequency_comes_from_the_whole_row() {
    let step = |khz: u64, time: u64| it(&[("freq_khz", 0, khz, 0.0), ("time_in_state", 0, time, 0.0)]);
    let mut s = sample(ActivityId::PWR_FREQ, &[step(1_500_999, 100), step(800_000, 300)]);
    s.curr.nr = 1;
    s.curr.nr2 = 2;
    let wgh = s.def.columns.iter().position(|c| c.public_name == "weighted_mhz").unwrap();
    let mut shown: Vec<Vec<Computed>> = vec![Vec::new(); s.def.columns.len()];
    shown[wgh] = vec![Ok(975.0f64.to_bits())];
    s.rows = vec![RowFacts { strict: shown.clone(), shown }];

    let pair = pair_of(&s);
    let rows = pair.output_items();
    assert_eq!(rows.len(), 1);
    assert_eq!(rows[0].row_len(), 2);
    assert_eq!(rows[0].computed(wgh), Ok(975.0f64.to_bits()));
    assert_eq!(rows[0].computed_strict(wgh), Ok(975.0f64.to_bits()));
    assert_eq!(rows[0].row_values(wgh).len(), 1);
    // Another column of the row has no value.
    assert_eq!(rows[0].computed(wgh + 1), Err(ComputeIssue::NeedsItemGroup));
}

#[test]
fn irq_rows_are_one_interrupt_each() {
    let cell = |key: Option<&'static str>, delta: u64| It {
        key,
        ..it(&[("intr", 1_000, 1_000 + delta, delta as f64)])
    };
    let mut s = sample(
        ActivityId::IRQ,
        &[cell(Some("int0"), 100), cell(Some("int1"), 200), cell(None, 300), cell(None, 400)],
    );
    s.curr.nr = 2;
    s.curr.nr2 = 2;
    let f = |v: f64| Ok(v.to_bits());
    s.rows = vec![
        RowFacts { shown: vec![vec![f(100.0), f(300.0)]], strict: Vec::new() },
        RowFacts { shown: vec![vec![f(200.0), f(400.0)]], strict: Vec::new() },
    ];
    let pair = pair_of(&s);
    let rows = pair.output_items();
    assert_eq!(rows.len(), 2);
    assert_eq!(rows[0].key(), Some("int0"));
    assert_eq!(rows[1].key(), Some("int1"));
    assert_eq!(rows[0].row_len(), 2);
    assert_eq!(rows[0].computed(0), f(100.0));
    assert_eq!(rows[0].row_values(0), vec![f(100.0), f(300.0)]);
    assert_eq!(rows[1].row_values(0), vec![f(200.0), f(400.0)]);
    // The items of a row are those of its interrupt, CPU by CPU.
    let row = rows[1].row.as_ref().unwrap();
    let counts: Vec<Availability> = row.curr.iter().map(|i| i.values[0]).collect();
    assert_eq!(counts, vec![Availability::Present(1_200), Availability::Present(1_400)]);
    assert!(rows[0].row_values_strict(0).is_empty());
}

#[test]
fn irq_aggregate_slot_is_the_all_cpu_row() {
    let mut s = sample(ActivityId::IRQ, &[it(&[]), it(&[]), it(&[]), it(&[])]);
    s.curr.nr = 2;
    s.curr.nr2 = 2;
    let pair = pair_of(&s);
    assert!(pair.matrix_item(0, 0).unwrap().ctx.aggregate_item);
    assert!(pair.matrix_item(0, 1).unwrap().ctx.aggregate_item);
    assert!(!pair.matrix_item(1, 0).unwrap().ctx.aggregate_item);
    assert!(!pair.matrix_item(1, 1).unwrap().ctx.aggregate_item);
    assert!(pair.matrix_item(2, 0).is_none());
}

#[test]
fn items_are_compared_by_their_keys() {
    let dev = |key: &'static str, before: u64, fresh: bool| It {
        key: Some(key),
        fresh,
        ..it(&[("rxpck_per_sec", before, 100, 0.0)])
    };
    let mut s = sample(ActivityId::NET_DEV, &[dev("eth0", 7, false), dev("new", 1, true), dev("lo", 9, false)]);
    s.prev.as_mut().unwrap().items.reverse();
    let pair = pair_of(&s);
    let items = pair.items();
    assert_eq!(pair.len(), 3);
    assert!(!pair.is_empty());
    assert_eq!(items[0].raw_prev_by_name("rxpck_per_sec"), Availability::Present(7));
    assert_eq!(items[2].raw_prev_by_name("rxpck_per_sec"), Availability::Present(9));
    assert!(!items[1].ctx.has_prev);
    assert_eq!(items[1].raw_prev_by_name("rxpck_per_sec"), Availability::MissingInSample);
    // Without keys the place counts.
    let s = sample(ActivityId::PWR_CPU, &[it(&[("mhz", 1, 2, 0.0)]), it(&[("mhz", 3, 4, 0.0)])]);
    let items = pair_of(&s).items();
    assert_eq!(items[1].raw_prev_by_name("mhz"), Availability::Present(3));
}

#[test]
fn room_that_no_device_uses_is_no_item() {
    let items = [it(&[]), It { unused: true, ..it(&[]) }, it(&[])];
    let s = sample(ActivityId::PWR_CPU, &items);
    let pair = pair_of(&s);
    assert_eq!(pair.output_items().len(), 3);
    let used: Vec<usize> = pair.compat_items().iter().map(|i| i.index).collect();
    assert_eq!(used, vec![0, 2]);
}

#[test]
fn labels_of_items() {
    let check = |id: ActivityId, item: It, want: (&str, &str, &str)| {
        let s = sample(id, &[item]);
        let pair = pair_of(&s);
        let label = item_label(&lookup(id).unwrap(), &pair.item(0).unwrap());
        assert_eq!((label.ppc.as_str(), label.db.as_str(), label.jx.as_str()), want);
    };
    check(ActivityId::PCSW, it(&[]), ("-", "", ""));
    check(ActivityId::CPU, it(&[]), ("all", "-1", "all"));
    check(ActivityId::NET_DEV, It { key: Some("eth0"), ..it(&[]) }, ("eth0", "eth0", "eth0"));
    check(ActivityId::NET_DEV, it(&[]), ("0", "0", "0"));
    check(ActivityId::PWR_FAN, it(&[]), ("fan1", "1", "1"));
    check(ActivityId::PWR_IN, it(&[]), ("in0", "0", "0"));
    check(ActivityId::SERIAL, it(&[("line", 0, 5, 0.0)]), ("ttyS5", "5", "5"));
    check(
        ActivityId::DISK,
        it(&[("major", 0, 253, 0.0), ("minor", 0, 7, 0.0)]),
        ("dev253-7", "dev253-7", "dev253-7"),
    );
}

#[test]
fn fields_without_a_column_have_no_value() {
    let s = sample(ActivityId::DISK, &[it(&[("tps", 1, 2, 0.5)])]);
    let pair = pair_of(&s);
    let item = pair.item(0).unwrap();
    let disk = lookup(ActivityId::DISK).unwrap();
    let by_key = |k: &str| *disk.sections[0].fields.iter().find(|f| f.key == k).unwrap();
    assert_eq!(value_of(&item, &by_key("tps")), Ok(0.5f64.to_bits()));
    assert_eq!(absence_of(&item, &by_key("tps")), None);
    assert_eq!(
        absence_of(&item, &by_key("rd_sec")),
        Some(Unavailable(ComputeIssue::NotImplemented))
    );
    let s = sample(ActivityId::PWR_BAT, &[it(&[("status", 0, 2, 2.0)])]);
    let pair = pair_of(&s);
    let item = pair.item(0).unwrap();
    assert_eq!(field_text(ActivityId::PWR_BAT, &item, "status"), Some("Discharging".to_string()));
    assert_eq!(field_text(ActivityId::PWR_FAN, &item, "status"), None);
    assert!(!item.is_text_column("status"));
}

// ---- whole files ----

#[test]
fn db_output_matches_documented_lines() {
    let out = db(&file(), &cfg());
    let n = "testhost";
    assert_has_line(&out, &format!("{n};-1;2018-08-29 09:33:38 UTC;LINUX-RESTART\t(8 CPU)"));
    assert_has_line(&out, "# hostname;interval;timestamp;FAN;DEVICE;rpm;drpm");
    assert_has_line(
        &out,
        &format!("{n};46;2018-08-29 09:34:34 UTC;1;f71858fg-isa-0200;1283.00;1283.00"),
    );
    assert_has_line(&out, "# hostname;interval;timestamp;TEMP;DEVICE;degC;%temp");
    assert_has_line(
        &out,
        &format!("{n};46;2018-08-29 09:34:34 UTC;1;f71858fg-isa-0200;34.00;48.57"),
    );
    assert!(out.contains(&format!("{n};46;2018-08-29 09:34:34 UTC;-1;")));
}

#[test]
fn ppc_output_matches_documented_lines() {
    let out = ppc(&file(), &cfg());
    let n = "testhost";
    assert_has_line(&out, &format!("{n}\t-1\t2018-08-29 09:33:38 UTC\tLINUX-RESTART\t(8 CPU)"));
    assert_has_line(
        &out,
        &format!("{n}\t46\t2018-08-29 09:34:34 UTC\tfan1\tDEVICE\tf71858fg-isa-0200"),
    );
    assert_has_line(&out, &format!("{n}\t46\t2018-08-29 09:34:34 UTC\tfan1\trpm\t1283.00"));
    assert_has_line(&out, &format!("{n}\t46\t2018-08-29 09:34:34 UTC\tfan1\tdrpm\t1283.00"));
    assert!(out.contains("\t-\tproc/s\t"));
    for line in out.lines().filter(|l| !l.contains("LINUX-RESTART")) {
        assert_eq!(line.split('\t').count(), 6, "{line}");
    }
}

#[test]
fn raw_output_matches_documented_lines() {
    let out = rawed(&file(), &cfg());
    assert_has_line(&out, "09:33:38 UTC; LINUX-RESTART (8 CPU)");
    assert_has_line(
        &out,
        "09:34:34 UTC; FAN; 1; DEVICE; f71858fg-isa-0200; rpm; 1283.000000; rpm_min; 0.000000;",
    );
    assert_has_line(
        &out,
        "09:34:34 UTC; TEMP; 1; DEVICE; f71858fg-isa-0200; degC; 34.000000; temp_min; 0.000000; temp_max; 70.000000;",
    );
    assert_has_line(
        &out,
        "09:34:34 UTC; IN; 0; DEVICE; f71858fg-isa-0200; inV; 3.328000; in_min; 0.000000; in_max; 0.000000;",
    );
    assert!(out.contains("09:34:34 UTC; CPU; -1; %usr; "));
    assert_has_line(&out, "09:34:34 UTC; proc/s; 46972; 47083; cswch/s; 7; 5;");
}

#[test]
fn sensor_values_have_six_decimals() {
    let out = rawed(&file(), &cfg());
    assert!(out.contains("; rpm; 1283.000000; "), "{out}");
}

#[test]
fn json_output_matches_documented_lines() {
    let out = jsoned(&file(), &cfg());
    for want in [
        r#"{"number": 1, "rpm": 1283, "drpm": 1283, "device": "f71858fg-isa-0200"},"#,
        r#"{"number": 1, "degC": 34.00, "percent-temp": 48.57, "device": "f71858fg-isa-0200"},"#,
        r#"{"number": 0, "inV": 3.33, "percent-in": 0.00, "device": "f71858fg-isa-0200"},"#,
    ] {
        assert_has_line(&out, want);
    }
    assert!(out.contains("\t\t\t\t\t\"fan-speed\": ["));
    assert!(out.contains("\t\t\t\t\t\"power-management\": {"));
}

#[test]
fn xml_output_matches_documented_lines() {
    let out = xmled(&file(), &cfg());
    for want in [
        r#"<fan number="1" rpm="1283" drpm="1283" device="f71858fg-isa-0200"/>"#,
        r#"<temp number="1" degC="34.00" percent-temp="48.57" device="f71858fg-isa-0200"/>"#,
        r#"<in number="0" inV="3.33" percent-in="0.00" device="f71858fg-isa-0200"/>"#,
        r#"<fan-speed unit="rpm">"#,
        r#"<temperature unit="degree Celsius">"#,
        r#"<voltage-input unit="V">"#,
        "<power-management>",
    ] {
        assert_has_line(&out, want);
    }
}

#[test]
fn horizontal_db_output_packs_a_sample_into_one_line() {
    let c = SadfConfig { horizontally: true, ..cfg() };
    let out = db(&file(), &c);
    let mut lines = out.lines().skip_while(|l| !l.starts_with("# hostname;"));
    let hdr = lines.next().unwrap();
    assert!(hdr.starts_with("# hostname;interval;timestamp;"));
    assert!(hdr.contains("[...]"), "{hdr}");
    assert!(hdr.contains(";CPU;%usr;%nice;%sys;%iowait;%steal;%irq;%soft;%guest;%gnice;%idle[...];proc/s;cswch/s;"));
    assert_eq!(out.matches("# hostname;interval;timestamp").count(), 1);
    let row = lines.next().unwrap();
    assert!(row.starts_with("testhost;46;2018-08-29 09:34:34 UTC;-1;3.00;"), "{row}");
    assert!(row.split(';').count() > 50, "{}", row.split(';').count());
    assert!(lines.next().is_none());
    // The format with a line for each value does not put them on one line.
    assert!(ppc(&file(), &c).lines().count() > 50);
}

#[test]
fn only_the_db_format_lists_the_fields() {
    let f = file();
    let info = FileInfo::from_file(&f.header, "UTC");
    let begin = |isdb: bool, pass: Pass| {
        let mut out = Doc::new();
        let action = Action::BeginPass { pass };
        dbppc::put_action(&mut out, &cfg(), &info, &f, &Vec::new(), isdb, action);
        show(&out)
    };
    let cpu = Pass::Activity { id: ActivityId::CPU, section: 0 };
    for pass in [Pass::Horizontal, cpu] {
        assert!(begin(true, pass).starts_with("# hostname;interval;timestamp;"));
        assert_eq!(begin(false, pass), "");
    }
}

#[test]
fn restart_blocks_are_emitted_once_each() {
    let mut f = file();
    let mut second = record(RecordKind::Restart, DAY + 35_000, 0);
    second.cpu_count = Some(3);
    f.records.push(second);
    f.records.push(record(RecordKind::Stats, DAY + 35_010, 1_000));
    f.records.push(record(RecordKind::Restart, DAY + 36_000, 0));
    f.records.push(record(RecordKind::Restart, DAY + 37_000, 0));
    for c in [cfg(), SadfConfig { horizontally: true, ..cfg() }] {
        let out = db(&f, &c);
        let restarts = f.records.iter().filter(|r| r.kind == RecordKind::Restart).count();
        assert_eq!(out.matches("LINUX-RESTART\t(").count(), restarts);
        assert!(out.contains("09:43:20 UTC;LINUX-RESTART\t(2 CPU)"), "{out}");
        // A restart that does not say how many CPUs there are keeps their number.
        assert!(out.contains("10:00:00 UTC;LINUX-RESTART\t(2 CPU)"));
    }
    assert_eq!(jsoned(&f, &cfg()).matches("\"boot\"").count(), 4);
    assert_eq!(xmled(&f, &cfg()).matches("<boot ").count(), 4);
}

#[test]
fn epoch_mode_drops_date_and_tz() {
    let c = SadfConfig { time_base: TimeBase::SecEpoch, ..cfg() };
    let s = db(&file(), &c);
    let mut seen = 0;
    for line in s.lines().filter(|l| !l.starts_with('#')) {
        assert!(!line.contains(" UTC"), "{line}");
        let ts = line.split(';').nth(2).unwrap_or("");
        assert!(ts.chars().all(|c| c.is_ascii_digit()), "{line}");
        seen += 1;
    }
    assert!(seen > 10);
    assert!(rawed(&file(), &c).starts_with("1535535218; LINUX-RESTART (8 CPU)\n"));
}

#[test]
fn usb_strings_appear_in_every_format() {
    let product = "HP Wireless Keyboard Mouse Kit";
    let f = file();
    assert!(db(&f, &cfg()).contains(&format!(";3f0;862;196;HP;{product}")));
    let p = ppc(&f, &cfg());
    assert!(p.contains("\tmanufact\tHP"));
    assert!(p.contains(&format!("\tproduct\t{product}")));
    assert!(rawed(&f, &cfg()).contains(&format!("manufact; \"HP\"; product; \"{product}\";")));
    assert!(jsoned(&f, &cfg()).contains(&format!("\"manufact\": \"HP\", \"product\": \"{product}\"")));
    assert!(xmled(&f, &cfg()).contains(&format!("manufact=\"HP\" product=\"{product}\"")));
}

#[test]
fn empty_strings_stay_empty_not_null() {
    let f = file();
    assert!(jsoned(&f, &cfg()).contains("\"manufact\": \"\", \"product\": \"\""));
    assert!(xmled(&f, &cfg()).contains("manufact=\"\" product=\"\""));
    assert!(db(&f, &cfg()).contains(";8087;24;0;;"));
}

#[test]
fn filesystem_switches_between_device_and_mountpoint() {
    let f = file();
    let mount = SadfConfig {
        section: SectionConfig { fs_mount: true, ..SectionConfig::default() },
        ..cfg()
    };
    let d = db(&f, &mount);
    assert_has_line(
        &d,
        "# hostname;interval;timestamp;MOUNTPOINT;MBfsfree;MBfsused;%fsused;%ufsused;Ifree;Iused;%Iused",
    );
    assert!(db(&f, &cfg()).contains(";/dev/sda9;"));
    assert!(d.lines().any(|l| l.contains(";/;")));
    let x = xmled(&f, &mount);
    assert!(x.contains("<filesystem mountp=\"/\""));
    assert!(!x.contains("<filesystem fsname="));
    assert!(jsoned(&f, &mount).contains("{\"mountpoint\": \"/\""));
    assert!(rawed(&f, &mount).contains("; MOUNTPOINT; \"/\";"));
}

#[test]
fn disk_names_use_the_major_minor_fallback() {
    let f = file();
    assert!(db(&f, &cfg()).contains(";dev8-0;"));
    assert!(xmled(&f, &cfg()).contains("<disk-device dev=\"dev8-0\""));
    assert!(jsoned(&f, &cfg()).contains("{\"disk-device\": \"dev8-0\""));
    assert!(rawed(&f, &cfg()).contains("; major; 8; minor; 0; DEV; dev8-0; tps; "));
}

#[test]
fn io_and_memory_shapes_differ_between_json_and_xml() {
    let f = file();
    let x = xmled(&f, &cfg());
    assert!(x.contains("<tps>"));
    assert!(x.contains("<io-reads rtps="));
    assert!(x.contains("<memory unit=\"kB\">"));
    assert!(x.contains("<memfree>"));
    let j = jsoned(&f, &cfg());
    assert!(j.contains("\"io\": {\"tps\": "));
    assert!(j.contains("\"io-reads\": {\"rtps\": "));
    assert!(j.contains("\"memory\": {\"memfree\": "));
    let pm = j.find("\"power-management\"").unwrap();
    let hp = j.find("\"hugepages\"").unwrap();
    assert!(hp < pm);
    assert_has_line(
        &j,
        "\"io\": {\"tps\": 1.50, \"io-reads\": {\"rtps\": 0.25, \"bread\": 0.00}, \"io-writes\": {\"wtps\": 0.00, \"bwrtn\": 0.00}, \"io-discard\": {\"dtps\": 0.00, \"bdscd\": 0.00}},",
    );
}

#[test]
fn all_sadf_formats_produce_output() {
    let f = file();
    let s = header::write_header(&f);
    assert!(s.starts_with("System activity data file: "), "{s}");
    assert!(s.contains("\nHost: "), "{s}");
    assert!(s.contains("\nList of activities:\n"), "{s}");
    assert!(db(&f, &cfg()).contains("# hostname;interval;timestamp;"));
    let p = ppc(&f, &cfg());
    assert!(!p.contains("# hostname"));
    assert!(rawed(&f, &cfg()).contains("; "));
    let j = jsoned(&f, &cfg());
    assert!(j.starts_with("{\"sysstat\": {\n\t\"hosts\": [\n"));
    assert!(j.trim_end().ends_with("}}"));
    assert!(is_json(&j), "{j}");
    let x = xmled(&f, &cfg());
    assert!(x.starts_with("<?xml version=\"1.0\" encoding=\"UTF-8\"?>\n<sysstat\n"));
    assert!(x.contains("<sysdata-version>3.18</sysdata-version>"));
    assert!(x.trim_end().ends_with("</sysstat>"));
    for tag in ["sysstat", "host", "statistics", "restarts", "network", "power-management", "psi"] {
        assert_eq!(
            x.matches(&format!("<{tag}>")).count() + x.matches(&format!("<{tag} ")).count()
                + x.matches(&format!("<{tag}\n")).count(),
            x.matches(&format!("</{tag}>")).count(),
            "{tag}"
        );
    }
}

/// Whether a text is a JSON value.
fn is_json(s: &str) -> bool {
    let b: Vec<char> = s.chars().collect();
    let mut i = 0;
    json_value(&b, &mut i) && {
        blanks(&b, &mut i);
        i == b.len()
    }
}

fn blanks(b: &[char], i: &mut usize) {
    while *i < b.len() && matches!(b[*i], ' ' | '\t' | '\n') {
        *i += 1;
    }
}

fn json_text(b: &[char], i: &mut usize) -> bool {
    *i += 1;
    while *i < b.len() && b[*i] != '"' {
        if (b[*i] as u32) < 32 {
            return false;
        }
        *i += if b[*i] == '\\' { 2 } else { 1 };
    }
    *i += 1;
    *i <= b.len()
}

fn json_value(b: &[char], i: &mut usize) -> bool {
    blanks(b, i);
    if *i >= b.len() {
        return false;
    }
    match b[*i] {
        '"' => json_text(b, i),
        open @ ('{' | '[') => {
            let close = if open == '{' { '}' } else { ']' };
            *i += 1;
            blanks(b, i);
            if *i < b.len() && b[*i] == close {
                *i += 1;
                return true;
            }
            loop {
                if open == '{' {
                    blanks(b, i);
                    if *i >= b.len() || b[*i] != '"' || !json_text(b, i) || b[*i] != ':' {
                        return false;
                    }
                    *i += 1;
                }
                if !json_value(b, i) {
                    return false;
                }
                blanks(b, i);
                if *i >= b.len() {
                    return false;
                }
                *i += 1;
                if b[*i - 1] == close {
                    return true;
                }
                if b[*i - 1] != ',' {
                    return false;
                }
            }
        }
        _ => {
            let start = *i;
            while *i < b.len() && (b[*i].is_ascii_alphanumeric() || matches!(b[*i], '-' | '.')) {
                *i += 1;
            }
            let word: String = b[start..*i].iter().collect();
            word == "null" || word.parse::<f64>().is_ok()
        }
    }
}

#[test]
fn json_of_a_file_without_statistics() {
    let f = bare_file(Vec::new(), Vec::new());
    let want = "{\"sysstat\": {\n\t\"hosts\": [\n\t\t{\n\
        \t\t\t\"nodename\": \"testhost\",\n\t\t\t\"sysname\": \"Linux\",\n\t\t\t\"release\": \"4.4.14\",\n\
        \t\t\t\"machine\": \"x86_64\",\n\t\t\t\"number-of-cpus\": 8,\n\t\t\t\"file-date\": \"2018-08-29\",\n\
        \t\t\t\"file-utc-time\": \"09:33:38\",\n\t\t\t\"timezone\": \"\",\n\t\t\t\"statistics\": [\n\t\t\t],\n\
        \t\t\t\"restarts\": [\n\t\t\t]\n\t\t}\n\t]\n}}\n";
    assert_eq!(jsoned(&f, &cfg()), want);
    let with = jsoned(&f, &SadfConfig { comments: true, ..cfg() });
    assert!(with.contains("\t\t\t\"restarts\": [\n\t\t\t],\n\t\t\t\"comments\": [\n\t\t\t]\n"));
}

#[test]
fn xml_of_a_file_without_statistics() {
    let f = bare_file(Vec::new(), Vec::new());
    let want = "<?xml version=\"1.0\" encoding=\"UTF-8\"?>\n<sysstat\nxmlns=\"https://sysstat.github.io\"\n\
        xmlns:xsi=\"http://www.w3.org/2001/XMLSchema-instance\"\n\
        xsi:schemaLocation=\"https://sysstat.github.io https://sysstat.github.io/sysstat.xsd\">\n\
        \t<sysdata-version>3.18</sysdata-version>\n\t<host nodename=\"testhost\">\n\t\t<sysname>Linux</sysname>\n\
        \t\t<release>4.4.14</release>\n\t\t<machine>x86_64</machine>\n\t\t<number-of-cpus>8</number-of-cpus>\n\
        \t\t<file-date>2018-08-29</file-date>\n\t\t<file-utc-time>09:33:38</file-utc-time>\n\
        \t\t<timezone></timezone>\n\t\t<statistics>\n\t\t</statistics>\n\t\t<restarts>\n\t\t</restarts>\n\
        \t</host>\n</sysstat>\n";
    assert_eq!(xmled(&f, &cfg()), want);
}

#[test]
fn comments_are_shown_on_request() {
    let mut f = file();
    let mut c1 = record(RecordKind::Comment, DAY + 34_480, 0);
    c1.comment = Some(b"a \"b\" <c>\x01".to_vec());
    f.records.push(c1);
    for out in [db(&f, &cfg()), ppc(&f, &cfg()), rawed(&f, &cfg())] {
        assert!(!out.contains("COM "));
    }
    let on = SadfConfig { comments: true, ..cfg() };
    assert_eq!(
        db(&f, &on).matches("testhost;-1;2018-08-29 09:34:40 UTC;COM a \"b\" <c>.\n").count(),
        // Each pass over the stretch shows it.
        contents().len() + 1
    );
    assert!(rawed(&f, &on).contains("09:34:40 UTC; COM a \"b\" <c>.\n"));
    let j = jsoned(&f, &on);
    assert!(j.contains("\"comment\": {\"date\": \"2018-08-29\", \"time\": \"09:34:40\", \"tz\": \"UTC\", \"com\": \"a \\\"b\\\" <c>.\"}"));
    assert!(is_json(&j));
    assert!(xmled(&f, &on).contains(
        "<comment date=\"2018-08-29\" time=\"09:34:40\" tz=\"UTC\" com=\"a &quot;b&quot; &lt;c&gt;.\"/>"
    ));
}

#[test]
fn a_sample_that_is_not_shown_leaves_an_empty_object() {
    let mut f = file();
    f.records.push(record(RecordKind::Stats, DAY + 34_520, 19_200));
    f.records.push(record(RecordKind::Stats, DAY + 34_566, 23_800));
    let all: Vec<ActivitySample> = contents().iter().map(|(id, i)| sample(*id, i)).collect();
    f.views.push(view(3, 2, all));
    let extra = SadfExtra {
        select: RecordSelect { interval: 1, count: Some(1) },
        local_tz: "UTC".to_string(),
    };
    let j = show(&json::write_json_with(&f, &cfg(), &extra));
    assert_eq!(j.matches("\"timestamp\"").count(), 1);
    let x = show(&xml::write_xml_with(&f, &cfg(), &extra));
    assert_eq!(x.matches("<timestamp ").count(), 1);
    let d = show(&dbppc::write_db_with(&f, &cfg(), &extra));
    assert_eq!(d.matches(";-1;3.00;").count(), 1);
    let r = show(&raw::write_raw_with(&f, &cfg(), &extra));
    assert_eq!(r.matches("; proc/s; ").count(), 1);
    let p = show(&dbppc::write_ppc_with(&f, &cfg(), &extra));
    assert_eq!(p.matches("\tproc/s\t").count(), 1);
    // Every 92 seconds: the sample at 46 seconds is hidden.
    let extra = SadfExtra {
        select: RecordSelect { interval: 92, count: None },
        local_tz: "UTC".to_string(),
    };
    let j = show(&json::write_json_with(&f, &cfg(), &extra));
    assert!(j.contains("\"statistics\": [\n\t\t\t\t{\n\t\t\t\t},\n"), "{j}");
    assert!(is_json(&j));
}

#[test]
fn scripts_name_the_intervals_that_are_needed() {
    let f = file();
    let extra = SadfExtra { select: RecordSelect::default(), local_tz: String::new() };
    let script = dbppc::flat_script(&f, &cfg(), &extra, true);
    let mut samples = 0;
    for a in &script.actions {
        if let Action::Sample { rec, prev, .. } = a {
            assert_eq!((*rec, *prev), (2, 1));
            samples += 1;
        }
    }
    assert_eq!(samples, script.passes.len());
    assert_eq!(script.passes.len(), contents().len() + 1);
    let again = raw::raw_script_of(&f, &cfg(), &extra);
    assert_eq!(again.actions.len(), script.actions.len());
}

#[test]
fn activities_can_be_selected() {
    let mut f = file();
    f.activities.push(entry(ActivityId::QUEUE, 0));
    f.activities.push(FileActivityEntry { displayed: false, ..entry(ActivityId::KTABLES, 1) });
    f.activities.push(entry(ActivityId::Unknown(99), 1));
    assert_eq!(present_specs(&f).len(), contents().len());
    let only = SadfConfig { activities: Some(vec![ActivityId::PCSW, ActivityId::SWAP]), ..cfg() };
    let names: Vec<&str> = selected_specs(&f, &only).iter().map(|s| s.name).collect();
    assert_eq!(names, vec!["A_PCSW"]);
    assert!(any_selected_in_file(&f, &only));
    let hidden = SadfConfig { activities: Some(vec![ActivityId::KTABLES]), ..cfg() };
    assert!(any_selected_in_file(&f, &hidden));
    assert!(selected_specs(&f, &hidden).is_empty());
    let none = SadfConfig { activities: Some(vec![ActivityId::SWAP]), ..cfg() };
    assert!(!any_selected_in_file(&f, &none));
    let out = db(&f, &only);
    assert_eq!(out.matches("# hostname").count(), 1);
    assert_has_line(&out, "testhost;46;2018-08-29 09:34:34 UTC;2.41;0.50");
}

#[test]
fn an_unknown_layout_without_items_is_shown_as_zeros() {
    let mut f = file();
    f.activities.push(FileActivityEntry { displayed: false, ..entry(ActivityId::KTABLES, 1) });
    let only = SadfConfig { activities: Some(vec![ActivityId::KTABLES]), ..cfg() };
    assert!(act_entries(&f, &only).is_empty());
    f.zeros.push(sample(ActivityId::KTABLES, &[it(&[])]));
    let entries = act_entries(&f, &only);
    assert_eq!(entries.len(), 1);
    assert!(entries[0].zero);
    assert!(jsoned(&f, &only).contains(
        "\"kernel\": {\"dentunusd\": 0, \"file-nr\": 0, \"inode-nr\": 0, \"pty-nr\": 0}"
    ));
    assert!(xmled(&f, &only).contains("<kernel dentunusd=\"0\" file-nr=\"0\" inode-nr=\"0\" pty-nr=\"0\"/>"));
    // The flat formats leave it out.
    assert!(!db(&f, &only).contains("dentunusd"));
}

fn one_activity(id: ActivityId, s: ActivitySample, nr: i32) -> SaFile {
    let mut f = file();
    f.activities = vec![entry(id, nr)];
    f.views = vec![view(2, 1, vec![s])];
    f
}

#[test]
fn interrupts_in_every_format() {
    let f = one_activity(ActivityId::IRQ, interrupts(), 3);
    let d = db(&f, &cfg());
    assert_has_line(&d, "testhost;46;2018-08-29 09:34:34 UTC;sum;4.00;2.80;1.20");
    assert_has_line(&d, "testhost;46;2018-08-29 09:34:34 UTC;9;0.40;0.30;0.10");
    let p = ppc(&f, &cfg());
    assert_has_line(&p, "testhost\t46\t2018-08-29 09:34:34 UTC\t9\tall\t0.40");
    assert_has_line(&p, "testhost\t46\t2018-08-29 09:34:34 UTC\t9\tcpu1\t0.10");
    let r = rawed(&f, &cfg());
    assert_has_line(&r, "09:34:34 UTC; INTR; 9; all; 10; 30; CPU0; 5; 20; CPU1; 5; 3;");
    let debug = SadfConfig { debug: true, ..cfg() };
    assert!(rawed(&f, &debug).contains("CPU0; 5; 20; CPU1 [DEC]; 5; 3;"));
    let j = jsoned(&f, &cfg());
    assert_has_line(&j, "{\"intr\": \"9\", \"all\": 0.40, \"CPU0\": 0.30, \"CPU1\": 0.10}");
    let x = xmled(&f, &cfg());
    assert_has_line(&x, "<irq intr=\"9\" cpu=\"1\" value=\"0.10\"/>");
    assert_has_line(&x, "<int-global per=\"second\">");
    // One CPU, one interrupt.
    let narrow = SadfConfig {
        cpus: CpuSelection::Listed { aggregate: false, cpus: vec![1] },
        item_names: vec![NameFilter { id: ActivityId::IRQ, names: vec!["9".to_string()] }],
        ..SadfConfig::default()
    };
    assert_has_line(&db(&f, &narrow), "testhost;46;2018-08-29 09:34:34 UTC;9;0.10");
    assert!(!db(&f, &narrow).contains("sum"));
    assert_has_line(&jsoned(&f, &narrow), "{\"intr\": \"9\", \"CPU1\": 0.10}");
    // No interrupt: the list stays.
    let nothing = SadfConfig {
        item_names: vec![NameFilter { id: ActivityId::IRQ, names: vec!["x".to_string()] }],
        ..cfg()
    };
    assert!(jsoned(&f, &nothing).contains("\"interrupts\": [\n\n\t\t\t\t\t]"));
    assert!(xmled(&f, &nothing).contains("<int-global per=\"second\">\n\t\t\t\t\t</int-global>"));
}

#[test]
fn older_interrupts_have_numbers() {
    let mut s = sample(
        ActivityId::IRQ,
        &[it(&[("intr", 0, 100, 2.0)]), it(&[("intr", 0, 60, 1.5)]), it(&[("intr", 0, 40, 0.5)])],
    );
    s.curr.nr = 3;
    s.curr.nr2 = 1;
    let f = one_activity(ActivityId::IRQ, s, 3);
    let d = db(&f, &cfg());
    assert_has_line(&d, "testhost;46;2018-08-29 09:34:34 UTC;sum;2.00");
    assert_has_line(&d, "testhost;46;2018-08-29 09:34:34 UTC;0;1.50");
    assert_has_line(&d, "testhost;46;2018-08-29 09:34:34 UTC;1;0.50");
}

#[test]
fn cpus_that_were_off_are_shown_by_the_raw_format_only() {
    let ticks = |v: u64| it(&[("user", v, v + 10, 1.0)]);
    let mut s = sample(
        ActivityId::CPU,
        &[ticks(100), ticks(40), It { offline: true, ..it(&[]) }, ticks(60)],
    );
    let cols = columns_of(ActivityId::CPU);
    let put_right = snapshot(&cols, &it(&[("user", 0, 55, 0.0)]), true);
    s.cpus = vec![
        CpuFacts { offline: false, tickless: false, prev: snapshot(&cols, &ticks(100), false) },
        CpuFacts { offline: false, tickless: false, prev: snapshot(&cols, &ticks(40), false) },
        CpuFacts { offline: true, tickless: false, prev: snapshot(&cols, &It::default(), false) },
        CpuFacts { offline: false, tickless: true, prev: put_right },
    ];
    let f = one_activity(ActivityId::CPU, s, 4);
    let d = db(&f, &cfg());
    let cpus: Vec<&str> = d
        .lines()
        .filter(|l| l.contains(";46;"))
        .map(|l| l.split(';').nth(3).unwrap())
        .collect();
    assert_eq!(cpus, vec!["-1", "0", "2"]);
    let r = rawed(&f, &cfg());
    let lines: Vec<&str> = r.lines().filter(|l| l.contains("; CPU")).collect();
    // Room was made for as many CPUs as the restart has.
    assert_eq!(lines.len(), 9);
    assert!(lines[2].starts_with("09:34:34 UTC; CPU; 1; %usr; 0; 0; "));
    assert!(lines[3].starts_with("09:34:34 UTC; CPU; 2; %usr; 60; 70; "));
    assert!(lines[8].starts_with("09:34:34 UTC; CPU; 7; %usr; 0; 0; "));
    let debug = SadfConfig { debug: true, ..cfg() };
    let r = rawed(&f, &debug);
    assert!(r.contains("09:34:34 UTC; CPU; -1; %usr; 100; 110; "));
    assert!(r.contains("09:34:34 UTC; CPU [OFF]; 1; "));
    assert!(r.contains("09:34:34 UTC; CPU [TLS]; 2; %usr; 55; 70; "));
    assert!(r.contains("09:34:34 UTC; CPU [OFF]; 7; "));
    assert!(r.contains("# name; A_CPU; nr_curr; 4; nr_alloc; "));
    // Only the line for all CPUs.
    let one = SadfConfig { cpus: CpuSelection::Aggregate, ..cfg() };
    assert_eq!(db(&f, &one).lines().filter(|l| l.contains(";46;")).count(), 1);
}

#[test]
fn frequencies_end_at_zero() {
    let step = |khz: u64, before: u64, now: u64| {
        it(&[("freq_khz", 0, khz, 0.0), ("time_in_state", before, now, 0.0)])
    };
    let mut s = sample(
        ActivityId::PWR_FREQ,
        &[step(800, 1, 2), step(1_600, 5, 3), step(0, 7, 8), step(900, 1, 1), step(0, 0, 0), step(1, 1, 1)],
    );
    s.curr.nr = 2;
    s.curr.nr2 = 3;
    let f = one_activity(ActivityId::PWR_FREQ, s, 2);
    let r = rawed(&f, &cfg());
    assert_has_line(&r, "09:34:34 UTC; CPU; -1; freq; 800; tminst; 1; 2; freq; 1600; tminst; 5; 3;");
    assert_has_line(&r, "09:34:34 UTC; CPU; 0; freq; 900; tminst; 1; 1;");
    let debug = SadfConfig { debug: true, ..cfg() };
    assert!(rawed(&f, &debug).contains("freq; 1600; tminst [DEC]; 5; 3;"));
}

#[test]
fn devices_are_marked_as_new_or_back() {
    let dev = |key: &'static str, fresh: bool, replaced: bool| It {
        key: Some(key),
        fresh,
        replaced,
        ..it(&[("rxpck_per_sec", 9, 4, 0.0)])
    };
    let s = sample(
        ActivityId::NET_DEV,
        &[dev("lo", false, false), dev("eth0", true, false), dev("eth1", false, true)],
    );
    let f = one_activity(ActivityId::NET_DEV, s, 3);
    let debug = SadfConfig { debug: true, ..cfg() };
    let r = rawed(&f, &debug);
    assert!(r.contains("; IFACE; lo; rxpck/s [DEC]; 9; 4; "));
    assert!(r.contains("; IFACE [NEW]; eth0; rxpck/s; ; 4; "), "{r}");
    assert!(r.contains("; IFACE [BCK]; eth1; rxpck/s [DEC]; 9; 4; "));
    assert!(!rawed(&f, &cfg()).contains('['));
    let only = SadfConfig {
        item_names: vec![NameFilter { id: ActivityId::NET_DEV, names: vec!["eth1".to_string()] }],
        ..cfg()
    };
    assert_eq!(db(&f, &only).lines().filter(|l| l.contains(";46;")).count(), 1);
}

#[test]
fn a_new_serial_line_has_its_number_only() {
    let line = |n: u64, fresh: bool| It { fresh, ..it(&[("line", n, n, 0.0), ("rcvin", 1, 2, 0.5)]) };
    let mut s = sample(ActivityId::SERIAL, &[line(0, false), line(1, true)]);
    s.prev.as_mut().unwrap().items.truncate(1);
    let f = one_activity(ActivityId::SERIAL, s, 2);
    let r = rawed(&f, &cfg());
    assert!(r.contains("09:34:34 UTC; TTY; 0; rcvin/s; 1; 2; "));
    assert_has_line(&r, "09:34:34 UTC; TTY; 1;");
}

#[test]
fn kbavail_falls_back_to_kbmemfree_on_old_generations() {
    // The field is not in the file; the displayed value comes from the free memory.
    let mut s = sample(
        ActivityId::MEMORY,
        &[it(&[("kbmemfree", 0, 1_234, 1_234.0), ("kbavail", 0, 0, 1_234.0)])],
    );
    let col = s.def.columns.iter().position(|c| c.public_name == "kbavail").unwrap();
    s.plan.column_fields[col] = None;
    let pair = pair_of(&s);
    let item = pair.item(0).unwrap();
    let mem = lookup(ActivityId::MEMORY).unwrap();
    let fields = raw::raw_fields(&mem.sections[0], &cfg());
    let field = fields.iter().find(|f| f.name == "kbavail").unwrap();
    let mut tok = Vec::new();
    raw::push_raw_field(&mut tok, ActivityId::MEMORY, &item, field, false);
    assert_eq!(show(&raw::join_tokens(&tok)), "kbavail; 1234;\n");
}

#[test]
fn the_state_of_a_battery_has_a_name() {
    let s = sample(
        ActivityId::PWR_BAT,
        &[it(&[("capacity_pct", 80, 79, 79.0), ("status", 0, 2, 2.0)])],
    );
    let f = one_activity(ActivityId::PWR_BAT, s, 1);
    assert!(db(&f, &cfg()).contains(";79;0.00;Discharging\n"));
    assert!(rawed(&f, &cfg()).contains("; %cap; 80; 79; status; 2;\n"));
    let debug = SadfConfig { debug: true, ..cfg() };
    assert!(rawed(&f, &debug).contains("; %cap [DEC]; 80; 79; status; 2 [Discharging];\n"));
}

#[test]
fn headers_of_records_are_shown_to_those_who_look() {
    let mut f = file();
    f.activities = vec![entry(ActivityId::PCSW, 1)];
    f.records[2].slices.push(SliceCount { id: ActivityId::PCSW, nr: 1 });
    f.records.insert(2, record(RecordKind::Extra(5), DAY + 34_430, 0));
    let debug = SadfConfig { debug: true, ..cfg() };
    let r = rawed(&f, &debug);
    let types: Vec<&str> = r
        .lines()
        .filter(|l| l.starts_with("# uptime_cs"))
        .map(|l| l.split("; ").nth(7).unwrap())
        .collect();
    assert_eq!(types, vec!["2", "1", "5", "1"]);
    assert!(r.contains("# name; A_PCSW; nr_curr; 1; nr_alloc; 1; nr_ini; 1\n"), "{r}");
    assert!(!rawed(&f, &cfg()).contains("# "));
}

#[test]
fn header_output_stops_early_for_old_format() {
    let mut f = file();
    f.magic.format_magic = 0x2171;
    f.magic.version = "9.1.6".to_string();
    let out = header::write_header(&f);
    assert_eq!(out.lines().count(), 2, "{out}");
    assert_eq!(out.lines().next().unwrap(), "System activity data file: tests/data.tmp (0x2171)");
    assert!(
        out.lines()
            .nth(1)
            .unwrap()
            .starts_with("File created by sar/sadc from sysstat version 9.1.6")
    );
}

#[test]
fn header_output_describes_the_file() {
    let mut f = bare_file(vec![entry(ActivityId::CPU, 9)], Vec::new());
    f.header.tzname = Some("CEST".to_string());
    let want = "System activity data file: tests/data.tmp (0x2175)\n\
        File created by sar/sadc from sysstat version 11.6.5\n\
        Genuine sa datafile: yes (0)\n\
        Host: Linux 4.4.14 (testhost) \t08/29/18 \t_x86_64_\t(8 CPU)\n\
        File date: 2018-08-29\n\
        File time: 09:33:38 UTC (1535535218)\n\
        Timezone: CEST\n\
        File composition: (1,1,11),(0,0,9),(2,0,0)\n\
        Size of a long int: 8\n\
        HZ = 100\n\
        Number of activities in file: 1\n\
        Extra structures available: N\n\
        List of activities:\n\
        01: [8b] A_CPU                Y:   9\t(0,0,0)\n";
    assert_eq!(header::write_header(&f), want);
    f.magic.upgraded = Some(0x2171);
    f.layout.extra_next = Some(1);
    let out = header::write_header(&f);
    assert!(out.contains("Genuine sa datafile: no (2171)\n"));
    assert!(out.contains("Extra structures available: Y\n"));
}

#[test]
fn the_date_of_a_file_follows_the_time_base() {
    let mut h = header_of();
    h.day = 30;
    h.created.local.day = 28;
    assert_eq!(FileInfo::from_file(&h, "X").file_date, "2018-08-29");
    let with = |base| FileInfo::from_file_with(&h, base, "X").file_date;
    assert_eq!(with(TimeBase::TrueTime), "2018-08-30");
    assert_eq!(with(TimeBase::LocalTime), "2018-08-28");
    assert_eq!(with(TimeBase::SecEpoch), "2018-08-29");
    assert_eq!(FileInfo::from_file(&h, "X").cpu_count, 8);
    assert_eq!(FileInfo::from_file(&h, "X").local_tz, "X");
}

#[test]
fn groups_hold_their_activities() {
    let f = file();
    let j = jsoned(&f, &cfg());
    let x = xmled(&f, &cfg());
    let mut order: BTreeMap<usize, &str> = BTreeMap::new();
    for key in ["\"cpu-load\"", "\"memory\"", "\"hugepages\"", "\"disk\"", "\"network\"", "\"power-management\"", "\"filesystems\"", "\"psi\""] {
        order.insert(j.find(key).unwrap(), key);
    }
    let found: Vec<&str> = order.into_values().collect();
    assert_eq!(
        found,
        vec!["\"cpu-load\"", "\"memory\"", "\"hugepages\"", "\"disk\"", "\"network\"", "\"power-management\"", "\"filesystems\"", "\"psi\""]
    );
    // A list in the network group has no element of its own.
    assert!(x.contains("\t\t\t\t<network per=\"second\">\n\t\t\t\t\t<net-dev iface=\"lo\" "));
    assert!(x.contains("\t\t\t\t</network>\n\t\t\t\t<power-management>\n"));
    assert!(x.contains("\t\t\t\t<psi per=\"second\">\n\t\t\t\t\t<psi-cpu "));
    // A filter that leaves nothing leaves the element.
    let nothing = SadfConfig {
        item_names: vec![NameFilter { id: ActivityId::FS, names: vec!["x".to_string()] }],
        ..cfg()
    };
    assert!(xmled(&f, &nothing).contains("<filesystems>\n\t\t\t\t</filesystems>"));
}
