//! The text report.

use resarch::clock::{Civil, RecordTime};
use resarch::doc::{Doc, Form, Piece, SarUnit, Slot};
use resarch::model::{
    ActivityId, Availability, ComputeIssue, Computed, DecodePlan, FieldPlan, ItemSnapshot,
};
use resarch::sadf::select::next_slice;
use resarch::sadf::table::in_id_order;
use resarch::sar_text::block::{
    has_xstats, ratio_inputs, AverageFacts, EndFacts, RecordEvent, SampleHead, SarBlock, Verdict,
};
use resarch::sar_text::cell::bat_status_cell;
use resarch::sar_text::columns::{
    HUGE_TOTAL, MEM_TOTAL, SWP_TOTAL, BAT_CAP_PCT, BAT_ID, BAT_STATUS, CPU_IDLE,
    CPU_USER, DISK_MAJOR, DISK_MINOR, DISK_PART_NR, DISK_WWN_HIGH, MEM_FREE,
    MEM_USED_PCT, PSI_SOME_10, PSI_SOME_TOTAL, SERIAL_LINE, USB_BUS, USB_PRODUCT, USB_VENDOR,
};
use resarch::sar_text::extremes::{extrema_values, has_extrema, update_extremes};
use resarch::sar_text::groups::{recomputes_aggregate, ItemGroup, SampleItems};
use resarch::sar_text::header::{
    banner_date, header_line, real_cpu_count, report_date, restart_cpu_count, time_string,
    usb_header_line, write_banner, write_comment, write_restart, FileHeader, StarLabel,
};
use resarch::sar_text::layout::{
    bytes_per_sec, f0, f2, int_cell, kb, kb_avg, mb_from_bytes, pc2, percent, AvgKind, AvgLabel,
    BlockView, HeadItem, HeaderPolicy, TailItem,
};
use resarch::sar_text::lines::{
    build_rows, render_row, zero_omit_applies, LineFacts, Row, RowMode,
};
use resarch::sar_text::options::{CpuSelection, NameFilter, SampleSelect, SarTextOptions, TimeStyle};
use resarch::sar_text::report::{
    activities_in_file, block_records, check_irq_name_filter, irq_plan_has_names, plan_regions,
    write_report, PlanRecord, RangeVerdict, Region, SliceState,
};
use resarch::sar_text::rows::{
    disk_name, name_selected, row_label, ItemKey, RowLabel, RowTail,
};
use resarch::sar_text::run::{plan_report, Next};
use resarch::text::pad_right;

/// A document as it is printed.
fn show(doc: &Doc) -> String {
    let mut out = String::new();
    for piece in &doc.pieces {
        match piece {
            Piece::Text(s) => out.push_str(s),
            Piece::Bytes(b) => out.push_str(&String::from_utf8_lossy(b)),
            Piece::Number(n) => out.push_str(&number(n)),
            Piece::Average(m, form, width) => {
                let sum: f64 = m.summands.iter().map(|b| f64::from_bits(*b)).sum();
                let bits = (sum / m.count as f64).to_bits();
                out.push_str(&number(&Slot { bits, form: *form, width: *width }));
            }
        }
    }
    out
}

fn whole(x: f64) -> u64 {
    if x <= 0.0 {
        0
    } else {
        x as u64
    }
}

fn count(x: f64) -> u64 {
    if x.is_finite() {
        whole(x)
    } else {
        0
    }
}

fn number(n: &Slot) -> String {
    let x = f64::from_bits(n.bits);
    let text = match n.form {
        Form::Fixed { decimals, divisor, sign } => {
            let v = x / f64::from(divisor);
            let d = usize::from(decimals);
            if sign {
                format!("{v:+.d$}")
            } else {
                format!("{v:.d$}")
            }
        }
        Form::Whole { divisor } => format!("{}", whole(x / f64::from(divisor))),
        Form::Hex => format!("{:x}", whole(x)),
        Form::Count => format!("{}", count(x)),
        Form::CountHex => format!("{:x}", count(x)),
        Form::CFixed { decimals } => {
            let d = usize::from(decimals);
            if x.is_nan() {
                if x.is_sign_negative() { "-nan".to_string() } else { "nan".to_string() }
            } else if x.is_infinite() {
                if x > 0.0 { "inf".to_string() } else { "-inf".to_string() }
            } else {
                format!("{x:.d$}")
            }
        }
        Form::Scaled { unit, decimals } => {
            let letters: Vec<char> = "sBkMGTP?".chars().collect();
            let mut v = x;
            let mut i = unit.index();
            while v >= 1024.0 {
                v /= 1024.0;
                i += 1;
            }
            let d = usize::from(decimals);
            let letter = letters[i.min(letters.len() - 1)];
            return format!("{v:>w$.d$}{letter}", w = n.width.saturating_sub(1));
        }
    };
    format!("{text:>w$}", w = n.width)
}

const TSW: usize = 11;

fn bits(v: f64) -> Computed {
    Ok(v.to_bits())
}

fn values(v: &[f64]) -> Vec<Computed> {
    v.iter().map(|x| bits(*x)).collect()
}

/// A plan whose columns are the values of an item one by one.
fn plan(columns: usize, texts: &[&str]) -> DecodePlan {
    DecodePlan {
        fields: (0..columns)
            .map(|i| FieldPlan { name: format!("field{i}"), available: true })
            .collect(),
        column_fields: (0..columns).map(Some).collect(),
        text_fields: texts.iter().map(|t| (*t).to_string()).collect(),
        nr2: 1,
        serial_line_offset: 0,
    }
}

fn zeros(p: &DecodePlan) -> ItemSnapshot {
    ItemSnapshot {
        key: None,
        texts: Vec::new(),
        values: vec![Availability::Present(0); p.fields.len()],
    }
}

fn put(item: &mut ItemSnapshot, column: usize, v: u64) {
    item.values[column] = Availability::Present(v);
}

fn name(p: &DecodePlan, item: &mut ItemSnapshot, text: &str) {
    item.key = Some(text.to_string());
    item.texts = vec![None; p.text_fields.len().max(1)];
    item.texts[0] = Some(text.to_string());
}

fn copy(i: &ItemSnapshot) -> ItemSnapshot {
    ItemSnapshot { key: i.key.clone(), texts: i.texts.clone(), values: i.values.clone() }
}

fn block(id: ActivityId, opts: &SarTextOptions) -> SarBlock<'_> {
    SarBlock::blocks_for(id, opts, None, SampleSelect::default()).remove(0)
}

fn line_facts(values: Vec<Computed>) -> LineFacts {
    LineFacts {
        offline: false,
        unused: false,
        reregistered: false,
        cpu_offline: false,
        tickless: false,
        values,
    }
}

fn items<'a>(p: &'a DecodePlan, list: &'a Vec<ItemSnapshot>) -> SampleItems<'a> {
    SampleItems { plan: p, items: list, nr2: 1, aggregate: None }
}

/// The plain sum of the items after the first.
fn sum_of(p: &DecodePlan, list: &[ItemSnapshot]) -> ItemSnapshot {
    let mut sum = zeros(p);
    for column in 0..p.fields.len() {
        let total = list.iter().skip(1).map(|i| value_of(i, column)).sum();
        put(&mut sum, column, total);
    }
    sum
}

fn value_of(item: &ItemSnapshot, column: usize) -> u64 {
    match item.values[column] {
        Availability::Present(v) => v,
        _ => 0,
    }
}

/// The items of a sample, with their sum where the first of them is made anew.
fn items_of<'a>(
    id: ActivityId,
    p: &'a DecodePlan,
    list: &'a Vec<ItemSnapshot>,
    sum: &'a ItemSnapshot,
) -> SampleItems<'a> {
    let aggregate = if recomputes_aggregate(id) && list.len() > 1 { Some(sum) } else { None };
    let s = SampleItems { plan: p, items: list, nr2: 1, aggregate };
    assert!(s.is_for(id));
    s
}

fn at(hms: (u8, u8, u8)) -> RecordTime {
    RecordTime {
        ust_time: 0,
        hour: hms.0,
        minute: hms.1,
        second: hms.2,
        local: Civil { year: 1970, month: 1, day: 1, hour: 0, minute: 0, second: 0 },
    }
}

/// The rows of a sample of which `facts` are known, one for each line.
fn rows_of(
    blk: &SarBlock<'_>,
    p: &DecodePlan,
    prev: &Vec<ItemSnapshot>,
    curr: &Vec<ItemSnapshot>,
    facts: Vec<LineFacts>,
) -> Vec<Row> {
    let (prev_sum, sum) = (sum_of(p, prev), sum_of(p, curr));
    let a = items_of(blk.activity(), p, prev, &prev_sum);
    let b = items_of(blk.activity(), p, curr, &sum);
    let online: Vec<bool> = Vec::new();
    let before: Vec<ItemGroup> = blk.lines_at(&a, &online);
    let lines: Vec<ItemGroup> = blk.lines_at(&b, &online);
    assert_eq!(lines.len(), facts.len());
    build_rows(&blk.view, blk.opts, &a, &before, &b, &lines, &facts)
}

fn text_of(blk: &SarBlock<'_>, title: &str, row: &Row, mode: RowMode) -> String {
    show(&render_row(&blk.view, blk.opts, title, row, mode))
}

/// A sample of a block: its time, its uptime, its items, and what is known of its lines when it
/// is compared with an earlier sample.
struct Smp {
    hms: (u8, u8, u8),
    uptime_cs: u64,
    items: Vec<ItemSnapshot>,
}

/// Shows samples one after the other; the first is the reference.
fn play(
    blk: &mut SarBlock<'_>,
    p: &DecodePlan,
    samples: &[Smp],
    facts: &dyn Fn(&Smp, &Smp, &ItemGroup) -> LineFacts,
) -> String {
    let mut text = String::new();
    for (k, s) in samples.iter().enumerate() {
        let head = SampleHead {
            sample: k,
            time: at(s.hms),
            uptime_cs: s.uptime_cs,
            before: k.saturating_sub(1),
            has_prev: true,
            continuous: true,
        };
        let sum = sum_of(p, &s.items);
        let here = items_of(blk.activity(), p, &s.items, &sum);
        if let Verdict::Show { against } = blk.record(&head, Some(&here)) {
            let prev = &samples[against.sample];
            let online: Vec<bool> = Vec::new();
            let known: Vec<LineFacts> =
                blk.lines_at(&here, &online).iter().map(|g| facts(prev, s, g)).collect();
            let prev_sum = sum_of(p, &prev.items);
            let earlier = items_of(blk.activity(), p, &prev.items, &prev_sum);
            text.push_str(&show(&blk.show(&head, &earlier, &here, &online, &known)));
        }
    }
    text
}

fn average(v: &[f64]) -> AverageFacts {
    AverageFacts {
        offline: false,
        rates: values(v),
        ratios: values(v),
        lasts: values(v),
    }
}

fn ends(items: Vec<AverageFacts>) -> EndFacts {
    EndFacts { online: Vec::new(), items }
}

/// What is known at the end of a block where every average but the means is 0.
fn zero_ends(blk: &SarBlock<'_>) -> EndFacts {
    ends(blk.items.iter().map(|_| average(&vec![0.0; blk.view.cells.len()])).collect())
}

// ---- columns ----

fn cell(c: resarch::sar_text::layout::Cell, v: f64, opts: &SarTextOptions) -> String {
    show(&c.render(bits(v), opts))
}

#[test]
fn one_value_column_is_ten_bytes() {
    let opts = SarTextOptions::default();
    assert_eq!(cell(f2(), 0.0, &opts), "      0.00");
    assert_eq!(cell(f2(), 0.0, &opts).len(), 10);
    assert_eq!(cell(f2(), 98.75, &opts), "     98.75");
    assert_eq!(cell(int_cell(), 1_437_740.0, &opts).len(), 10);
}

#[test]
fn dec_changes_precision_not_width() {
    let mut opts = SarTextOptions::default();
    assert_eq!(cell(f2(), 2.15, &opts), "      2.15");
    opts.dec_places = Some(0);
    assert_eq!(cell(f2(), 2.15, &opts), "         2");
    opts.dec_places = Some(1);
    assert_eq!(cell(f2(), 2.15, &opts), "       2.1");
    for d in [None, Some(0), Some(1), Some(2)] {
        opts.dec_places = d;
        assert_eq!(cell(f2(), 2.15, &opts).len(), 10, "{d:?}");
    }
}

#[test]
fn dec_does_not_touch_integer_columns() {
    let opts = SarTextOptions { dec_places: Some(2), ..Default::default() };
    assert_eq!(cell(int_cell(), 396.0, &opts), "       396");
    assert_eq!(cell(f0(), 396.0, &opts), "       396");
}

#[test]
fn human_percent_keeps_width() {
    let mut opts = SarTextOptions::default();
    assert_eq!(cell(pc2(), 82.88, &opts), "     82.88");
    opts.human = true;
    let s = cell(pc2(), 82.88, &opts);
    assert_eq!(s, "     82.9%");
    assert_eq!(s.len(), 10);
}

#[test]
fn human_unit_uses_1024_and_one_decimal() {
    let mut opts = SarTextOptions { human: true, ..Default::default() };
    assert_eq!(cell(kb(), 1_437_740.0, &opts), "      1.4G");
    assert_eq!(cell(kb(), 1_023.9, &opts), "   1023.9k");
    assert_eq!(cell(kb(), 1_024.0, &opts), "      1.0M");
    opts.dec_places = Some(0);
    assert_eq!(cell(kb(), 1_024.0, &opts), "        1M");
    opts.human = false;
    opts.dec_places = None;
    assert_eq!(cell(kb(), 1_437_740.0, &opts), "   1437740");
    assert_eq!((SarUnit::Plain.index(), SarUnit::Byte.index(), SarUnit::Kilobyte.index()), (0, 1, 2));
}

#[test]
fn net_dev_kb_column_divides_only_without_human() {
    let mut opts = SarTextOptions::default();
    assert_eq!(cell(bytes_per_sec(), 2_048.0, &opts), "      2.00");
    opts.human = true;
    assert_eq!(cell(bytes_per_sec(), 0.0, &opts), "      0.0B");
}

#[test]
fn fs_mb_column_converts_bytes() {
    let opts = SarTextOptions::default();
    assert_eq!(cell(mb_from_bytes(), 705.0 * 1024.0 * 1024.0, &opts), "       705");
}

#[test]
fn unknown_values_are_not_rendered_as_zero() {
    let opts = SarTextOptions::default();
    assert_eq!(show(&f2().render(Err(ComputeIssue::NotImplemented), &opts)), "         ?");
    assert_eq!(show(&f2().render(Err(ComputeIssue::UnsupportedBySource), &opts)), "      0.00");
}

#[test]
fn bat_status_pads_by_bytes() {
    let charging = bat_status_cell(1);
    assert_eq!(charging.len(), 12);
    assert_eq!(charging.chars().count(), 10);
    assert_eq!(charging, "         \u{2197}");

    let unknown = bat_status_cell(0);
    assert_eq!(unknown.len(), 10);
    assert_eq!(unknown, "         ?");

    let naive = format!(" {:>11}", "\u{2197}");
    assert_eq!(naive.len(), 14);
    assert_ne!(naive.len(), charging.len());
}

#[test]
fn bat_status_row_length_differs_by_two_bytes() {
    assert_eq!(bat_status_cell(4).len() - bat_status_cell(0).len(), 2);
}

// ---- headings ----

fn heading(view: &BlockView) -> String {
    header_line("10:00:01", view.hdr_line, view.pos, view.iwidth, view.ext, &Vec::new())
}

#[test]
fn cpu_all_header_matches_upstream() {
    let opts = SarTextOptions { cpu_all: true, ..Default::default() };
    let view = &BlockView::all_for(ActivityId::CPU, &opts)[0];
    let got = header_line("09:33:48", view.hdr_line, view.pos, view.iwidth, view.ext, &Vec::new());
    assert_eq!(
        got,
        "\n09:33:48        CPU      %usr     %nice      %sys   %iowait    %steal      %irq     %soft    %guest    %gnice     %idle\n"
    );
    assert_eq!(got.trim_start_matches('\n').trim_end().len(), 119);
}

#[test]
fn cpu_default_header_matches_upstream() {
    let opts = SarTextOptions::default();
    assert_eq!(
        heading(&BlockView::all_for(ActivityId::CPU, &opts)[0]),
        "\n10:00:01        CPU     %user     %nice   %system   %iowait    %steal     %idle\n"
    );
}

#[test]
fn memory_header_extension_is_gated_by_ampersand() {
    let opts = SarTextOptions::default();
    let hdr = BlockView::all_for(ActivityId::MEMORY, &opts)[0].hdr_line;
    let line = |pos: usize, ext: bool| header_line("10:00:01", hdr, pos, 0, ext, &Vec::new());
    let short = line(0, false);
    assert!(short.trim_end().ends_with("kbshmem"), "{short}");
    assert_eq!(short.trim_start_matches('\n').trim_end().len(), 131);

    let long = line(0, true);
    assert!(long.trim_end().ends_with("kbvmused"), "{long}");
    assert_eq!(long.trim_start_matches('\n').trim_end().len(), 181);

    assert_eq!(
        line(1, false),
        "\n10:00:01    kbswpfree kbswpused  %swpused  kbswpcad   %swpcad\n"
    );
    assert_eq!(line(2, false), "");
}

#[test]
fn negative_iwidth_moves_token_to_end() {
    let hdr = "DEV;tps;rkB/s;wkB/s;dkB/s;areq-sz;aqu-sz;await;%util";
    assert_eq!(
        header_line("13:20:09", hdr, 0, -1, false, &Vec::new()),
        "\n13:20:09          tps     rkB/s     wkB/s     dkB/s   areq-sz    aqu-sz     await     %util DEV\n"
    );
    assert_eq!(
        header_line("10:00:01", hdr, 0, 0, false, &Vec::new()),
        "\n10:00:01          DEV       tps     rkB/s     wkB/s     dkB/s   areq-sz    aqu-sz     await     %util\n"
    );
}

#[test]
fn sensor_header_moves_device_to_end() {
    let line = |hdr: &str| header_line("10:00:01", hdr, 0, -2, false, &Vec::new());
    assert_eq!(line("FAN;DEVICE;rpm;drpm"), "\n10:00:01          FAN       rpm      drpm DEVICE\n");
    assert_eq!(
        line("TEMP;DEVICE;degC;%temp"),
        "\n10:00:01         TEMP      degC     %temp DEVICE\n"
    );
    assert_eq!(line("IN;DEVICE;inV;%in"), "\n10:00:01           IN       inV       %in DEVICE\n");
}

#[test]
fn irq_header_expands_cpu_columns() {
    let labels = vec![StarLabel::Aggregate, StarLabel::Index(0), StarLabel::Index(1)];
    assert_eq!(
        header_line("10:00:01", "INTR;CPU*", 0, 0, false, &labels),
        "\n10:00:01         INTR       all      CPU0      CPU1\n"
    );
    assert_eq!(
        header_line("10:00:01", "INTR;CPU*", 0, -1, false, &labels),
        "\n10:00:01          all      CPU0      CPU1 INTR\n"
    );
}

#[test]
fn usb_header_is_hand_written() {
    assert_eq!(
        usb_header_line("10:00:01"),
        "\n10:00:01        BUS  idvendor    idprod  maxpower manufact                product\n"
    );
}

#[test]
fn misc_headers_match_upstream() {
    let cases: &[(ActivityId, &str)] = &[
        (ActivityId::PCSW, "\n10:00:01       proc/s   cswch/s\n"),
        (ActivityId::SWAP, "\n10:00:01     pswpin/s pswpout/s\n"),
        (
            ActivityId::IO,
            "\n10:00:01          tps      rtps      wtps      dtps   bread/s   bwrtn/s   bdscd/s\n",
        ),
        (ActivityId::KTABLES, "\n10:00:01    dentunusd   file-nr  inode-nr    pty-nr\n"),
        (
            ActivityId::QUEUE,
            "\n10:00:01      runq-sz  plist-sz   ldavg-1   ldavg-5  ldavg-15   blocked\n",
        ),
        (
            ActivityId::HUGE,
            "\n10:00:01    kbhugfree kbhugused  %hugused kbhugrsvd kbhugsurp\n",
        ),
        (
            ActivityId::NET_SOCK,
            "\n10:00:01       totsck    tcpsck    udpsck    rawsck   ip-frag    tcp-tw\n",
        ),
        (ActivityId::NET_TCP, "\n10:00:01     active/s passive/s    iseg/s    oseg/s\n"),
        (ActivityId::PSI_CPU, "\n10:00:01     %scpu-10  %scpu-60 %scpu-300     %scpu\n"),
        (
            ActivityId::PSI_IO,
            "\n10:00:01      %sio-10   %sio-60  %sio-300      %sio   %fio-10   %fio-60  %fio-300      %fio\n",
        ),
        (
            ActivityId::PSI_MEM,
            "\n10:00:01     %smem-10  %smem-60 %smem-300     %smem  %fmem-10  %fmem-60 %fmem-300     %fmem\n",
        ),
        (ActivityId::PWR_CPU, "\n10:00:01        CPU       MHz\n"),
        (ActivityId::PWR_FREQ, "\n10:00:01        CPU    wghMHz\n"),
        (ActivityId::PWR_BAT, "\n10:00:01          BAT      %cap   cap/min    status\n"),
        (
            ActivityId::NET_SOFT,
            "\n10:00:01        CPU   total/s   dropd/s squeezd/s  rx_rps/s flw_lim/s   blg_len\n",
        ),
        (
            ActivityId::NET_FC,
            "\n10:00:01    fch_rxf/s fch_txf/s fch_rxw/s fch_txw/s FCHOST\n",
        ),
        (
            ActivityId::FS,
            "\n10:00:01     MBfsfree  MBfsused   %fsused  %ufsused     Ifree     Iused    %Iused FILESYSTEM\n",
        ),
        (
            ActivityId::SERIAL,
            "\n10:00:01          TTY   rcvin/s   xmtin/s framerr/s prtyerr/s     brk/s   ovrun/s\n",
        ),
        (
            ActivityId::NET_DEV,
            "\n10:00:01        IFACE   rxpck/s   txpck/s    rxkB/s    txkB/s   rxcmp/s   txcmp/s  rxmcst/s   %ifutil\n",
        ),
        (
            ActivityId::NET_EDEV,
            "\n10:00:01        IFACE   rxerr/s   txerr/s    coll/s  rxdrop/s  txdrop/s  txcarr/s  rxfram/s  rxfifo/s  txfifo/s\n",
        ),
        (
            ActivityId::PAGE,
            "\n10:00:01     pgpgin/s pgpgout/s   fault/s  majflt/s  pgfree/s pgscank/s pgscand/s pgsteal/s  pgprom/s   pgdem/s\n",
        ),
    ];
    let opts = SarTextOptions::default();
    for (id, expected) in cases {
        assert_eq!(&heading(&BlockView::all_for(*id, &opts)[0]), expected, "{id:?}");
    }
}

#[test]
fn fs_mount_header_uses_mountpoint() {
    let opts = SarTextOptions { mount: true, ..Default::default() };
    let got = heading(&BlockView::all_for(ActivityId::FS, &opts)[0]);
    assert!(got.trim_end().ends_with(" MOUNTPOINT"), "{got}");
}

#[test]
fn filesystems_go_by_their_mount_point_where_asked_for() {
    let p = plan(8, &["fs_name", "mountp"]);
    let mut fs = zeros(&p);
    fs.key = Some("/dev/sda9".to_string());
    fs.texts = vec![Some("/dev/sda9".to_string()), Some("/home".to_string())];
    let list = vec![fs];
    let facts = || vec![line_facts(values(&[0.0; 7]))];
    let line = |opts: &SarTextOptions| {
        let blk = block(ActivityId::FS, opts);
        let rows = rows_of(&blk, &p, &list, &list, facts());
        rows.iter().map(|r| text_of(&blk, "10:00:01", r, RowMode::Instant)).collect::<String>()
    };
    assert!(line(&SarTextOptions::default()).ends_with(" /dev/sda9\n"));
    let mount = SarTextOptions { mount: true, ..Default::default() };
    assert!(line(&mount).ends_with(" /home\n"));
    // The filter compares the names that are shown.
    let filter = |name: &str, mount: bool| SarTextOptions {
        mount,
        item_names: vec![NameFilter { id: ActivityId::FS, names: vec![name.to_string()] }],
        ..Default::default()
    };
    assert!(line(&filter("/dev/sda9", true)).is_empty());
    assert!(!line(&filter("/home", true)).is_empty());
    assert!(!line(&filter("/dev/sda9", false)).is_empty());
    // A file without mount points shows none.
    let old = plan(8, &["fs_name"]);
    let blk = block(ActivityId::FS, &mount);
    let rows = rows_of(&blk, &old, &list, &list, facts());
    assert!(text_of(&blk, "10:00:01", &rows[0], RowMode::Instant).ends_with(" 0.00 \n"));
}

#[test]
fn every_activity_has_a_header_and_cells() {
    let opts = SarTextOptions { memory: true, swap: true, ..Default::default() };
    let mut covered = 0;
    for spec in in_id_order() {
        let id = spec.id;
        let views = BlockView::all_for(id, &opts);
        assert!(!views.is_empty(), "{id:?}");
        for view in &views {
            assert!(!view.cells.is_empty(), "{id:?}");
            let line = if id == ActivityId::PWR_USB {
                usb_header_line("10:00:01")
            } else {
                header_line(
                    "10:00:01",
                    view.hdr_line,
                    view.pos,
                    view.iwidth,
                    view.ext,
                    &vec![StarLabel::Aggregate],
                )
            };
            assert!(line.starts_with("\n10:00:01   "), "{id:?}: {line:?}");
            assert!(line.ends_with('\n'));
        }
        covered += 1;
    }
    assert_eq!(covered, 43);
}

// ---- events ----

#[test]
fn restart_line_matches_upstream() {
    let mut out = String::new();
    write_restart(&mut out, "09:33:38", 8);
    assert_eq!(out, "\n09:33:38     LINUX RESTART\t(8 CPU)\n");
}

#[test]
fn comment_line_has_no_leading_blank() {
    let mut out = String::new();
    write_comment(&mut out, "09:34:30", "Hello, world!");
    assert_eq!(out, "09:34:30     COM Hello, world!\n");
}

#[test]
fn comment_replaces_nonprintable_characters() {
    let mut out = String::new();
    write_comment(&mut out, "09:34:30", "a\tb\u{7}c");
    assert_eq!(out, "09:34:30     COM a.b.c\n");
}

#[test]
fn real_cpu_count_subtracts_the_aggregate_slot() {
    assert_eq!(real_cpu_count(Some(9)), 8);
    assert_eq!(real_cpu_count(Some(1)), 1);
    assert_eq!(real_cpu_count(None), 1);
}

#[test]
fn report_date_is_mm_dd_yy() {
    assert_eq!(report_date(2018, 8, 29), "08/29/18");
    assert_eq!(report_date(2026, 1, 2), "01/02/26");
    assert_eq!(report_date(-1, 1, 2), "01/02/99");
}

fn file_header() -> FileHeader {
    FileHeader {
        sysname: "Linux".to_string(),
        release: "5.0.0".to_string(),
        nodename: "testhost".to_string(),
        machine: "x86_64".to_string(),
        created: RecordTime { ust_time: 1_568_533_161, ..at((0, 0, 0)) },
        year: 2019,
        month: 10,
        day: 15,
        cpu_nr: Some(9),
        tzname: None,
    }
}

#[test]
fn banner_date_comes_from_ust_time_unless_true_time() {
    let h = file_header();
    assert_eq!(banner_date(&h, TimeStyle::Utc), "09/15/19");
    assert_eq!(banner_date(&h, TimeStyle::Recorded), "10/15/19");
    assert_eq!(
        write_banner(&h, TimeStyle::Utc),
        "Linux 5.0.0 (testhost) \t09/15/19 \t_x86_64_\t(8 CPU)\n"
    );
}

#[test]
fn times_are_shown_in_their_style() {
    let t = RecordTime {
        ust_time: 1_568_533_161,
        local: Civil { year: 2019, month: 9, day: 15, hour: 9, minute: 39, second: 21 },
        ..at((1, 2, 3))
    };
    assert_eq!(time_string(&t, TimeStyle::Utc), "07:39:21");
    assert_eq!(time_string(&t, TimeStyle::Recorded), "01:02:03");
    assert_eq!(time_string(&t, TimeStyle::Local), "09:39:21");
    assert_eq!(time_string(&t, TimeStyle::Epoch), "1568533161");
}

#[test]
fn restart_cpu_count_falls_back_to_the_file_header() {
    assert_eq!(restart_cpu_count(Some(9), Some(3)), 8);
    assert_eq!(restart_cpu_count(None, Some(9)), 8);
    assert_eq!(restart_cpu_count(None, None), 1);
}

#[test]
fn row_labels_are_eleven_bytes() {
    for label in ["09:34:34", "Average:", "Summary:", "Minimum:", "Maximum:"] {
        assert_eq!(pad_right(label, TSW).len(), 11, "{label}");
    }
    assert_eq!(pad_right("Last:", TSW), "Last:      ");
}

// ---- lines ----

#[test]
fn cpu_row_matches_upstream_columns() {
    let opts = SarTextOptions::default();
    let blk = block(ActivityId::CPU, &opts);
    let p = plan(13, &[]);
    let (prev, curr) = (vec![zeros(&p)], vec![zeros(&p)]);
    let rows = rows_of(
        &blk,
        &p,
        &prev,
        &curr,
        vec![line_facts(values(&[0.47, 0.0, 0.70, 0.08, 0.0, 98.75]))],
    );
    let s = text_of(&blk, "09:34:34", &rows[0], RowMode::Instant);
    assert_eq!(
        s,
        "09:34:34        all      0.47      0.00      0.70      0.08      0.00     98.75\n"
    );
    assert_eq!(s.len(), 11 + 8 + 60 + 1);
}

#[test]
fn offline_cpu_row_is_suppressed() {
    let opts = SarTextOptions { cpus: CpuSelection::All, ..Default::default() };
    let blk = block(ActivityId::CPU, &opts);
    let p = plan(13, &[]);
    let list = vec![zeros(&p), zeros(&p)];
    let off = LineFacts { cpu_offline: true, ..line_facts(values(&[0.0; 6])) };
    let rows = rows_of(&blk, &p, &list, &list, vec![line_facts(values(&[0.0; 6])), off]);
    assert_eq!(rows.len(), 1);
}

#[test]
fn tickless_cpu_row_is_all_zero_with_full_idle() {
    let opts = SarTextOptions { cpus: CpuSelection::All, ..Default::default() };
    let blk = block(ActivityId::CPU, &opts);
    let p = plan(13, &[]);
    let list = vec![zeros(&p), zeros(&p)];
    let idle = LineFacts { tickless: true, ..line_facts(values(&[1.0; 6])) };
    let rows = rows_of(&blk, &p, &list, &list, vec![line_facts(values(&[0.0; 6])), idle]);
    assert_eq!(
        text_of(&blk, "10:00:01", &rows[1], RowMode::Instant),
        "10:00:01          0      0.00      0.00      0.00      0.00      0.00    100.00\n"
    );
}

#[test]
fn disk_device_name_defaults_to_major_minor() {
    let p = plan(13, &[]);
    let mut item = zeros(&p);
    put(&mut item, DISK_MAJOR, 8);
    put(&mut item, DISK_MINOR, 0);
    assert_eq!(disk_name(&p, &item, false), "dev8-0");
    put(&mut item, DISK_WWN_HIGH, 0x5000_c500_0000_0001);
    put(&mut item, DISK_PART_NR, 3);
    assert_eq!(disk_name(&p, &item, true), "0x5000c50000000001-3");
}

#[test]
fn pretty_moves_item_name_to_row_end() {
    let plain_opts = SarTextOptions::default();
    let plain = block(ActivityId::DISK, &plain_opts);
    assert_eq!(plain.view.head, HeadItem::Name9);
    assert_eq!(plain.view.tail, TailItem::Nothing);
    let pretty_opts = SarTextOptions { pretty: true, ..Default::default() };
    let pretty = block(ActivityId::DISK, &pretty_opts);
    assert_eq!(pretty.view.head, HeadItem::Nothing);
    assert_eq!(pretty.view.tail, TailItem::Name);
    assert_eq!(pretty.view.iwidth, -1);
}

#[test]
fn sensor_index_origin_differs_per_activity() {
    let opts = SarTextOptions::default();
    for (id, expected) in
        [(ActivityId::PWR_FAN, 1), (ActivityId::PWR_TEMP, 1), (ActivityId::PWR_IN, 0)]
    {
        let blk = block(id, &opts);
        let p = plan(4, &["device"]);
        let label = row_label(blk.view.head, id, &opts, &p, &zeros(&p), 0);
        assert!(matches!(label, RowLabel::Number(n) if n == expected), "{id:?}: {label:?}");
    }
}

#[test]
fn bat_capacity_precision_differs_between_row_and_average() {
    let opts = SarTextOptions::default();
    let blk = block(ActivityId::PWR_BAT, &opts);
    let cap = blk.view.cells[0];
    assert_eq!(cap.cell, percent(0));
    assert_eq!(cap.avg_cell, percent(2));
    assert_eq!(cell(cap.cell, 100.0, &opts), "       100");
    assert_eq!(cell(cap.avg_cell, 80.5, &opts), "     80.50");
    assert!(!blk.view.cells[2].in_average);
}

#[test]
fn memory_average_uses_float_with_zero_decimals() {
    let opts = SarTextOptions::default();
    let blk = block(ActivityId::MEMORY, &opts);
    let free = blk.view.cells[0];
    assert_eq!(free.cell, kb());
    assert_eq!(free.avg_cell, kb_avg());
    assert_eq!(cell(free.cell, 4_066_192.0, &opts), "   4066192");
    assert_eq!(cell(free.avg_cell, 4_066_192.4, &opts), "   4066192");
}

#[test]
fn average_method_is_pinned_per_activity() {
    let opts = SarTextOptions { memory: true, swap: true, ..Default::default() };
    let all = |id: ActivityId, kind: AvgKind| {
        assert!(block(id, &opts).view.cells.iter().all(|c| c.avg == kind), "{id:?}");
    };
    for id in [
        ActivityId::PCSW,
        ActivityId::PAGE,
        ActivityId::IO,
        ActivityId::DISK,
        ActivityId::NET_DEV,
        ActivityId::NET_FC,
        ActivityId::CPU,
    ] {
        all(id, AvgKind::Rate);
    }
    for id in [ActivityId::KTABLES, ActivityId::QUEUE, ActivityId::NET_SOCK, ActivityId::NET_SOCK6] {
        all(id, AvgKind::Mean);
    }
    let mem = block(ActivityId::MEMORY, &opts);
    assert_eq!(mem.view.cells[MEM_FREE].avg, AvgKind::Mean);
    assert_eq!(mem.view.cells[MEM_USED_PCT].avg, AvgKind::MeanRatio);
    for id in [ActivityId::FS, ActivityId::PWR_USB] {
        all(id, AvgKind::Last);
    }
    let soft = block(ActivityId::NET_SOFT, &opts);
    assert_eq!(soft.view.cells[0].avg, AvgKind::Rate);
    assert_eq!(soft.view.cells[5].avg, AvgKind::Mean);
    let psi = block(ActivityId::PSI_IO, &opts);
    assert_eq!(psi.view.cells[PSI_SOME_10].avg, AvgKind::Mean);
    assert_eq!(psi.view.cells[PSI_SOME_TOTAL].avg, AvgKind::Rate);
}

#[test]
fn average_labels_are_activity_specific() {
    let opts = SarTextOptions::default();
    assert_eq!(block(ActivityId::CPU, &opts).view.avg_label, AvgLabel::Average);
    assert_eq!(block(ActivityId::PWR_USB, &opts).view.avg_label, AvgLabel::Summary);
    assert_eq!(block(ActivityId::FS, &opts).view.avg_label, AvgLabel::SummaryOrLast);
}

#[test]
fn irq_prints_header_every_sample() {
    let opts = SarTextOptions::default();
    assert_eq!(block(ActivityId::IRQ, &opts).view.header, HeaderPolicy::EverySample);
    assert_eq!(block(ActivityId::CPU, &opts).view.header, HeaderPolicy::Once);
    let z = SarTextOptions { zero_omit: true, ..Default::default() };
    assert_eq!(block(ActivityId::DISK, &z).view.header, HeaderPolicy::EverySample);
}

#[test]
fn cpu_selection_maps_bit0_to_aggregate() {
    assert!(CpuSelection::Aggregate.includes(0));
    assert!(!CpuSelection::Aggregate.includes(1));
    assert!(CpuSelection::All.includes(0));
    assert!(CpuSelection::All.includes(5));
    let listed = CpuSelection::Listed { aggregate: false, cpus: vec![0, 2] };
    assert!(!listed.includes(0));
    assert!(listed.includes(1));
    assert!(!listed.includes(2));
    assert!(listed.includes(3));
}

#[test]
fn memory_yields_two_blocks_for_r_and_s() {
    let opts = SarTextOptions { memory: true, swap: true, ..Default::default() };
    let blocks = SarBlock::blocks_for(ActivityId::MEMORY, &opts, None, SampleSelect::default());
    assert_eq!(blocks.len(), 2);
    assert_eq!(blocks[0].view.pos, 0);
    assert_eq!(blocks[1].view.pos, 1);
    assert_eq!(blocks[0].activity(), ActivityId::MEMORY);
    let plain = SarTextOptions::default();
    assert_eq!(
        SarBlock::blocks_for(ActivityId::MEMORY, &plain, None, SampleSelect::default()).len(),
        1
    );
}

#[test]
fn usb_row_keeps_trailing_spaces_when_names_are_empty() {
    let opts = SarTextOptions::default();
    let blk = block(ActivityId::PWR_USB, &opts);
    let p = plan(4, &["manufacturer", "product"]);
    let mut item = zeros(&p);
    put(&mut item, USB_BUS, 2);
    put(&mut item, USB_VENDOR, 0x8087);
    put(&mut item, USB_PRODUCT, 0x24);
    let list = vec![item];
    let rows = rows_of(
        &blk,
        &p,
        &list,
        &list,
        vec![line_facts(values(&[f64::from(0x8087), f64::from(0x24), 0.0]))],
    );
    let s = text_of(&blk, "09:34:34", &rows[0], RowMode::Instant);
    assert_eq!(
        s,
        "09:34:34          2      8087        24         0                         \n"
    );
    assert_eq!(s.trim_end_matches('\n').len(), 74);
}

#[test]
fn bat_row_is_byte_exact() {
    let opts = SarTextOptions::default();
    let blk = block(ActivityId::PWR_BAT, &opts);
    let p = plan(4, &[]);
    let mut prev = zeros(&p);
    let mut curr = zeros(&p);
    put(&mut prev, BAT_CAP_PCT, 80);
    put(&mut curr, BAT_ID, 0);
    put(&mut curr, BAT_CAP_PCT, 78);
    put(&mut curr, BAT_STATUS, 2);
    let rows = rows_of(
        &blk,
        &p,
        &vec![prev],
        &vec![curr],
        vec![line_facts(values(&[78.0, -2.0, 2.0]))],
    );
    let s = text_of(&blk, "10:00:01", &rows[0], RowMode::Instant);
    assert_eq!(s, "10:00:01            0        78     -2.00         \u{2198}\n");
    assert_eq!(s.trim_end_matches('\n').len(), 53);
    let avg = text_of(&blk, "Average:", &rows[0], RowMode::Average);
    assert_eq!(avg, "Average:            0     78.00     -2.00\n");
}

#[test]
fn bat_row_with_unknown_status_is_two_bytes_shorter() {
    let opts = SarTextOptions::default();
    let blk = block(ActivityId::PWR_BAT, &opts);
    let p = plan(4, &[]);
    let list = vec![zeros(&p)];
    let rows = rows_of(&blk, &p, &list, &list, vec![line_facts(values(&[0.0, 0.0, 0.0]))]);
    let s = text_of(&blk, "10:00:01", &rows[0], RowMode::Instant);
    assert_eq!(s.trim_end_matches('\n').len(), 51);
    assert!(s.ends_with("?\n"), "{s:?}");
}

#[test]
fn pwr_freq_row_uses_weighted_average() {
    let opts = SarTextOptions { cpus: CpuSelection::All, ..Default::default() };
    let blk = block(ActivityId::PWR_FREQ, &opts);
    let p = plan(3, &[]);
    let row = Row {
        key: ItemKey::Index(1),
        index: 1,
        label: row_label(blk.view.head, ActivityId::PWR_FREQ, &opts, &p, &zeros(&p), 1),
        tail: RowTail::Nothing,
        values: values(&[975.0]),
        means: Vec::new(),
    };
    assert_eq!(
        text_of(&blk, "10:00:01", &row, RowMode::Instant),
        "10:00:01          0    975.00\n"
    );
    // Two CPUs of two steps each: a line for each CPU, made of its steps.
    let list = vec![zeros(&p), zeros(&p), zeros(&p), zeros(&p)];
    let s = SampleItems { plan: &p, items: &list, nr2: 2, aggregate: None };
    let lines = blk.lines_at(&s, &Vec::new());
    assert_eq!(lines.len(), 2);
    assert_eq!(lines[1].slots, vec![2, 3]);
}

#[test]
fn psi_io_row_has_eight_percent_columns() {
    let opts = SarTextOptions::default();
    let blk = block(ActivityId::PSI_IO, &opts);
    let p = plan(8, &[]);
    let list = vec![zeros(&p)];
    let rows = rows_of(
        &blk,
        &p,
        &list,
        &list,
        vec![line_facts(values(&[12.34, 0.0, 0.0, 10.0, 0.0, 0.0, 0.0, 5.0]))],
    );
    let s = text_of(&blk, "10:00:01", &rows[0], RowMode::Instant);
    assert_eq!(
        s,
        "10:00:01        12.34      0.00      0.00     10.00      0.00      0.00      0.00      5.00\n"
    );
    assert_eq!(s.trim_end_matches('\n').len(), 11 + 8 * 10);
}

#[test]
fn serial_row_uses_three_digit_line_number() {
    let opts = SarTextOptions::default();
    let blk = block(ActivityId::SERIAL, &opts);
    let p = plan(7, &[]);
    let mut curr = zeros(&p);
    put(&mut curr, SERIAL_LINE, 64);
    let rows = rows_of(
        &blk,
        &p,
        &vec![zeros(&p)],
        &vec![curr],
        vec![line_facts(values(&[0.0; 6]))],
    );
    assert_eq!(
        text_of(&blk, "10:00:01", &rows[0], RowMode::Instant),
        "10:00:01           64      0.00      0.00      0.00      0.00      0.00      0.00\n"
    );
}

#[test]
fn net_soft_aggregate_row_is_the_sum_of_cpus() {
    let opts = SarTextOptions::default();
    let blk = block(ActivityId::NET_SOFT, &opts);
    let p = plan(6, &[]);
    let mut cpu0 = zeros(&p);
    put(&mut cpu0, 0, 100);
    let mut cpu1 = zeros(&p);
    put(&mut cpu1, 0, 300);
    let list = vec![zeros(&p), cpu0, cpu1];
    let sum = sum_of(&p, &list);
    let s = items_of(ActivityId::NET_SOFT, &p, &list, &sum);
    let lines = blk.lines_at(&s, &Vec::new());
    assert_eq!(lines.len(), 1);
    assert_eq!(s.lead_item(&lines[0]).values[0], Availability::Present(400));
    assert!(recomputes_aggregate(ActivityId::NET_SOFT));

    assert!(!recomputes_aggregate(ActivityId::PWR_CPU));
    assert!(!recomputes_aggregate(ActivityId::CPU));
}

#[test]
fn pwr_cpu_first_row_is_the_first_item() {
    let opts = SarTextOptions { cpus: CpuSelection::All, ..Default::default() };
    let blk = block(ActivityId::PWR_CPU, &opts);
    let p = plan(1, &[]);
    let mhz = |v: u64| {
        let mut i = zeros(&p);
        put(&mut i, 0, v);
        i
    };
    let list = vec![mhz(1_500), mhz(1_000), mhz(2_000)];
    let sum = sum_of(&p, &list);
    let s = items_of(ActivityId::PWR_CPU, &p, &list, &sum);
    let lines = blk.lines_at(&s, &Vec::new());
    let leads: Vec<u64> = lines.iter().map(|g| value_of(s.lead_item(g), 0)).collect();
    assert_eq!(leads, vec![1_500, 1_000, 2_000]);
}

#[test]
fn the_sum_comes_with_the_activities_that_have_one() {
    let p = plan(6, &[]);
    let one = vec![zeros(&p)];
    let two = vec![zeros(&p), zeros(&p)];
    let sum = zeros(&p);
    let with = |list| SampleItems { plan: &p, items: list, nr2: 1, aggregate: Some(&sum) };
    assert!(!items(&p, &two).is_for(ActivityId::NET_SOFT));
    assert!(items(&p, &one).is_for(ActivityId::NET_SOFT));
    assert!(with(&two).is_for(ActivityId::NET_SOFT));
    assert!(items(&p, &two).is_for(ActivityId::CPU));
    assert!(with(&two).is_for(ActivityId::CPU));
    assert!(items(&p, &two).is_for(ActivityId::PWR_CPU));
    assert!(!with(&two).is_for(ActivityId::PWR_CPU));
}

#[test]
fn unused_item_slots_are_not_rows() {
    let opts = SarTextOptions { time: TimeStyle::Recorded, ..Default::default() };
    let mut blk = block(ActivityId::DISK, &opts);
    let p = plan(13, &[]);
    let disk = |major: u64, minor: u64| {
        let mut i = zeros(&p);
        put(&mut i, DISK_MAJOR, major);
        put(&mut i, DISK_MINOR, minor);
        i
    };
    let disks = || vec![disk(8, 0), disk(0, 0), disk(0, 0)];
    let samples = [
        Smp { hms: (10, 0, 0), uptime_cs: 0, items: disks() },
        Smp { hms: (10, 0, 1), uptime_cs: 100, items: disks() },
    ];
    let text = play(&mut blk, &p, &samples, &|_, s, g| {
        let item = &s.items[g.index];
        LineFacts {
            unused: value_of(item, DISK_MAJOR) + value_of(item, DISK_MINOR) == 0,
            ..line_facts(values(&[0.0; 8]))
        }
    });
    assert_eq!(text.lines().filter(|l| l.starts_with("10:00:01")).count(), 1, "{text}");
    let known = zero_ends(&blk);
    let avg = show(&blk.finish(&known));
    assert_eq!(avg.lines().filter(|l| l.starts_with("Average:")).count(), 1, "{avg}");

    let all = SarTextOptions {
        cpus: CpuSelection::All,
        time: TimeStyle::Recorded,
        ..Default::default()
    };
    let mut soft = block(ActivityId::NET_SOFT, &all);
    let sp = plan(6, &[]);
    let cpu = |total: u64| {
        let mut i = zeros(&sp);
        put(&mut i, 0, total);
        i
    };
    let cpus = || vec![cpu(0), cpu(100), cpu(0)];
    let samples = [
        Smp { hms: (10, 0, 0), uptime_cs: 0, items: cpus() },
        Smp { hms: (10, 0, 1), uptime_cs: 100, items: cpus() },
    ];
    let text = play(&mut soft, &sp, &samples, &|_, s, g| LineFacts {
        unused: g.index > 0 && value_of(&s.items[g.index], 0) == 0,
        ..line_facts(values(&[0.0; 6]))
    });
    assert_eq!(text.lines().filter(|l| l.starts_with("10:00:01")).count(), 2, "{text}");
}

#[test]
fn cpu_all_row_survives_an_offline_cpu() {
    let opts = SarTextOptions {
        cpus: CpuSelection::All,
        time: TimeStyle::Recorded,
        ..Default::default()
    };
    let mut blk = block(ActivityId::CPU, &opts);
    let p = plan(13, &[]);
    let three = || vec![zeros(&p), zeros(&p), zeros(&p)];
    let samples = [
        Smp { hms: (9, 59, 51), uptime_cs: 0, items: three() },
        Smp { hms: (10, 0, 1), uptime_cs: 1_000, items: three() },
    ];
    let text = play(&mut blk, &p, &samples, &|_, _, g| LineFacts {
        cpu_offline: g.index == 2,
        ..line_facts(values(&[10.0, 0.0, 0.0, 0.0, 0.0, 90.0]))
    });
    assert!(text.ends_with(
        "10:00:01        all     10.00      0.00      0.00      0.00      0.00     90.00\n\
         10:00:01          0     10.00      0.00      0.00      0.00      0.00     90.00\n"
    ));
    let facts: Vec<AverageFacts> =
        blk.items.iter().map(|_| average(&[10.0, 0.0, 0.0, 0.0, 0.0, 90.0])).collect();
    assert_eq!(
        show(&blk.finish(&ends(facts))),
        "Average:        all     10.00      0.00      0.00      0.00      0.00     90.00\n\
         Average:          0     10.00      0.00      0.00      0.00      0.00     90.00\n"
    );
}

#[test]
fn average_of_a_tickless_cpu_is_computed_like_any_other() {
    let opts = SarTextOptions {
        cpus: CpuSelection::All,
        time: TimeStyle::Recorded,
        ..Default::default()
    };
    let mut blk = block(ActivityId::CPU, &opts);
    let p = plan(13, &[]);
    let two = || vec![zeros(&p), zeros(&p)];
    let samples = [
        Smp { hms: (9, 59, 51), uptime_cs: 0, items: two() },
        Smp { hms: (10, 0, 1), uptime_cs: 1_000, items: two() },
    ];
    let text = play(&mut blk, &p, &samples, &|_, _, g| LineFacts {
        tickless: g.index == 1,
        ..line_facts(values(&[0.0; 6]))
    });
    assert!(text.ends_with("    100.00\n"), "{text}");
    let facts: Vec<AverageFacts> = blk.items.iter().map(|_| average(&[0.0; 6])).collect();
    let avg = show(&blk.finish(&ends(facts)));
    assert!(avg.ends_with(
        "Average:          0      0.00      0.00      0.00      0.00      0.00      0.00\n"
    ));
}

#[test]
fn cpu_returning_from_offline_has_no_row() {
    let opts = SarTextOptions {
        cpus: CpuSelection::All,
        time: TimeStyle::Recorded,
        ..Default::default()
    };
    let mut blk = block(ActivityId::CPU, &opts);
    let p = plan(13, &[]);
    let cpu = |user: u64, idle: u64| {
        let mut i = zeros(&p);
        put(&mut i, CPU_USER, user);
        put(&mut i, CPU_IDLE, idle);
        i
    };
    let samples = [
        Smp {
            hms: (9, 59, 51),
            uptime_cs: 0,
            items: vec![cpu(100, 900), cpu(100, 900), cpu(0, 0)],
        },
        Smp {
            hms: (10, 0, 1),
            uptime_cs: 1_000,
            items: vec![cpu(200, 1_800), cpu(200, 1_800), cpu(50, 50)],
        },
    ];
    let ticks = |i: &ItemSnapshot| value_of(i, CPU_USER) + value_of(i, CPU_IDLE);
    // The line of all CPUs is made of those that are on at both samples.
    let text = play(&mut blk, &p, &samples, &|a, b, g| {
        let on: Vec<usize> = (1..b.items.len())
            .filter(|i| g.index == 0 || *i == g.index)
            .filter(|i| ticks(&a.items[*i]) > 0 && ticks(&b.items[*i]) > 0)
            .collect();
        let grown = |column: usize| -> f64 {
            on.iter()
                .map(|i| value_of(&b.items[*i], column) - value_of(&a.items[*i], column))
                .sum::<u64>() as f64
        };
        let (user, idle) = (grown(CPU_USER), grown(CPU_IDLE));
        let share = |v: f64| if on.is_empty() { 0.0 } else { v / (user + idle) * 100.0 };
        LineFacts {
            offline: on.is_empty(),
            ..line_facts(values(&[share(user), 0.0, 0.0, 0.0, 0.0, share(idle)]))
        }
    });
    let rows: Vec<&str> = text.lines().filter(|l| l.starts_with("10:00:01")).collect();
    assert_eq!(rows.len(), 2, "{text}");
    assert!(rows[1].starts_with("10:00:01          0"), "{text}");
    assert!(rows[0].contains("     10.00"), "{text}");
}

#[test]
fn zero_omit_only_applies_to_seven_activities() {
    for id in [
        ActivityId::IRQ,
        ActivityId::SERIAL,
        ActivityId::DISK,
        ActivityId::NET_DEV,
        ActivityId::NET_EDEV,
        ActivityId::FS,
        ActivityId::NET_SOFT,
    ] {
        assert!(zero_omit_applies(id), "{id:?}");
    }
    for id in [
        ActivityId::CPU,
        ActivityId::MEMORY,
        ActivityId::QUEUE,
        ActivityId::KTABLES,
        ActivityId::PWR_FAN,
    ] {
        assert!(!zero_omit_applies(id), "{id:?}");
    }
    assert!(!has_xstats(ActivityId::PWR_USB));
    for spec in in_id_order() {
        assert_eq!(has_xstats(spec.id), spec.id != ActivityId::PWR_USB, "{:?}", spec.id);
    }

    let opts = SarTextOptions { zero_omit: true, memory: true, ..Default::default() };
    let mem = block(ActivityId::MEMORY, &opts);
    let p = plan(24, &[]);
    let list = vec![zeros(&p)];
    let n = mem.view.cells.len();
    let rows = rows_of(&mem, &p, &list, &list, vec![line_facts(values(&vec![0.0; n]))]);
    assert_eq!(rows.len(), 1);

    let net = block(ActivityId::NET_DEV, &opts);
    let np = plan(10, &["iface"]);
    let mut iface = zeros(&np);
    name(&np, &mut iface, "eth0");
    put(&mut iface, 1, 100);
    let same = vec![copy(&iface)];
    let facts = || vec![line_facts(values(&[0.0; 8]))];
    assert!(rows_of(&net, &np, &same, &same, facts()).is_empty());
    let mut moved = copy(&iface);
    put(&mut moved, 1, 101);
    assert_eq!(rows_of(&net, &np, &same, &vec![moved], facts()).len(), 1);
    let plain = SarTextOptions::default();
    let off = block(ActivityId::NET_DEV, &plain);
    assert_eq!(rows_of(&off, &np, &same, &same, facts()).len(), 1);
}

#[test]
fn zero_omit_still_extends_the_average_interval() {
    let opts = SarTextOptions { zero_omit: true, time: TimeStyle::Recorded, ..Default::default() };
    let mut blk = block(ActivityId::NET_DEV, &opts);
    let p = plan(10, &["iface"]);
    let iface = |rxpck: u64| {
        let mut i = zeros(&p);
        name(&p, &mut i, "eth0");
        put(&mut i, 1, rxpck);
        vec![i]
    };
    let samples = [
        Smp { hms: (10, 0, 0), uptime_cs: 0, items: iface(0) },
        Smp { hms: (10, 0, 1), uptime_cs: 100, items: iface(100) },
        Smp { hms: (10, 0, 2), uptime_cs: 200, items: iface(100) },
    ];
    let text = play(&mut blk, &p, &samples, &|prev, here, _| {
        let count = |s: &Smp| match s.items[0].values[1] {
            Availability::Present(v) => v as f64,
            _ => 0.0,
        };
        let secs = (here.uptime_cs - prev.uptime_cs) as f64 / 100.0;
        let rate = (count(here) - count(prev)) / secs;
        line_facts(values(&[rate, 0.0, 0.0, 0.0, 0.0, 0.0, 0.0, 0.0]))
    });
    let rows: Vec<&str> = text.lines().filter(|l| l.contains("eth0")).collect();
    assert_eq!(rows.len(), 1, "{text}");
    assert_eq!(&rows[0][TSW + 10..TSW + 20], "    100.00");
    // The sample without a line counts: the averages reach to it.
    assert_eq!(blk.displayed, 2);
    assert_eq!(blk.last_uptime, 200);
    assert_eq!(blk.last_sample, 2);
    let item = &blk.items[0];
    let packets = |sample: usize| match samples[sample].items[0].values[1] {
        Availability::Present(v) => v as f64,
        _ => 0.0,
    };
    let span = (blk.last_uptime - blk.first_uptime.unwrap()) as f64 / 100.0;
    let rate = (packets(item.last.sample) - packets(item.first.unwrap().sample)) / span;
    let known = ends(vec![average(&[rate, 0.0, 0.0, 0.0, 0.0, 0.0, 0.0, 0.0])]);
    let avg = show(&blk.finish(&known));
    let line = avg.lines().filter(|l| l.starts_with("Average:")).nth(1).unwrap();
    assert_eq!(&line[TSW + 10..TSW + 20], "     50.00", "{avg}");
}

#[test]
fn gauge_average_divides_by_the_activity_wide_count() {
    let opts = SarTextOptions { time: TimeStyle::Recorded, ..Default::default() };
    let mut blk = block(ActivityId::PWR_FAN, &opts);
    let p = plan(3, &["device"]);
    let samples = [
        Smp { hms: (10, 0, 0), uptime_cs: 0, items: vec![zeros(&p)] },
        Smp { hms: (10, 0, 1), uptime_cs: 100, items: vec![zeros(&p)] },
        Smp { hms: (10, 0, 2), uptime_cs: 200, items: vec![zeros(&p), zeros(&p)] },
    ];
    play(&mut blk, &p, &samples, &|_, _, g| {
        line_facts(values(&[if g.index == 1 { 1_000.0 } else { 0.0 }, 0.0]))
    });
    // The number of samples is that of the activity, for all of its items.
    assert_eq!(blk.displayed, 2);
    assert_eq!(blk.items.len(), 2);
    for i in 0..blk.items.len() {
        assert_eq!(blk.mean_places(i).1, 2);
    }
    let seen: Vec<usize> = blk.mean_places(1).0.iter().map(|s| s.sample).collect();
    assert_eq!(seen, vec![2]);
    let known = zero_ends(&blk);
    let text = show(&blk.finish(&known));
    let rows: Vec<&str> = text.lines().filter(|l| l.starts_with("Average:")).collect();
    assert_eq!(rows.len(), 2, "{text}");
    assert_eq!(&rows[0][TSW + 10..TSW + 20], "      0.00", "{text}");
    assert_eq!(&rows[1][TSW + 10..TSW + 20], "    500.00", "{text}");
    // Averages are shown once.
    let known = zero_ends(&blk);
    assert_eq!(show(&blk.finish(&known)), "");
}

fn queue(p: &DecodePlan, runq: u64) -> Vec<ItemSnapshot> {
    let mut i = zeros(p);
    put(&mut i, 0, runq);
    vec![i]
}

fn runq(s: &Smp) -> f64 {
    match s.items[0].values[0] {
        Availability::Present(v) => v as f64,
        _ => 0.0,
    }
}

#[test]
fn minmax_block_has_summary_minimum_maximum_average() {
    let opts = SarTextOptions { minmax: true, time: TimeStyle::Recorded, ..Default::default() };
    let mut blk = block(ActivityId::QUEUE, &opts);
    let p = plan(6, &[]);
    let samples = [
        Smp { hms: (10, 0, 0), uptime_cs: 0, items: queue(&p, 1) },
        Smp { hms: (10, 0, 1), uptime_cs: 100, items: queue(&p, 1) },
        Smp { hms: (10, 0, 2), uptime_cs: 200, items: queue(&p, 3) },
    ];
    play(&mut blk, &p, &samples, &|_, here, _| {
        line_facts(values(&[runq(here), 0.0, 0.0, 0.0, 0.0, 0.0]))
    });
    let known = zero_ends(&blk);
    let text = show(&blk.finish(&known));
    let lines: Vec<&str> = text.lines().collect();
    assert_eq!(lines.len(), 5, "{text}");
    assert_eq!(lines[0], "");
    assert!(lines[1].starts_with("Summary:   "), "{text}");
    assert!(lines[1].contains("runq-sz"), "{text}");
    assert!(lines[2].starts_with("Minimum:   "), "{text}");
    assert!(lines[3].starts_with("Maximum:   "), "{text}");
    assert!(lines[4].starts_with("Average:   "), "{text}");
    assert_eq!(&lines[2][TSW..TSW + 10], "         1", "{text}");
    assert_eq!(&lines[3][TSW..TSW + 10], "         3", "{text}");
    assert_eq!(&lines[4][TSW..TSW + 10], "         2", "{text}");
}

#[test]
fn minmax_resets_on_restart() {
    let opts = SarTextOptions { minmax: true, time: TimeStyle::Recorded, ..Default::default() };
    let mut blk = block(ActivityId::QUEUE, &opts);
    let p = plan(6, &[]);
    let known = |_: &Smp, here: &Smp, _: &ItemGroup| {
        line_facts(values(&[runq(here), 0.0, 0.0, 0.0, 0.0, 0.0]))
    };
    let nine = [
        Smp { hms: (10, 0, 0), uptime_cs: 0, items: queue(&p, 9) },
        Smp { hms: (10, 0, 1), uptime_cs: 100, items: queue(&p, 9) },
    ];
    play(&mut blk, &p, &nine, &known);
    let restart = RecordEvent::Restart { time: at((10, 0, 1)), cpu_count: Some(2) };
    let facts = zero_ends(&blk);
    let out = show(&blk.event(&restart, &facts));
    assert!(out.contains("Average:            9"), "{out}");
    assert!(out.ends_with("\n10:00:01     LINUX RESTART\t(1 CPU)\n"), "{out}");
    let one = [
        Smp { hms: (10, 0, 2), uptime_cs: 200, items: queue(&p, 1) },
        Smp { hms: (10, 0, 3), uptime_cs: 300, items: queue(&p, 1) },
    ];
    play(&mut blk, &p, &one, &known);
    let known = zero_ends(&blk);
    let text = show(&blk.finish(&known));
    let lines: Vec<&str> = text.lines().collect();
    assert_eq!(&lines[3][TSW..TSW + 10], "         1", "{text}");
}

#[test]
fn extremes_bound_what_was_shown() {
    let mut min: Vec<u64> = Vec::new();
    let mut max: Vec<u64> = Vec::new();
    for v in [3.0, -1.5, 7.25, 0.0] {
        let shown = vec![bits(v), Err(ComputeIssue::MissingInSample)];
        min = update_extremes(&min, &shown, true);
        max = update_extremes(&max, &shown, false);
    }
    assert_eq!(f64::from_bits(min[0]), -1.5);
    assert_eq!(f64::from_bits(max[0]), 7.25);
    assert!(has_extrema(&min));
    assert!(!has_extrema(&Vec::new()));
    let shown = extrema_values(&max, 2, max[1]);
    assert_eq!(shown[0], bits(7.25));
}

// ---- the selection of samples ----

#[test]
fn next_slice_rounds_half_up_like_upstream() {
    assert!(next_slice(0, 5_950, false, 60, &mut 5_850));
    assert!(!next_slice(0, 5_949, false, 60, &mut 5_849));
    assert!(!next_slice(0, 6_050, false, 60, &mut 5_950));
}

#[test]
fn next_slice_sequence_matches_upstream() {
    let cases: [(u64, u64, u64, &str); 2] = [
        (100, 60, 1_000, "0000010000010000010000010000010000010000"),
        (1 << 32, 7, 250, "0010110100100100101101001001001011010010"),
    ];
    for (uptime_ref, interval, step, expect) in cases {
        let mut last = 0u64;
        let mut uptime = uptime_ref;
        let got: String = expect
            .chars()
            .enumerate()
            .map(|(k, _)| {
                uptime = uptime.wrapping_add(step);
                if next_slice(uptime_ref, uptime, k == 0, interval, &mut last) { '1' } else { '0' }
            })
            .collect();
        assert_eq!(got, expect, "ref={uptime_ref} interval={interval} step={step}");
    }
}

#[test]
fn next_slice_masks_the_uptime_difference_to_32_bits() {
    const WRAP: u64 = 1 << 32;
    assert!(next_slice(0, WRAP + 200, false, 2, &mut (WRAP + 100)));
    assert!(next_slice(0, 200, false, 2, &mut (WRAP + 100)));
    let mut last = 0u64;
    assert!(next_slice(WRAP, WRAP + 100, false, 1, &mut last));
    assert_eq!(last, WRAP + 100);
}

#[test]
fn slice_state_cuts_after_the_count_th_displayed_sample() {
    let mut sel = SliceState::new(SampleSelect { interval: 1, count: Some(2) });
    sel.start(0);
    sel.feed(11, 100);
    assert_eq!(sel.cut, None);
    sel.feed(12, 200);
    assert_eq!(sel.cut, Some(13));
    sel.feed(13, 300);
    assert_eq!(sel.cut, Some(13));

    let mut sel = SliceState::new(SampleSelect { interval: 2, count: Some(1) });
    sel.start(0);
    sel.feed(1, 100);
    assert_eq!(sel.cut, None);
    sel.feed(2, 200);
    assert_eq!(sel.cut, Some(3));

    let mut sel = SliceState::new(SampleSelect::default());
    sel.start(0);
    for at in 1..5 {
        sel.feed(at, at as u64 * 100);
    }
    assert_eq!(sel.cut, None);
}

#[test]
fn interval_skips_samples_and_keeps_them_out_of_the_average() {
    let opts = SarTextOptions { time: TimeStyle::Recorded, ..Default::default() };
    let select = SampleSelect { interval: 2, count: None };
    let mut blk = SarBlock::blocks_for(ActivityId::QUEUE, &opts, None, select).remove(0);
    let p = plan(6, &[]);
    let samples: Vec<Smp> = (1..7u64)
        .map(|k| Smp { hms: (10, 0, k as u8), uptime_cs: k * 100, items: queue(&p, k * 2) })
        .collect();
    let text = play(&mut blk, &p, &samples, &|_, here, _| {
        line_facts(values(&[runq(here), 0.0, 0.0, 0.0, 0.0, 0.0]))
    });
    let rows: Vec<&str> = text
        .lines()
        .filter(|l| l.starts_with("10:00:") && !l.contains("runq-sz"))
        .collect();
    assert_eq!(rows.len(), 2, "{text}");
    assert!(rows[0].starts_with("10:00:03"), "{text}");
    assert!(rows[1].starts_with("10:00:05"), "{text}");
    assert_eq!(blk.displayed, 2);
    let known = zero_ends(&blk);
    let avg = show(&blk.finish(&known));
    let line = avg.lines().find(|l| l.starts_with("Average:")).unwrap();
    assert_eq!(&line[TSW..TSW + 10], "         8", "{avg}");
}

#[test]
fn interval_pairs_a_displayed_sample_with_the_previous_displayed_one() {
    let opts = SarTextOptions { time: TimeStyle::Recorded, ..Default::default() };
    let select = SampleSelect { interval: 2, count: None };
    let mut blk = SarBlock::blocks_for(ActivityId::PCSW, &opts, None, select).remove(0);
    let p = plan(2, &[]);
    let counters = [0u64, 100, 100, 200, 200, 300];
    let samples: Vec<Smp> = counters
        .iter()
        .enumerate()
        .map(|(k, n)| Smp {
            hms: (10, 0, k as u8 + 1),
            uptime_cs: (k as u64 + 1) * 100,
            items: queue(&p, *n),
        })
        .collect();
    let text = play(&mut blk, &p, &samples, &|prev, here, _| {
        let secs = (here.uptime_cs - prev.uptime_cs) as f64 / 100.0;
        line_facts(values(&[(runq(here) - runq(prev)) / secs, 0.0]))
    });
    let rows: Vec<&str> = text
        .lines()
        .filter(|l| l.starts_with("10:00:") && !l.contains("proc/s"))
        .collect();
    assert_eq!(rows.len(), 2, "{text}");
    for row in &rows {
        assert_eq!(&row[TSW..TSW + 10], "     50.00", "{text}");
    }
}

// ---- names of interrupts ----

fn irq_filter(names: &[&str]) -> SarTextOptions {
    SarTextOptions {
        item_names: vec![NameFilter {
            id: ActivityId::IRQ,
            names: names.iter().map(|n| (*n).to_string()).collect(),
        }],
        ..Default::default()
    }
}

#[test]
fn int_filter_selects_interrupts_by_number() {
    let opts = irq_filter(&["0", "3"]);
    let p = plan(1, &[]);
    let picked: Vec<usize> = (0..489)
        .filter(|i| name_selected(ActivityId::IRQ, &opts, &p, &zeros(&p), *i))
        .collect();
    assert_eq!(picked, vec![1, 4]);
    let plain = SarTextOptions::default();
    let all = (0..489).filter(|i| name_selected(ActivityId::IRQ, &plain, &p, &zeros(&p), *i));
    assert_eq!(all.count(), 489);
}

#[test]
fn int_filter_accepts_the_synthetic_sum_name() {
    let opts = irq_filter(&["sum"]);
    let p = plan(1, &[]);
    let picked: Vec<usize> = (0..489)
        .filter(|i| name_selected(ActivityId::IRQ, &opts, &p, &zeros(&p), *i))
        .collect();
    assert_eq!(picked, vec![0]);
    assert!(check_irq_name_filter(&opts, &vec![ActivityId::IRQ], Some(&p)).is_ok());
}

#[test]
fn int_filter_rejects_a_name_on_a_generation_without_irq_names() {
    let opts = irq_filter(&["0", "LOC"]);
    let p = plan(1, &[]);
    let err = check_irq_name_filter(&opts, &vec![ActivityId::IRQ], Some(&p)).unwrap_err();
    assert_eq!(err.names, vec!["LOC".to_string()]);
    assert!(check_irq_name_filter(&opts, &vec![ActivityId::CPU], Some(&p)).is_ok());
    assert!(check_irq_name_filter(&opts, &vec![ActivityId::IRQ], None).is_err());
}

#[test]
fn int_filter_matches_irq_names_on_the_current_generation() {
    let mut p = plan(1, &["irq_name"]);
    p.fields.push(FieldPlan { name: "irq_name".to_string(), available: true });
    assert!(irq_plan_has_names(&p));
    let opts = irq_filter(&["LOC", "3"]);
    assert!(check_irq_name_filter(&opts, &vec![ActivityId::IRQ], Some(&p)).is_ok());
    let picks = |text: &str, index: usize| {
        let mut i = zeros(&p);
        name(&p, &mut i, text);
        name_selected(ActivityId::IRQ, &opts, &p, &i, index)
    };
    assert!(picks("LOC", 7));
    assert!(picks("3", 4));
    assert!(!picks("MCE", 9));
    assert!(!picks("sum", 0));
}

// ---- reports ----

fn sample_at(uptime_cs: u64) -> PlanRecord {
    PlanRecord::Sample { uptime_cs, verdict: RangeVerdict::Emit }
}

fn restart_at(hms: (u8, u8, u8), cpu_count: Option<u32>) -> PlanRecord {
    PlanRecord::Event {
        event: RecordEvent::Restart { time: at(hms), cpu_count },
        in_range: true,
    }
}

fn comment_at(hms: (u8, u8, u8), text: &str) -> PlanRecord {
    PlanRecord::Event {
        event: RecordEvent::Comment { time: at(hms), text: text.to_string() },
        in_range: true,
    }
}

fn recorded() -> SarTextOptions {
    SarTextOptions { time: TimeStyle::Recorded, comment: true, ..Default::default() }
}

fn spans(r: &[Region]) -> Vec<(usize, usize)> {
    r.iter().map(|r| (r.start, r.end)).collect()
}

#[test]
fn regions_lie_between_restarts() {
    let records = vec![
        restart_at((9, 0, 0), Some(3)),
        comment_at((9, 0, 1), "first"),
        sample_at(100),
        sample_at(200),
        comment_at((9, 0, 2), "second"),
        restart_at((9, 1, 0), Some(5)),
        sample_at(100),
        sample_at(200),
    ];
    let opts = recorded();
    let r = plan_regions(&records, &opts, SampleSelect::default(), Some(9));
    assert_eq!(spans(&r), vec![(0, 5), (6, 8)]);
    assert_eq!(
        r[0].leading,
        vec![
            "\n09:00:00     LINUX RESTART\t(2 CPU)\n".to_string(),
            "09:00:01     COM first\n".to_string(),
        ]
    );
    // The comment after the samples stands in each block.
    assert!(r[0].trailing.is_empty());
    assert_eq!(r[0].terminator.as_deref(), Some("\n09:01:00     LINUX RESTART\t(4 CPU)\n"));
    assert_eq!(r[1].terminator, None);
    assert_eq!(r[1].cpu_nr, Some(5));
    assert_eq!(block_records(&records, 0, 5), vec![2, 3, 4]);
}

#[test]
fn count_limits_the_displayed_samples() {
    let records = vec![sample_at(100), sample_at(200), sample_at(300)];
    let opts = recorded();
    let all = plan_regions(&records, &opts, SampleSelect::default(), None);
    assert_eq!(spans(&all), vec![(0, 3)]);
    let one = plan_regions(&records, &opts, SampleSelect { interval: 1, count: Some(1) }, None);
    assert_eq!(spans(&one), vec![(0, 2)]);
    // A block stops there too.
    let select = SampleSelect { interval: 1, count: Some(1) };
    let mut blk = SarBlock::blocks_for(ActivityId::QUEUE, &opts, None, select).remove(0);
    let p = plan(6, &[]);
    let samples: Vec<Smp> = (0..3u64)
        .map(|k| Smp { hms: (10, 0, k as u8), uptime_cs: k * 100, items: queue(&p, k) })
        .collect();
    let text = play(&mut blk, &p, &samples, &|_, here, _| {
        line_facts(values(&[runq(here), 0.0, 0.0, 0.0, 0.0, 0.0]))
    });
    assert_eq!(text.lines().filter(|l| l.starts_with("10:00:01")).count(), 1, "{text}");
    assert!(!text.contains("10:00:02"), "{text}");
}

#[test]
fn count_moves_the_trailing_comment_out_of_every_block() {
    let records = vec![
        restart_at((9, 0, 0), None),
        sample_at(100),
        sample_at(200),
        comment_at((9, 0, 2), "late"),
    ];
    let opts = recorded();
    let all = plan_regions(&records, &opts, SampleSelect::default(), None);
    assert!(all[0].trailing.is_empty());
    assert!(block_records(&records, 0, 4).contains(&3));
    let one = plan_regions(&records, &opts, SampleSelect { interval: 1, count: Some(1) }, None);
    assert_eq!(spans(&one), vec![(0, 3)]);
    assert_eq!(one[0].trailing, vec!["09:00:02     COM late\n".to_string()]);
    // It comes after the blocks.
    let report = write_report(
        &file_header(),
        &opts,
        &one,
        vec![vec![Doc::of("block 1\nAverage:\n"), Doc::of("block 2\nAverage:\n")]],
    );
    let text = show(&report);
    assert_eq!(text.matches("  COM ").count(), 1);
    assert!(text.find("  COM ").unwrap() > text.rfind("Average:").unwrap());
}

#[test]
fn comments_require_the_c_option() {
    let records = vec![comment_at((9, 0, 1), "first"), sample_at(100)];
    let with = plan_regions(&records, &recorded(), SampleSelect::default(), None);
    assert_eq!(with[0].leading.len(), 1);
    let plain = SarTextOptions { comment: false, ..recorded() };
    let without = plan_regions(&records, &plain, SampleSelect::default(), None);
    assert!(without[0].leading.is_empty());
}

#[test]
fn report_skeleton_from_real_file() {
    let opts = recorded();
    let mut blk = block(ActivityId::QUEUE, &opts);
    let p = plan(6, &[]);
    let samples: Vec<Smp> = (0..3u64)
        .map(|k| Smp { hms: (10, 0, k as u8), uptime_cs: k * 100, items: queue(&p, k) })
        .collect();
    let mut doc = Doc::of(&play(&mut blk, &p, &samples, &|_, here, _| {
        line_facts(values(&[runq(here), 0.0, 0.0, 0.0, 0.0, 0.0]))
    }));
    let known = zero_ends(&blk);
    doc.join(blk.finish(&known));
    let records = vec![sample_at(0), sample_at(100), sample_at(200)];
    let regions = plan_regions(&records, &opts, SampleSelect::default(), None);
    let text = show(&write_report(&file_header(), &opts, &regions, vec![vec![doc]]));
    let lines: Vec<&str> = text.lines().collect();
    assert!(lines[0].starts_with("Linux "), "{:?}", lines[0]);
    assert!(lines[0].contains('\t'));
    assert!(lines[0].ends_with(" CPU)"), "{:?}", lines[0]);
    assert_eq!(lines[1], "");
    assert!(text.contains("\nAverage:"));
    assert!(!text.contains("\n\n\n"));
    for line in &lines[1..] {
        assert_eq!(line.trim_end(), *line, "{line:?}");
    }
}

#[test]
fn column_width_is_stable_across_options() {
    let variants = [
        SarTextOptions::default(),
        SarTextOptions { dec_places: Some(0), ..Default::default() },
        SarTextOptions { human: true, ..Default::default() },
        SarTextOptions { pretty: true, human: true, ..Default::default() },
    ];
    for opts in &variants {
        let blk = block(ActivityId::QUEUE, opts);
        let w = blk.header_for("10:00:01").trim_start_matches('\n').trim_end().len();
        assert_eq!(w, 11 + 6 * 10);
        let p = plan(6, &[]);
        let list = vec![zeros(&p)];
        let rows = rows_of(
            &blk,
            &p,
            &list,
            &list,
            vec![line_facts(values(&[1.0, 250.0, 0.12, 12.3, 4.56, 0.0]))],
        );
        let line = text_of(&blk, "10:00:01", &rows[0], RowMode::Instant);
        assert_eq!(line.trim_end_matches('\n').len(), w, "{line}");
    }
}

#[test]
fn cpu_selection_changes_row_count() {
    let p = plan(13, &[]);
    let list = vec![zeros(&p), zeros(&p), zeros(&p)];
    let count = |opts: &SarTextOptions| block(ActivityId::CPU, opts).lines_at(&items(&p, &list), &Vec::new()).len();
    assert_eq!(count(&SarTextOptions::default()), 1);
    assert_eq!(count(&SarTextOptions { cpus: CpuSelection::All, ..Default::default() }), 3);
}

#[test]
fn known_activities_are_reported_in_the_order_of_the_file() {
    let ids = vec![
        ActivityId::QUEUE,
        ActivityId::Unknown(77),
        ActivityId::CPU,
        ActivityId::QUEUE,
    ];
    let got = activities_in_file(&ids);
    assert_eq!(got[0], ActivityId::QUEUE);
    assert!(got.contains(&ActivityId::CPU));
    assert!(!got.contains(&ActivityId::Unknown(77)));
}

#[test]
fn records_after_the_time_range_do_not_count() {
    let stop = PlanRecord::Sample { uptime_cs: 300, verdict: RangeVerdict::Stop };
    let records = vec![sample_at(100), sample_at(200), stop, restart_at((9, 0, 0), None)];
    let r = plan_regions(&records, &recorded(), SampleSelect::default(), None);
    assert_eq!(spans(&r), vec![(0, 2)]);
    let skip = PlanRecord::Sample { uptime_cs: 50, verdict: RangeVerdict::Skip };
    let first = PlanRecord::Sample { uptime_cs: 100, verdict: RangeVerdict::Reference };
    let records = vec![skip, restart_at((9, 0, 0), None), first, sample_at(200)];
    let r = plan_regions(&records, &recorded(), SampleSelect::default(), None);
    assert_eq!(spans(&r), vec![(0, 4)]);
    assert_eq!(r[0].leading.len(), 1);
}

#[test]
fn a_block_never_shows_more_than_was_asked_for() {
    let opts = recorded();
    let p = plan(6, &[]);
    for count in 1..5u64 {
        let select = SampleSelect { interval: 1, count: Some(count) };
        let mut blk = SarBlock::blocks_for(ActivityId::QUEUE, &opts, None, select).remove(0);
        let samples: Vec<Smp> = (0..9u64)
            .map(|k| Smp {
                hms: (10, 0, k as u8),
                uptime_cs: k * 100,
                // Every third record has no items and does not count.
                items: if k % 3 == 2 { Vec::new() } else { queue(&p, k) },
            })
            .collect();
        play(&mut blk, &p, &samples, &|_, here, _| {
            line_facts(values(&[runq(here), 0.0, 0.0, 0.0, 0.0, 0.0]))
        });
        assert_eq!(blk.displayed, count);
    }
}

#[test]
fn each_restart_has_one_line_outside_the_blocks() {
    let opts = SarTextOptions { comment: false, ..recorded() };
    let records = vec![
        restart_at((9, 0, 0), Some(3)),
        restart_at((9, 0, 1), None),
        sample_at(100),
        comment_at((9, 0, 2), "hidden"),
        restart_at((9, 1, 0), Some(5)),
        restart_at((9, 1, 1), None),
    ];
    let regions = plan_regions(&records, &opts, SampleSelect::default(), Some(9));
    let mut lines: Vec<String> = Vec::new();
    for r in &regions {
        lines.extend(r.leading.iter().cloned());
        lines.extend(r.trailing.iter().cloned());
        lines.extend(r.terminator.iter().cloned());
    }
    let want: Vec<String> = [("09:00:00", 2), ("09:00:01", 2), ("09:01:00", 4), ("09:01:01", 4)]
        .iter()
        .map(|(t, n)| format!("\n{t}     LINUX RESTART\t({n} CPU)\n"))
        .collect();
    assert_eq!(lines, want);
}

#[test]
fn every_heading_stands_above_its_values() {
    let opts = SarTextOptions { memory: true, swap: true, ..Default::default() };
    for spec in in_id_order() {
        for view in &BlockView::all_for(spec.id, &opts) {
            if view.iwidth != 0 || spec.id == ActivityId::PWR_USB || spec.id == ActivityId::IRQ {
                continue;
            }
            let width = heading(view).trim_start_matches('\n').trim_end().len();
            let head = if view.head == HeadItem::Nothing { 0 } else { 10 };
            assert_eq!(width, 11 + head + 10 * view.cells.len(), "{:?}", spec.id);
        }
    }
}

#[test]
fn ratios_need_totals_that_are_not_shown() {
    assert_eq!(ratio_inputs(ActivityId::MEMORY), vec![MEM_TOTAL, SWP_TOTAL]);
    assert_eq!(ratio_inputs(ActivityId::HUGE), vec![HUGE_TOTAL]);
    assert!(ratio_inputs(ActivityId::CPU).is_empty());
    assert!(recomputes_aggregate(ActivityId::NET_SOFT));
    assert!(!recomputes_aggregate(ActivityId::CPU));
}

/// A report of hand-made records, run as its course says.
fn whole_report(
    records: &Vec<PlanRecord>,
    opts: &SarTextOptions,
    select: SampleSelect,
    ids: &Vec<ActivityId>,
) -> String {
    let p = plan(10, &["iface"]);
    let mut regions: Vec<Region> = Vec::new();
    let mut blocks: Vec<Vec<Doc>> = Vec::new();
    for run in plan_report(records, opts, select, Some(9), ids) {
        let mut docs: Vec<Doc> = Vec::new();
        for mut block in run.blocks {
            let n = block.block.view.cells.len();
            let mut last: Option<usize> = None;
            loop {
                match block.next() {
                    Next::End => break,
                    Next::Comment { .. } => block.comment(),
                    Next::Sample { rec } => {
                        let list = vec![zeros(&p)];
                        let here = items(&p, &list);
                        let uptime_cs = match records[rec] {
                            PlanRecord::Sample { uptime_cs, .. } => uptime_cs,
                            _ => 0,
                        };
                        let head = SampleHead {
                            sample: rec,
                            time: at((10, 0, rec as u8)),
                            uptime_cs,
                            before: last.unwrap_or(0),
                            has_prev: last.is_some(),
                            continuous: true,
                        };
                        last = Some(rec);
                        if let Verdict::Show { .. } = block.sample(&head, Some(&here)) {
                            let facts = vec![line_facts(values(&vec![rec as f64; n]))];
                            block.show(&head, &here, &here, &Vec::new(), &facts);
                        }
                    }
                }
            }
            let known = zero_ends(&block.block);
            docs.push(block.finish(&known));
        }
        regions.push(run.region);
        blocks.push(docs);
    }
    show(&write_report(&file_header(), opts, &regions, blocks))
}

#[test]
fn a_whole_report_holds_each_restart_once() {
    let records = vec![
        restart_at((9, 0, 0), Some(3)),
        sample_at(100),
        sample_at(200),
        comment_at((9, 0, 2), "note"),
        sample_at(300),
        restart_at((9, 1, 0), Some(5)),
        restart_at((9, 1, 1), None),
        sample_at(100),
        sample_at(200),
        restart_at((9, 2, 0), None),
    ];
    for ids in [vec![], vec![ActivityId::QUEUE], vec![ActivityId::QUEUE, ActivityId::PCSW]] {
        for comment in [false, true] {
            let opts = SarTextOptions { comment, ..recorded() };
            let text = whole_report(&records, &opts, SampleSelect::default(), &ids);
            assert!(text.starts_with("Linux "), "{text}");
            assert_eq!(text.matches("LINUX RESTART").count(), 4, "{text}");
            let shown = if comment { ids.len() } else { 0 };
            assert_eq!(text.matches("  COM note").count(), shown, "{text}");
            let place = |what: &str| text.find(what).unwrap();
            assert!(place("09:00:00     LINUX") < place("09:01:00     LINUX"));
            assert!(place("09:01:00     LINUX") < place("09:01:01     LINUX"));
            assert!(place("09:01:01     LINUX") < place("09:02:00     LINUX"));
            if !ids.is_empty() {
                // The mean of the queue lengths 2 and 4.
                assert!(text.contains("Average:            3"), "{text}");
                assert!(place("Average:") < place("09:01:00     LINUX"));
                assert!(text.rfind("Average:").unwrap() < place("09:02:00     LINUX"));
            }
        }
    }
}

#[test]
fn records_without_the_activity_are_ignored() {
    let opts = recorded();
    let mut blk = block(ActivityId::QUEUE, &opts);
    let p = plan(6, &[]);
    let list = queue(&p, 1);
    let head = |sample: usize| SampleHead {
        sample,
        time: at((10, 0, sample as u8)),
        uptime_cs: sample as u64 * 100,
        before: 0,
        has_prev: true,
        continuous: true,
    };
    assert_eq!(blk.record(&head(0), None), Verdict::Ignored);
    assert_eq!(blk.first_uptime, None);
    assert_eq!(blk.record(&head(1), Some(&items(&p, &list))), Verdict::Reference);
    assert_eq!(blk.record(&head(2), None), Verdict::Ignored);
    assert_eq!((blk.prev_ts.as_str(), blk.slice_last_uptime), ("10:00:01", 0));
    // One that holds the activity without items is not ignored.
    let empty: Vec<ItemSnapshot> = Vec::new();
    assert_eq!(blk.record(&head(3), Some(&items(&p, &empty))), Verdict::Empty);
    assert_eq!((blk.prev_ts.as_str(), blk.slice_last_uptime), ("10:00:03", 300));
}

#[test]
fn means_leave_out_what_is_not_known() {
    let opts = recorded();
    let mut blk = block(ActivityId::QUEUE, &opts);
    let p = plan(6, &[]);
    let samples: Vec<Smp> = (0..4u64)
        .map(|k| Smp { hms: (10, 0, k as u8), uptime_cs: k * 100, items: queue(&p, k * 3) })
        .collect();
    play(&mut blk, &p, &samples, &|_, here, _| {
        let mut v = values(&[runq(here), 0.0, 0.0, 0.0, 0.0, 0.0]);
        if here.uptime_cs == 200 {
            v[0] = Err(ComputeIssue::MissingInSample);
        }
        v[1] = Err(ComputeIssue::NotImplemented);
        v[5] = Err(ComputeIssue::UnsupportedBySource);
        line_facts(v)
    });
    let known = zero_ends(&blk);
    let avg = show(&blk.finish(&known));
    // 3 and 9 over three samples; never known; not in the file.
    assert_eq!(&avg[TSW..TSW + 10], "         4", "{avg}");
    assert_eq!(&avg[TSW + 10..TSW + 20], "         ?", "{avg}");
    assert_eq!(&avg[TSW + 50..TSW + 60], "         0", "{avg}");
}

#[test]
fn columns_of_the_interrupt_report_follow_the_cpus_at_both_ends() {
    let opts = SarTextOptions { cpus: CpuSelection::All, ..recorded() };
    let mut blk = block(ActivityId::IRQ, &opts);
    let p = DecodePlan { nr2: 2, ..plan(1, &[]) };
    let list: Vec<ItemSnapshot> = (0..6).map(|_| zeros(&p)).collect();
    let s = SampleItems { plan: &p, items: &list, nr2: 2, aggregate: None };
    let head = |sample: usize| SampleHead {
        sample,
        time: at((10, 0, sample as u8)),
        uptime_cs: sample as u64 * 100,
        before: 0,
        has_prev: true,
        continuous: true,
    };
    assert_eq!(blk.record(&head(0), Some(&s)), Verdict::Reference);
    assert!(matches!(blk.record(&head(1), Some(&s)), Verdict::Show { .. }));
    let online = vec![true, true, true];
    let facts: Vec<LineFacts> =
        blk.lines_at(&s, &online).iter().map(|_| line_facts(values(&[1.0, 0.5, 0.5]))).collect();
    let shown = show(&blk.show(&head(1), &s, &s, &online, &facts));
    assert!(shown.contains("INTR       all      CPU0      CPU1\n"), "{shown}");
    let off = vec![true, false, true];
    assert_eq!(blk.columns_of_end(&off), vec![0, 2]);
    let known = EndFacts {
        online: off,
        items: blk.items.iter().map(|_| average(&[1.0, 0.5])).collect(),
    };
    let avg = show(&blk.finish(&known));
    assert!(avg.starts_with("\nAverage:         INTR       all      CPU1\n"), "{avg}");
}

#[test]
fn a_restart_keeps_what_the_next_reference_replaces() {
    let opts = SarTextOptions { time: TimeStyle::Recorded, ..Default::default() };
    let mut blk = block(ActivityId::QUEUE, &opts);
    let p = plan(6, &[]);
    let one = || vec![zeros(&p)];
    let samples = [
        Smp { hms: (10, 0, 0), uptime_cs: 100, items: one() },
        Smp { hms: (10, 0, 1), uptime_cs: 200, items: one() },
    ];
    play(&mut blk, &p, &samples, &|_, _, _| line_facts(values(&[0.0; 6])));
    let known = zero_ends(&blk);
    let ev = RecordEvent::Restart { time: at((10, 5, 0)), cpu_count: Some(3) };
    let text = show(&blk.event(&ev, &known));
    assert!(text.contains("LINUX RESTART"), "{text}");
    assert_eq!(blk.prev_ts, "10:00:01");
    assert_eq!((blk.last_uptime, blk.first_sample, blk.last_sample), (200, 0, 1));
    assert!(blk.items.is_empty() && blk.first_uptime.is_none());
}
