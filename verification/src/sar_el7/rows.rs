//! The lines of the older report.

use vstd::prelude::*;

use crate::doc::{chars, number, Doc, Form, Glyph, Slot};
use crate::model::ActivityId;
use crate::text::{
    dec, dec_text, hex, hex_text, int_dec, int_text, left_padded, pad_left, pad_right,
    right_padded,
};

verus! {

/// The width of the timestamp column.
pub const STAMP_WIDTH: usize = 11;

/// The width of the name of a sensor.
pub const SENSOR_WIDTH: usize = 20;

/// The width of the name of a manufacturer.
pub const MANUFACTURER_WIDTH: usize = 23;

/// The width of the name of a product.
pub const PRODUCT_WIDTH: usize = 47;

/// A value in its column.
#[derive(Clone, Copy, PartialEq, Eq, Structural, Debug)]
pub enum Cell {
    /// Two decimals in nine columns.
    F92(u64),
    /// A percentage in six columns.
    P62(u64),
    /// A percentage in seven columns.
    P72(u64),
    /// No decimals in nine columns.
    F90(u64),
    /// A whole number.
    U9(u64),
    /// A hexadecimal number.
    X9(u64),
    /// No value.
    Na,
}

/// The item at the start of a line.
#[derive(Debug)]
pub enum Label {
    Nothing,
    All,
    Num3(i64),
    Sum,
    Num3Wide(i64),
    Name(String),
    Bus(i64),
}

/// The name at the end of a line.
#[derive(Debug)]
pub enum Tail {
    Nothing,
    Sensor(String),
    /// The manufacturer and the product.
    Usb(String, String),
    Name(String),
}

/// One line.
#[derive(Debug)]
pub struct Row {
    pub label: Label,
    pub cells: Vec<Cell>,
    pub tail: Tail,
}

/// A double in its column, after `lead`.
pub open spec fn float_column(lead: Seq<char>, bits: u64, decimals: u8, width: usize) -> Seq<Glyph> {
    chars(lead) + number(Slot { bits, form: Form::CFixed { decimals }, width })
}

/// A value in its column.
pub open spec fn cell_glyphs(cell: Cell) -> Seq<Glyph> {
    match cell {
        Cell::F92(v) => float_column(" "@, v, 2, 9),
        Cell::P62(v) => float_column("    "@, v, 2, 6),
        Cell::P72(v) => float_column("   "@, v, 2, 7),
        Cell::F90(v) => float_column(" "@, v, 0, 9),
        Cell::U9(v) => chars(" "@) + chars(left_padded(dec(v as nat), 9)),
        Cell::X9(v) => chars(" "@) + chars(left_padded(hex(v as nat), 9)),
        Cell::Na => chars("       N/A"@),
    }
}

fn put_float(out: &mut Doc, lead: &str, bits: u64, decimals: u8, width: usize)
    ensures
        final(out)@ == old(out)@ + float_column(lead@, bits, decimals, width),
{
    let ghost before = out@;
    out.put(lead);
    out.put_number(Slot { bits, form: Form::CFixed { decimals }, width });
    assert(out@ =~= before + float_column(lead@, bits, decimals, width));
}

/// Appends a value in its column.
pub fn push_cell(out: &mut Doc, cell: Cell)
    ensures
        final(out)@ == old(out)@ + cell_glyphs(cell),
{
    let ghost before = out@;
    match cell {
        Cell::F92(v) => put_float(out, " ", v, 2, 9),
        Cell::P62(v) => put_float(out, "    ", v, 2, 6),
        Cell::P72(v) => put_float(out, "   ", v, 2, 7),
        Cell::F90(v) => put_float(out, " ", v, 0, 9),
        Cell::U9(v) => {
            out.put(" ");
            out.put(pad_left(dec_text(v).as_str(), 9).as_str());
            assert(out@ =~= before + cell_glyphs(cell));
        },
        Cell::X9(v) => {
            out.put(" ");
            out.put(pad_left(hex_text(v).as_str(), 9).as_str());
            assert(out@ =~= before + cell_glyphs(cell));
        },
        Cell::Na => out.put("       N/A"),
    }
}

/// The item at the start of a line.
pub open spec fn label_text(label: Label) -> Seq<char> {
    match label {
        Label::Nothing => ""@,
        Label::All => "     all"@,
        Label::Num3(n) => "     "@ + left_padded(int_dec(n as int), 3),
        Label::Sum => "       sum"@,
        Label::Num3Wide(n) => "       "@ + left_padded(int_dec(n as int), 3),
        Label::Name(s) => " "@ + left_padded(s@, 9),
        Label::Bus(n) => "  "@ + left_padded(int_dec(n as int), 6),
    }
}

fn lead_and_pad(lead: &str, s: &str, width: usize) -> (r: String)
    ensures
        r@ == lead@ + left_padded(s@, width as nat),
{
    let mut out = lead.to_owned();
    out.append(pad_left(s, width).as_str());
    out
}

/// The item at the start of a line.
pub fn push_label(label: &Label) -> (r: String)
    ensures
        r@ == label_text(*label),
{
    match label {
        Label::Nothing => "".to_owned(),
        Label::All => "     all".to_owned(),
        Label::Num3(n) => lead_and_pad("     ", int_text(*n).as_str(), 3),
        Label::Sum => "       sum".to_owned(),
        Label::Num3Wide(n) => lead_and_pad("       ", int_text(*n).as_str(), 3),
        Label::Name(s) => lead_and_pad(" ", s.as_str(), 9),
        Label::Bus(n) => lead_and_pad("  ", int_text(*n).as_str(), 6),
    }
}

/// The name at the end of a line.
pub open spec fn tail_text(tail: Tail) -> Seq<char> {
    match tail {
        Tail::Nothing => ""@,
        Tail::Sensor(s) => " "@ + left_padded(s@, SENSOR_WIDTH as nat),
        Tail::Usb(m, p) => " "@ + left_padded(m@, MANUFACTURER_WIDTH as nat) + " "@ + left_padded(
            p@,
            PRODUCT_WIDTH as nat,
        ),
        Tail::Name(s) => " "@ + s@,
    }
}

/// The name at the end of a line.
pub fn push_tail(tail: &Tail) -> (r: String)
    ensures
        r@ == tail_text(*tail),
{
    match tail {
        Tail::Nothing => "".to_owned(),
        Tail::Sensor(s) => lead_and_pad(" ", s.as_str(), SENSOR_WIDTH),
        Tail::Usb(m, p) => {
            let mut out = lead_and_pad(" ", m.as_str(), MANUFACTURER_WIDTH);
            out.append(" ");
            out.append(pad_left(p.as_str(), PRODUCT_WIDTH).as_str());
            out
        },
        Tail::Name(s) => {
            let mut out = " ".to_owned();
            out.append(s.as_str());
            out
        },
    }
}

/// The first `n` values of a line.
pub open spec fn cells_glyphs(cells: Seq<Cell>, n: int) -> Seq<Glyph>
    decreases n,
{
    if n <= 0 {
        Seq::empty()
    } else {
        cells_glyphs(cells, n - 1) + cell_glyphs(cells[n - 1])
    }
}

/// A line.
pub open spec fn row_glyphs(ts: Seq<char>, row: Row) -> Seq<Glyph> {
    chars(right_padded(ts, STAMP_WIDTH as nat)) + chars(label_text(row.label)) + cells_glyphs(
        row.cells@,
        row.cells@.len() as int,
    ) + chars(tail_text(row.tail)) + chars("\n"@)
}

/// A line.
pub fn push_row(ts: &str, row: &Row) -> (r: Doc)
    ensures
        r@ == row_glyphs(ts@, *row),
{
    let mut out = Doc::of(pad_right(ts, STAMP_WIDTH).as_str());
    out.put(push_label(&row.label).as_str());
    let ghost lead = out@;
    let mut i: usize = 0;
    assert(out@ =~= lead + cells_glyphs(row.cells@, 0));
    while i < row.cells.len()
        invariant
            i <= row.cells.len(),
            out@ == lead + cells_glyphs(row.cells@, i as int),
        decreases row.cells.len() - i,
    {
        let cell = row.cells[i];
        push_cell(&mut out, cell);
        i = i + 1;
        assert(out@ =~= lead + cells_glyphs(row.cells@, i as int));
    }
    out.put(push_tail(&row.tail).as_str());
    out.put("\n");
    out
}

/// The lines of a list.
pub open spec fn rows_glyphs(ts: Seq<char>, rows: Seq<Row>) -> Seq<Glyph>
    decreases rows.len(),
{
    if rows.len() == 0 {
        Seq::empty()
    } else {
        rows_glyphs(ts, rows.drop_last()) + row_glyphs(ts, rows.last())
    }
}

/// The lines of a list.
pub fn push_rows(ts: &str, rows: &Vec<Row>) -> (r: Doc)
    ensures
        r@ == rows_glyphs(ts@, rows@),
{
    let mut out = Doc::new();
    let mut i: usize = 0;
    assert(rows@.take(0) =~= Seq::<Row>::empty());
    while i < rows.len()
        invariant
            i <= rows.len(),
            out@ == rows_glyphs(ts@, rows@.take(i as int)),
        decreases rows.len() - i,
    {
        assert(rows@.take(i + 1).drop_last() =~= rows@.take(i as int));
        out.join(push_row(ts, &rows[i]));
        i = i + 1;
    }
    assert(rows@.take(rows@.len() as int) =~= rows@);
    out
}

/// Which part of the memory report is shown.
#[derive(Clone, Copy, PartialEq, Eq, Structural, Debug)]
pub enum MemOutput {
    /// Changes in pages per second.
    Dia,
    /// Amounts.
    Amt,
    /// Swap space.
    Swap,
}

/// The headings of an activity, after the timestamp.
pub open spec fn heading(id: ActivityId, mem: MemOutput, cpu_all: bool, fs_mount: bool) -> Seq<char> {
    match id {
        ActivityId::CPU => if cpu_all {
            "     CPU      %usr     %nice      %sys   %iowait    %steal      %irq     %soft    %guest    %gnice     %idle"@
        } else {
            "     CPU     %user     %nice   %system   %iowait    %steal     %idle"@
        },
        ActivityId::MEMORY => match mem {
            MemOutput::Dia => "   frmpg/s   bufpg/s   campg/s"@,
            MemOutput::Amt => " kbmemfree kbmemused  %memused kbbuffers  kbcached  kbcommit   %commit  kbactive   kbinact   kbdirty"@,
            MemOutput::Swap => " kbswpfree kbswpused  %swpused  kbswpcad   %swpcad"@,
        },
        ActivityId::PCSW => "    proc/s   cswch/s"@,
        ActivityId::IRQ => "      INTR    intr/s"@,
        ActivityId::SWAP => "  pswpin/s pswpout/s"@,
        ActivityId::PAGE => "  pgpgin/s pgpgout/s   fault/s  majflt/s  pgfree/s pgscank/s pgscand/s pgsteal/s    %vmeff"@,
        ActivityId::IO => "       tps      rtps      wtps   bread/s   bwrtn/s"@,
        ActivityId::KTABLES => " dentunusd   file-nr  inode-nr    pty-nr"@,
        ActivityId::QUEUE => "   runq-sz  plist-sz   ldavg-1   ldavg-5  ldavg-15   blocked"@,
        ActivityId::SERIAL => "       TTY   rcvin/s   xmtin/s framerr/s prtyerr/s     brk/s   ovrun/s"@,
        ActivityId::DISK => "       DEV       tps  rd_sec/s  wr_sec/s  avgrq-sz  avgqu-sz     await     svctm     %util"@,
        ActivityId::NET_DEV => "     IFACE   rxpck/s   txpck/s    rxkB/s    txkB/s   rxcmp/s   txcmp/s  rxmcst/s"@,
        ActivityId::NET_EDEV => "     IFACE   rxerr/s   txerr/s    coll/s  rxdrop/s  txdrop/s  txcarr/s  rxfram/s  rxfifo/s  txfifo/s"@,
        ActivityId::NET_NFS => "    call/s retrans/s    read/s   write/s  access/s  getatt/s"@,
        ActivityId::NET_NFSD => "   scall/s badcall/s  packet/s     udp/s     tcp/s     hit/s    miss/s   sread/s  swrite/s saccess/s sgetatt/s"@,
        ActivityId::NET_SOCK => "    totsck    tcpsck    udpsck    rawsck   ip-frag    tcp-tw"@,
        ActivityId::NET_IP => "    irec/s  fwddgm/s    idel/s     orq/s   asmrq/s   asmok/s  fragok/s fragcrt/s"@,
        ActivityId::NET_EIP => " ihdrerr/s iadrerr/s iukwnpr/s   idisc/s   odisc/s   onort/s    asmf/s   fragf/s"@,
        ActivityId::NET_ICMP => "    imsg/s    omsg/s    iech/s   iechr/s    oech/s   oechr/s     itm/s    itmr/s     otm/s    otmr/s  iadrmk/s iadrmkr/s  oadrmk/s oadrmkr/s"@,
        ActivityId::NET_EICMP => "    ierr/s    oerr/s idstunr/s odstunr/s   itmex/s   otmex/s iparmpb/s oparmpb/s   isrcq/s   osrcq/s  iredir/s  oredir/s"@,
        ActivityId::NET_TCP => "  active/s passive/s    iseg/s    oseg/s"@,
        ActivityId::NET_ETCP => "  atmptf/s  estres/s retrans/s isegerr/s   orsts/s"@,
        ActivityId::NET_UDP => "    idgm/s    odgm/s  noport/s idgmerr/s"@,
        ActivityId::NET_SOCK6 => "   tcp6sck   udp6sck   raw6sck  ip6-frag"@,
        ActivityId::NET_IP6 => "   irec6/s fwddgm6/s   idel6/s    orq6/s  asmrq6/s  asmok6/s imcpck6/s omcpck6/s fragok6/s fragcr6/s"@,
        ActivityId::NET_EIP6 => " ihdrer6/s iadrer6/s iukwnp6/s  i2big6/s  idisc6/s  odisc6/s  inort6/s  onort6/s   asmf6/s  fragf6/s itrpck6/s"@,
        ActivityId::NET_ICMP6 => "   imsg6/s   omsg6/s   iech6/s  iechr6/s  oechr6/s  igmbq6/s  igmbr6/s  ogmbr6/s igmbrd6/s ogmbrd6/s irtsol6/s ortsol6/s  irtad6/s inbsol6/s onbsol6/s  inbad6/s  onbad6/s"@,
        ActivityId::NET_EICMP6 => "   ierr6/s idtunr6/s odtunr6/s  itmex6/s  otmex6/s iprmpb6/s oprmpb6/s iredir6/s oredir6/s ipck2b6/s opck2b6/s"@,
        ActivityId::NET_UDP6 => "   idgm6/s   odgm6/s noport6/s idgmer6/s"@,
        ActivityId::PWR_CPU => "     CPU       MHz"@,
        ActivityId::HUGE => " kbhugfree kbhugused  %hugused"@,
        ActivityId::PWR_FREQ => "     CPU    wghMHz"@,
        ActivityId::PWR_FAN => "     FAN       rpm      drpm "@ + left_padded(
            "DEVICE"@,
            SENSOR_WIDTH as nat,
        ),
        ActivityId::PWR_TEMP => "    TEMP      degC     %temp "@ + left_padded(
            "DEVICE"@,
            SENSOR_WIDTH as nat,
        ),
        ActivityId::PWR_IN => "      IN       inV       %in "@ + left_padded(
            "DEVICE"@,
            SENSOR_WIDTH as nat,
        ),
        ActivityId::PWR_USB => "     BUS  idvendor    idprod  maxpower "@ + left_padded(
            "manufact"@,
            MANUFACTURER_WIDTH as nat,
        ) + " "@ + left_padded("product"@, PRODUCT_WIDTH as nat),
        ActivityId::FS => "  MBfsfree  MBfsused   %fsused  %ufsused     Ifree     Iused    %Iused "@
            + (if fs_mount {
            "MOUNTPOINT"@
        } else {
            "FILESYSTEM"@
        }),
        _ => ""@,
    }
}

/// The headings of an activity, after the timestamp.
pub fn header_text(id: ActivityId, mem: MemOutput, cpu_all: bool, fs_mount: bool) -> (r: String)
    ensures
        r@ == heading(id, mem, cpu_all, fs_mount),
{
    match id {
        ActivityId::CPU => if cpu_all {
            "     CPU      %usr     %nice      %sys   %iowait    %steal      %irq     %soft    %guest    %gnice     %idle".to_owned()
        } else {
            "     CPU     %user     %nice   %system   %iowait    %steal     %idle".to_owned()
        },
        ActivityId::MEMORY => match mem {
            MemOutput::Dia => "   frmpg/s   bufpg/s   campg/s".to_owned(),
            MemOutput::Amt => " kbmemfree kbmemused  %memused kbbuffers  kbcached  kbcommit   %commit  kbactive   kbinact   kbdirty".to_owned(),
            MemOutput::Swap => " kbswpfree kbswpused  %swpused  kbswpcad   %swpcad".to_owned(),
        },
        ActivityId::PCSW => "    proc/s   cswch/s".to_owned(),
        ActivityId::IRQ => "      INTR    intr/s".to_owned(),
        ActivityId::SWAP => "  pswpin/s pswpout/s".to_owned(),
        ActivityId::PAGE => "  pgpgin/s pgpgout/s   fault/s  majflt/s  pgfree/s pgscank/s pgscand/s pgsteal/s    %vmeff".to_owned(),
        ActivityId::IO => "       tps      rtps      wtps   bread/s   bwrtn/s".to_owned(),
        ActivityId::KTABLES => " dentunusd   file-nr  inode-nr    pty-nr".to_owned(),
        ActivityId::QUEUE => "   runq-sz  plist-sz   ldavg-1   ldavg-5  ldavg-15   blocked".to_owned(),
        ActivityId::SERIAL => "       TTY   rcvin/s   xmtin/s framerr/s prtyerr/s     brk/s   ovrun/s".to_owned(),
        ActivityId::DISK => "       DEV       tps  rd_sec/s  wr_sec/s  avgrq-sz  avgqu-sz     await     svctm     %util".to_owned(),
        ActivityId::NET_DEV => "     IFACE   rxpck/s   txpck/s    rxkB/s    txkB/s   rxcmp/s   txcmp/s  rxmcst/s".to_owned(),
        ActivityId::NET_EDEV => "     IFACE   rxerr/s   txerr/s    coll/s  rxdrop/s  txdrop/s  txcarr/s  rxfram/s  rxfifo/s  txfifo/s".to_owned(),
        ActivityId::NET_NFS => "    call/s retrans/s    read/s   write/s  access/s  getatt/s".to_owned(),
        ActivityId::NET_NFSD => "   scall/s badcall/s  packet/s     udp/s     tcp/s     hit/s    miss/s   sread/s  swrite/s saccess/s sgetatt/s".to_owned(),
        ActivityId::NET_SOCK => "    totsck    tcpsck    udpsck    rawsck   ip-frag    tcp-tw".to_owned(),
        ActivityId::NET_IP => "    irec/s  fwddgm/s    idel/s     orq/s   asmrq/s   asmok/s  fragok/s fragcrt/s".to_owned(),
        ActivityId::NET_EIP => " ihdrerr/s iadrerr/s iukwnpr/s   idisc/s   odisc/s   onort/s    asmf/s   fragf/s".to_owned(),
        ActivityId::NET_ICMP => "    imsg/s    omsg/s    iech/s   iechr/s    oech/s   oechr/s     itm/s    itmr/s     otm/s    otmr/s  iadrmk/s iadrmkr/s  oadrmk/s oadrmkr/s".to_owned(),
        ActivityId::NET_EICMP => "    ierr/s    oerr/s idstunr/s odstunr/s   itmex/s   otmex/s iparmpb/s oparmpb/s   isrcq/s   osrcq/s  iredir/s  oredir/s".to_owned(),
        ActivityId::NET_TCP => "  active/s passive/s    iseg/s    oseg/s".to_owned(),
        ActivityId::NET_ETCP => "  atmptf/s  estres/s retrans/s isegerr/s   orsts/s".to_owned(),
        ActivityId::NET_UDP => "    idgm/s    odgm/s  noport/s idgmerr/s".to_owned(),
        ActivityId::NET_SOCK6 => "   tcp6sck   udp6sck   raw6sck  ip6-frag".to_owned(),
        ActivityId::NET_IP6 => "   irec6/s fwddgm6/s   idel6/s    orq6/s  asmrq6/s  asmok6/s imcpck6/s omcpck6/s fragok6/s fragcr6/s".to_owned(),
        ActivityId::NET_EIP6 => " ihdrer6/s iadrer6/s iukwnp6/s  i2big6/s  idisc6/s  odisc6/s  inort6/s  onort6/s   asmf6/s  fragf6/s itrpck6/s".to_owned(),
        ActivityId::NET_ICMP6 => "   imsg6/s   omsg6/s   iech6/s  iechr6/s  oechr6/s  igmbq6/s  igmbr6/s  ogmbr6/s igmbrd6/s ogmbrd6/s irtsol6/s ortsol6/s  irtad6/s inbsol6/s onbsol6/s  inbad6/s  onbad6/s".to_owned(),
        ActivityId::NET_EICMP6 => "   ierr6/s idtunr6/s odtunr6/s  itmex6/s  otmex6/s iprmpb6/s oprmpb6/s iredir6/s oredir6/s ipck2b6/s opck2b6/s".to_owned(),
        ActivityId::NET_UDP6 => "   idgm6/s   odgm6/s noport6/s idgmer6/s".to_owned(),
        ActivityId::PWR_CPU => "     CPU       MHz".to_owned(),
        ActivityId::HUGE => " kbhugfree kbhugused  %hugused".to_owned(),
        ActivityId::PWR_FREQ => "     CPU    wghMHz".to_owned(),
        ActivityId::PWR_FAN => lead_and_pad("     FAN       rpm      drpm ", "DEVICE", SENSOR_WIDTH),
        ActivityId::PWR_TEMP => lead_and_pad(
            "    TEMP      degC     %temp ",
            "DEVICE",
            SENSOR_WIDTH,
        ),
        ActivityId::PWR_IN => lead_and_pad("      IN       inV       %in ", "DEVICE", SENSOR_WIDTH),
        ActivityId::PWR_USB => {
            let mut out = lead_and_pad(
                "     BUS  idvendor    idprod  maxpower ",
                "manufact",
                MANUFACTURER_WIDTH,
            );
            out.append(" ");
            out.append(pad_left("product", PRODUCT_WIDTH).as_str());
            out
        },
        ActivityId::FS => {
            let mut out =
                "  MBfsfree  MBfsused   %fsused  %ufsused     Ifree     Iused    %Iused ".to_owned();
            if fs_mount {
                out.append("MOUNTPOINT");
            } else {
                out.append("FILESYSTEM");
            }
            out
        },
        _ => "".to_owned(),
    }
}

/// A line of headings, after an empty line.
pub open spec fn header_line(
    ts: Seq<char>,
    id: ActivityId,
    mem: MemOutput,
    cpu_all: bool,
    fs_mount: bool,
) -> Seq<char> {
    "\n"@ + right_padded(ts, STAMP_WIDTH as nat) + heading(id, mem, cpu_all, fs_mount) + "\n"@
}

/// A line of headings, after an empty line.
pub fn push_header(
    ts: &str,
    id: ActivityId,
    mem: MemOutput,
    cpu_all: bool,
    fs_mount: bool,
) -> (r: String)
    ensures
        r@ == header_line(ts@, id, mem, cpu_all, fs_mount),
{
    let mut out = "\n".to_owned();
    out.append(pad_right(ts, STAMP_WIDTH).as_str());
    out.append(header_text(id, mem, cpu_all, fs_mount).as_str());
    out.append("\n");
    out
}

}
