//! The blocks of a report: which columns an activity has and how their values are written.

use vstd::prelude::*;

use crate::doc::{number, SarUnit};
use crate::model::ActivityId;
use crate::sar_text::columns::{
    BAT_CAP_PCT, BAT_CAP_PER_MIN, BAT_STATUS, CPU_GNICE, CPU_GUEST, CPU_IDLE, CPU_IOWAIT, CPU_IRQ, CPU_NICE, CPU_NICE_EXCL_GNICE, CPU_SOFT, CPU_STEAL, CPU_SYS, CPU_SYSTEM, CPU_USER, CPU_USR, DISK_AQU_SZ, DISK_AREQ_SZ, DISK_AWAIT, DISK_DKB, DISK_RKB, DISK_TPS, DISK_UTIL, DISK_WKB, FAN_DRPM, FAN_RPM, FREQ_WGH_MHZ, FS_FREE, FS_IFREE, FS_IUSED, FS_IUSED_PCT, FS_UNPRIV_USED_PCT, FS_USED, FS_USED_PCT, HUGE_FREE, HUGE_RSVD, HUGE_SURP, HUGE_USED, HUGE_USED_PCT, IN_PCT, IN_VOLTS, IRQ_COUNT, MEM_ACTIVE, MEM_ANONPG, MEM_AVAIL, MEM_BUFFERS, MEM_CACHED, MEM_COMMIT, MEM_COMMIT_PCT, MEM_DIRTY, MEM_FREE, MEM_INACT, MEM_KSTACK, MEM_PGTBL, MEM_SHMEM, MEM_SLAB, MEM_USED, MEM_USED_PCT, MEM_VMUSED, NET_IFUTIL, NET_RXCMP, NET_RXKB, NET_RXMCST, NET_RXPCK, NET_TXCMP, NET_TXKB, NET_TXPCK, PSI_FULL_10, PSI_FULL_300, PSI_FULL_60, PSI_FULL_TOTAL, PSI_SOME_10, PSI_SOME_300, PSI_SOME_60, PSI_SOME_TOTAL, PWR_CPU_MHZ, QUEUE_BLOCKED, QUEUE_LDAVG_1, QUEUE_LDAVG_15, QUEUE_LDAVG_5, QUEUE_PLIST, QUEUE_RUNQ, SOFT_BLG_LEN, SOFT_DROPD, SOFT_FLW_LIM, SOFT_RX_RPS, SOFT_SQUEEZD, SOFT_TOTAL, SWP_CAD, SWP_CAD_PCT, SWP_FREE, SWP_USED, SWP_USED_PCT, TEMP_DEGC, TEMP_PCT, USB_MAX_POWER, USB_PRODUCT, USB_VENDOR,
};
use crate::sar_text::options::SarTextOptions;

verus! {

/// How the values of a column are written.
#[derive(Clone, Copy, PartialEq, Eq, Structural, Debug)]
pub enum Cell {
    /// With `wd` decimals, and with a sign in any case where `sign` is set.
    Float { wd: u8, sign: bool },
    /// Without a fraction.
    Int,
    /// In hexadecimal.
    Hex,
    /// As a percentage with `wd` decimals.
    Percent { wd: u8 },
    /// With `wd` decimals after a division by `plain_div`, or scaled from `unit`.
    FloatUnit { wd: u8, unit: SarUnit, plain_div: u32 },
    /// Without a fraction after a division by `plain_div`, or scaled from `unit`.
    IntUnit { unit: SarUnit, plain_div: u32 },
    /// The state of a battery.
    BatStatus,
}

/// Two decimals.
#[verifier::allow_in_spec]
pub fn f2() -> Cell
    returns
        (Cell::Float { wd: 2, sign: false }),
{
    Cell::Float { wd: 2, sign: false }
}

/// No decimals.
#[verifier::allow_in_spec]
pub fn f0() -> Cell
    returns
        (Cell::Float { wd: 0, sign: false }),
{
    Cell::Float { wd: 0, sign: false }
}

/// Two decimals and a sign.
#[verifier::allow_in_spec]
pub fn signed_f2() -> Cell
    returns
        (Cell::Float { wd: 2, sign: true }),
{
    Cell::Float { wd: 2, sign: true }
}

/// A percentage with two decimals.
#[verifier::allow_in_spec]
pub fn pc2() -> Cell
    returns
        (Cell::Percent { wd: 2 }),
{
    Cell::Percent { wd: 2 }
}

/// A whole number.
#[verifier::allow_in_spec]
pub fn int_cell() -> Cell
    returns
        (Cell::Int),
{
    Cell::Int
}

/// A hexadecimal number.
#[verifier::allow_in_spec]
pub fn hex_cell() -> Cell
    returns
        (Cell::Hex),
{
    Cell::Hex
}

/// The state of a battery.
#[verifier::allow_in_spec]
pub fn bat_cell() -> Cell
    returns
        (Cell::BatStatus),
{
    Cell::BatStatus
}

/// Kilobytes.
#[verifier::allow_in_spec]
pub fn kb() -> Cell
    returns
        (Cell::IntUnit { unit: SarUnit::Kilobyte, plain_div: 1 }),
{
    Cell::IntUnit { unit: SarUnit::Kilobyte, plain_div: 1 }
}

/// A mean of kilobytes.
#[verifier::allow_in_spec]
pub fn kb_avg() -> Cell
    returns
        (Cell::FloatUnit { wd: 0, unit: SarUnit::Kilobyte, plain_div: 1 }),
{
    Cell::FloatUnit { wd: 0, unit: SarUnit::Kilobyte, plain_div: 1 }
}

/// Kilobytes per second.
#[verifier::allow_in_spec]
pub fn kb_per_sec() -> Cell
    returns
        (Cell::FloatUnit { wd: 2, unit: SarUnit::Kilobyte, plain_div: 1 }),
{
    Cell::FloatUnit { wd: 2, unit: SarUnit::Kilobyte, plain_div: 1 }
}

/// Bytes per second, written as kilobytes per second.
#[verifier::allow_in_spec]
pub fn bytes_per_sec() -> Cell
    returns
        (Cell::FloatUnit { wd: 2, unit: SarUnit::Byte, plain_div: 1024 }),
{
    Cell::FloatUnit { wd: 2, unit: SarUnit::Byte, plain_div: 1024 }
}

/// Bytes, written as megabytes.
#[verifier::allow_in_spec]
pub fn mb_from_bytes() -> Cell
    returns
        (Cell::FloatUnit { wd: 0, unit: SarUnit::Byte, plain_div: 1_048_576 }),
{
    Cell::FloatUnit { wd: 0, unit: SarUnit::Byte, plain_div: 1_048_576 }
}

/// A percentage with `wd` decimals.
#[verifier::allow_in_spec]
pub fn percent(wd: u8) -> Cell
    returns
        (Cell::Percent { wd }),
{
    Cell::Percent { wd }
}

/// How the value of the line with the averages comes about.
#[derive(Clone, Copy, PartialEq, Eq, Structural, Debug)]
pub enum AvgKind {
    /// From the first and the last sample and the time between them.
    Rate,
    /// As the mean of the values shown.
    Mean,
    /// As a ratio of means.
    MeanRatio,
    /// As the last value seen.
    Last,
}

/// What the line with the averages is called.
#[derive(Clone, Copy, PartialEq, Eq, Structural, Debug)]
pub enum AvgLabel {
    Average,
    Summary,
    /// `Last:` where the extremes are shown, else `Summary:`.
    SummaryOrLast,
}

/// The item at the start of a line.
#[derive(Clone, Copy, PartialEq, Eq, Structural, Debug)]
pub enum HeadItem {
    Nothing,
    /// A CPU in eight columns, a space among them.
    Cpu7,
    /// A CPU in eight columns.
    Cpu3,
    /// A name in a value column.
    Name9,
    /// The number of a serial line.
    Line3,
    /// The number of a sensor or a battery.
    Index5,
    /// The number of a bus.
    Bus6,
}

/// The item at the end of a line.
#[derive(Clone, Copy, PartialEq, Eq, Structural, Debug)]
pub enum TailItem {
    Nothing,
    Name,
    /// The manufacturer and the product.
    UsbNames,
}

/// How the items of a sample make up lines.
#[derive(Clone, Copy, PartialEq, Eq, Structural, Debug)]
pub enum Layout {
    /// One line.
    Single,
    /// One line for each item.
    List,
    /// One line for each selected CPU; item 0 is all of them together.
    Cpu,
    /// One line for each interrupt, one value for each CPU.
    IrqMatrix,
    /// One line for each selected CPU, made of its frequencies.
    FreqMatrix,
}

/// When the headings are shown.
#[derive(Clone, Copy, PartialEq, Eq, Structural, Debug)]
pub enum HeaderPolicy {
    /// At the start of a block.
    Once,
    /// Before each sample.
    EverySample,
}

/// A column of values.
#[derive(Clone, Copy, PartialEq, Eq, Structural, Debug)]
pub struct ColSpec {
    pub col: usize,
    pub cell: Cell,
    /// How the average is written.
    pub avg_cell: Cell,
    pub avg: AvgKind,
    /// Whether the line with the averages has the column.
    pub in_average: bool,
}

/// A column whose average comes from the first and the last sample.
#[verifier::allow_in_spec]
pub fn rate(col: usize, cell: Cell) -> ColSpec
    returns
        (ColSpec { col, cell, avg_cell: cell, avg: AvgKind::Rate, in_average: true }),
{
    ColSpec { col, cell, avg_cell: cell, avg: AvgKind::Rate, in_average: true }
}

/// A column whose average is a mean.
#[verifier::allow_in_spec]
pub fn mean(col: usize, cell: Cell, avg_cell: Cell) -> ColSpec
    returns
        (ColSpec { col, cell, avg_cell, avg: AvgKind::Mean, in_average: true }),
{
    ColSpec { col, cell, avg_cell, avg: AvgKind::Mean, in_average: true }
}

/// A column whose average is a ratio of means.
#[verifier::allow_in_spec]
pub fn ratio(col: usize, cell: Cell, avg_cell: Cell) -> ColSpec
    returns
        (ColSpec { col, cell, avg_cell, avg: AvgKind::MeanRatio, in_average: true }),
{
    ColSpec { col, cell, avg_cell, avg: AvgKind::MeanRatio, in_average: true }
}

/// A column whose average is the last value.
#[verifier::allow_in_spec]
pub fn last(col: usize, cell: Cell) -> ColSpec
    returns
        (ColSpec { col, cell, avg_cell: cell, avg: AvgKind::Last, in_average: true }),
{
    ColSpec { col, cell, avg_cell: cell, avg: AvgKind::Last, in_average: true }
}

/// A column that the line with the averages does not have.
#[verifier::allow_in_spec]
pub fn instant_only(col: usize, cell: Cell) -> ColSpec
    returns
        (ColSpec { col, cell, avg_cell: cell, avg: AvgKind::Last, in_average: false }),
{
    ColSpec { col, cell, avg_cell: cell, avg: AvgKind::Last, in_average: false }
}

pub open spec fn cpu_columns() -> Seq<ColSpec> {
    seq![
        rate(CPU_USER, pc2()),
        rate(CPU_NICE, pc2()),
        rate(CPU_SYSTEM, pc2()),
        rate(CPU_IOWAIT, pc2()),
        rate(CPU_STEAL, pc2()),
        rate(CPU_IDLE, pc2()),
    ]
}

fn cpu_cells() -> (r: Vec<ColSpec>)
    ensures
        r@ == cpu_columns(),
{
    vec![
        rate(CPU_USER, pc2()),
        rate(CPU_NICE, pc2()),
        rate(CPU_SYSTEM, pc2()),
        rate(CPU_IOWAIT, pc2()),
        rate(CPU_STEAL, pc2()),
        rate(CPU_IDLE, pc2()),
    ]
}

pub open spec fn cpu_all_columns() -> Seq<ColSpec> {
    seq![
        rate(CPU_USR, pc2()),
        rate(CPU_NICE_EXCL_GNICE, pc2()),
        rate(CPU_SYS, pc2()),
        rate(CPU_IOWAIT, pc2()),
        rate(CPU_STEAL, pc2()),
        rate(CPU_IRQ, pc2()),
        rate(CPU_SOFT, pc2()),
        rate(CPU_GUEST, pc2()),
        rate(CPU_GNICE, pc2()),
        rate(CPU_IDLE, pc2()),
    ]
}

fn cpu_all_cells() -> (r: Vec<ColSpec>)
    ensures
        r@ == cpu_all_columns(),
{
    vec![
        rate(CPU_USR, pc2()),
        rate(CPU_NICE_EXCL_GNICE, pc2()),
        rate(CPU_SYS, pc2()),
        rate(CPU_IOWAIT, pc2()),
        rate(CPU_STEAL, pc2()),
        rate(CPU_IRQ, pc2()),
        rate(CPU_SOFT, pc2()),
        rate(CPU_GUEST, pc2()),
        rate(CPU_GNICE, pc2()),
        rate(CPU_IDLE, pc2()),
    ]
}

pub open spec fn memory_columns() -> Seq<ColSpec> {
    seq![
        mean(MEM_FREE, kb(), kb_avg()),
        mean(MEM_AVAIL, kb(), kb_avg()),
        ratio(MEM_USED, kb(), kb_avg()),
        ratio(MEM_USED_PCT, pc2(), pc2()),
        mean(MEM_BUFFERS, kb(), kb_avg()),
        mean(MEM_CACHED, kb(), kb_avg()),
        mean(MEM_COMMIT, kb(), kb_avg()),
        ratio(MEM_COMMIT_PCT, pc2(), pc2()),
        mean(MEM_ACTIVE, kb(), kb_avg()),
        mean(MEM_INACT, kb(), kb_avg()),
        mean(MEM_DIRTY, kb(), kb_avg()),
        mean(MEM_SHMEM, kb(), kb_avg()),
    ]
}

fn memory_cells() -> (r: Vec<ColSpec>)
    ensures
        r@ == memory_columns(),
{
    vec![
        mean(MEM_FREE, kb(), kb_avg()),
        mean(MEM_AVAIL, kb(), kb_avg()),
        ratio(MEM_USED, kb(), kb_avg()),
        ratio(MEM_USED_PCT, pc2(), pc2()),
        mean(MEM_BUFFERS, kb(), kb_avg()),
        mean(MEM_CACHED, kb(), kb_avg()),
        mean(MEM_COMMIT, kb(), kb_avg()),
        ratio(MEM_COMMIT_PCT, pc2(), pc2()),
        mean(MEM_ACTIVE, kb(), kb_avg()),
        mean(MEM_INACT, kb(), kb_avg()),
        mean(MEM_DIRTY, kb(), kb_avg()),
        mean(MEM_SHMEM, kb(), kb_avg()),
    ]
}

pub open spec fn memory_all_columns() -> Seq<ColSpec> {
    seq![
        mean(MEM_FREE, kb(), kb_avg()),
        mean(MEM_AVAIL, kb(), kb_avg()),
        ratio(MEM_USED, kb(), kb_avg()),
        ratio(MEM_USED_PCT, pc2(), pc2()),
        mean(MEM_BUFFERS, kb(), kb_avg()),
        mean(MEM_CACHED, kb(), kb_avg()),
        mean(MEM_COMMIT, kb(), kb_avg()),
        ratio(MEM_COMMIT_PCT, pc2(), pc2()),
        mean(MEM_ACTIVE, kb(), kb_avg()),
        mean(MEM_INACT, kb(), kb_avg()),
        mean(MEM_DIRTY, kb(), kb_avg()),
        mean(MEM_SHMEM, kb(), kb_avg()),
        mean(MEM_ANONPG, kb(), kb_avg()),
        mean(MEM_SLAB, kb(), kb_avg()),
        mean(MEM_KSTACK, kb(), kb_avg()),
        mean(MEM_PGTBL, kb(), kb_avg()),
        mean(MEM_VMUSED, kb(), kb_avg()),
    ]
}

fn memory_all_cells() -> (r: Vec<ColSpec>)
    ensures
        r@ == memory_all_columns(),
{
    vec![
        mean(MEM_FREE, kb(), kb_avg()),
        mean(MEM_AVAIL, kb(), kb_avg()),
        ratio(MEM_USED, kb(), kb_avg()),
        ratio(MEM_USED_PCT, pc2(), pc2()),
        mean(MEM_BUFFERS, kb(), kb_avg()),
        mean(MEM_CACHED, kb(), kb_avg()),
        mean(MEM_COMMIT, kb(), kb_avg()),
        ratio(MEM_COMMIT_PCT, pc2(), pc2()),
        mean(MEM_ACTIVE, kb(), kb_avg()),
        mean(MEM_INACT, kb(), kb_avg()),
        mean(MEM_DIRTY, kb(), kb_avg()),
        mean(MEM_SHMEM, kb(), kb_avg()),
        mean(MEM_ANONPG, kb(), kb_avg()),
        mean(MEM_SLAB, kb(), kb_avg()),
        mean(MEM_KSTACK, kb(), kb_avg()),
        mean(MEM_PGTBL, kb(), kb_avg()),
        mean(MEM_VMUSED, kb(), kb_avg()),
    ]
}

pub open spec fn swap_columns() -> Seq<ColSpec> {
    seq![
        mean(SWP_FREE, kb(), kb_avg()),
        ratio(SWP_USED, kb(), kb_avg()),
        ratio(SWP_USED_PCT, pc2(), pc2()),
        mean(SWP_CAD, kb(), kb_avg()),
        ratio(SWP_CAD_PCT, pc2(), pc2()),
    ]
}

fn swap_cells() -> (r: Vec<ColSpec>)
    ensures
        r@ == swap_columns(),
{
    vec![
        mean(SWP_FREE, kb(), kb_avg()),
        ratio(SWP_USED, kb(), kb_avg()),
        ratio(SWP_USED_PCT, pc2(), pc2()),
        mean(SWP_CAD, kb(), kb_avg()),
        ratio(SWP_CAD_PCT, pc2(), pc2()),
    ]
}

pub open spec fn queue_columns() -> Seq<ColSpec> {
    seq![
        mean(QUEUE_RUNQ, int_cell(), f0()),
        mean(QUEUE_PLIST, int_cell(), f0()),
        mean(QUEUE_LDAVG_1, f2(), f2()),
        mean(QUEUE_LDAVG_5, f2(), f2()),
        mean(QUEUE_LDAVG_15, f2(), f2()),
        mean(QUEUE_BLOCKED, int_cell(), f0()),
    ]
}

fn queue_cells() -> (r: Vec<ColSpec>)
    ensures
        r@ == queue_columns(),
{
    vec![
        mean(QUEUE_RUNQ, int_cell(), f0()),
        mean(QUEUE_PLIST, int_cell(), f0()),
        mean(QUEUE_LDAVG_1, f2(), f2()),
        mean(QUEUE_LDAVG_5, f2(), f2()),
        mean(QUEUE_LDAVG_15, f2(), f2()),
        mean(QUEUE_BLOCKED, int_cell(), f0()),
    ]
}

pub open spec fn disk_columns() -> Seq<ColSpec> {
    seq![
        rate(DISK_TPS, f2()),
        rate(DISK_RKB, kb_per_sec()),
        rate(DISK_WKB, kb_per_sec()),
        rate(DISK_DKB, kb_per_sec()),
        rate(DISK_AREQ_SZ, kb_per_sec()),
        rate(DISK_AQU_SZ, f2()),
        rate(DISK_AWAIT, f2()),
        rate(DISK_UTIL, pc2()),
    ]
}

fn disk_cells() -> (r: Vec<ColSpec>)
    ensures
        r@ == disk_columns(),
{
    vec![
        rate(DISK_TPS, f2()),
        rate(DISK_RKB, kb_per_sec()),
        rate(DISK_WKB, kb_per_sec()),
        rate(DISK_DKB, kb_per_sec()),
        rate(DISK_AREQ_SZ, kb_per_sec()),
        rate(DISK_AQU_SZ, f2()),
        rate(DISK_AWAIT, f2()),
        rate(DISK_UTIL, pc2()),
    ]
}

pub open spec fn net_dev_columns() -> Seq<ColSpec> {
    seq![
        rate(NET_RXPCK, f2()),
        rate(NET_TXPCK, f2()),
        rate(NET_RXKB, bytes_per_sec()),
        rate(NET_TXKB, bytes_per_sec()),
        rate(NET_RXCMP, f2()),
        rate(NET_TXCMP, f2()),
        rate(NET_RXMCST, f2()),
        rate(NET_IFUTIL, pc2()),
    ]
}

fn net_dev_cells() -> (r: Vec<ColSpec>)
    ensures
        r@ == net_dev_columns(),
{
    vec![
        rate(NET_RXPCK, f2()),
        rate(NET_TXPCK, f2()),
        rate(NET_RXKB, bytes_per_sec()),
        rate(NET_TXKB, bytes_per_sec()),
        rate(NET_RXCMP, f2()),
        rate(NET_TXCMP, f2()),
        rate(NET_RXMCST, f2()),
        rate(NET_IFUTIL, pc2()),
    ]
}

pub open spec fn fan_columns() -> Seq<ColSpec> {
    seq![
        mean(FAN_RPM, f2(), f2()),
        mean(FAN_DRPM, f2(), f2()),
    ]
}

fn fan_cells() -> (r: Vec<ColSpec>)
    ensures
        r@ == fan_columns(),
{
    vec![
        mean(FAN_RPM, f2(), f2()),
        mean(FAN_DRPM, f2(), f2()),
    ]
}

pub open spec fn temp_columns() -> Seq<ColSpec> {
    seq![
        mean(TEMP_DEGC, f2(), f2()),
        ratio(TEMP_PCT, pc2(), pc2()),
    ]
}

fn temp_cells() -> (r: Vec<ColSpec>)
    ensures
        r@ == temp_columns(),
{
    vec![
        mean(TEMP_DEGC, f2(), f2()),
        ratio(TEMP_PCT, pc2(), pc2()),
    ]
}

pub open spec fn voltage_columns() -> Seq<ColSpec> {
    seq![
        mean(IN_VOLTS, f2(), f2()),
        ratio(IN_PCT, pc2(), pc2()),
    ]
}

fn voltage_cells() -> (r: Vec<ColSpec>)
    ensures
        r@ == voltage_columns(),
{
    vec![
        mean(IN_VOLTS, f2(), f2()),
        ratio(IN_PCT, pc2(), pc2()),
    ]
}

pub open spec fn huge_columns() -> Seq<ColSpec> {
    seq![
        mean(HUGE_FREE, kb(), kb_avg()),
        ratio(HUGE_USED, kb(), kb_avg()),
        ratio(HUGE_USED_PCT, pc2(), pc2()),
        mean(HUGE_RSVD, kb(), kb_avg()),
        mean(HUGE_SURP, kb(), kb_avg()),
    ]
}

fn huge_cells() -> (r: Vec<ColSpec>)
    ensures
        r@ == huge_columns(),
{
    vec![
        mean(HUGE_FREE, kb(), kb_avg()),
        ratio(HUGE_USED, kb(), kb_avg()),
        ratio(HUGE_USED_PCT, pc2(), pc2()),
        mean(HUGE_RSVD, kb(), kb_avg()),
        mean(HUGE_SURP, kb(), kb_avg()),
    ]
}

pub open spec fn usb_columns() -> Seq<ColSpec> {
    seq![
        last(USB_VENDOR, hex_cell()),
        last(USB_PRODUCT, hex_cell()),
        last(USB_MAX_POWER, int_cell()),
    ]
}

fn usb_cells() -> (r: Vec<ColSpec>)
    ensures
        r@ == usb_columns(),
{
    vec![
        last(USB_VENDOR, hex_cell()),
        last(USB_PRODUCT, hex_cell()),
        last(USB_MAX_POWER, int_cell()),
    ]
}

pub open spec fn fs_columns() -> Seq<ColSpec> {
    seq![
        last(FS_FREE, mb_from_bytes()),
        last(FS_USED, mb_from_bytes()),
        last(FS_USED_PCT, pc2()),
        last(FS_UNPRIV_USED_PCT, pc2()),
        last(FS_IFREE, int_cell()),
        last(FS_IUSED, int_cell()),
        last(FS_IUSED_PCT, pc2()),
    ]
}

fn fs_cells() -> (r: Vec<ColSpec>)
    ensures
        r@ == fs_columns(),
{
    vec![
        last(FS_FREE, mb_from_bytes()),
        last(FS_USED, mb_from_bytes()),
        last(FS_USED_PCT, pc2()),
        last(FS_UNPRIV_USED_PCT, pc2()),
        last(FS_IFREE, int_cell()),
        last(FS_IUSED, int_cell()),
        last(FS_IUSED_PCT, pc2()),
    ]
}

pub open spec fn net_soft_columns() -> Seq<ColSpec> {
    seq![
        rate(SOFT_TOTAL, f2()),
        rate(SOFT_DROPD, f2()),
        rate(SOFT_SQUEEZD, f2()),
        rate(SOFT_RX_RPS, f2()),
        rate(SOFT_FLW_LIM, f2()),
        mean(SOFT_BLG_LEN, int_cell(), f0()),
    ]
}

fn net_soft_cells() -> (r: Vec<ColSpec>)
    ensures
        r@ == net_soft_columns(),
{
    vec![
        rate(SOFT_TOTAL, f2()),
        rate(SOFT_DROPD, f2()),
        rate(SOFT_SQUEEZD, f2()),
        rate(SOFT_RX_RPS, f2()),
        rate(SOFT_FLW_LIM, f2()),
        mean(SOFT_BLG_LEN, int_cell(), f0()),
    ]
}

pub open spec fn psi_some_columns() -> Seq<ColSpec> {
    seq![
        mean(PSI_SOME_10, pc2(), pc2()),
        mean(PSI_SOME_60, pc2(), pc2()),
        mean(PSI_SOME_300, pc2(), pc2()),
        rate(PSI_SOME_TOTAL, pc2()),
    ]
}

fn psi_some_cells() -> (r: Vec<ColSpec>)
    ensures
        r@ == psi_some_columns(),
{
    vec![
        mean(PSI_SOME_10, pc2(), pc2()),
        mean(PSI_SOME_60, pc2(), pc2()),
        mean(PSI_SOME_300, pc2(), pc2()),
        rate(PSI_SOME_TOTAL, pc2()),
    ]
}

pub open spec fn psi_full_columns() -> Seq<ColSpec> {
    seq![
        mean(PSI_SOME_10, pc2(), pc2()),
        mean(PSI_SOME_60, pc2(), pc2()),
        mean(PSI_SOME_300, pc2(), pc2()),
        rate(PSI_SOME_TOTAL, pc2()),
        mean(PSI_FULL_10, pc2(), pc2()),
        mean(PSI_FULL_60, pc2(), pc2()),
        mean(PSI_FULL_300, pc2(), pc2()),
        rate(PSI_FULL_TOTAL, pc2()),
    ]
}

fn psi_full_cells() -> (r: Vec<ColSpec>)
    ensures
        r@ == psi_full_columns(),
{
    vec![
        mean(PSI_SOME_10, pc2(), pc2()),
        mean(PSI_SOME_60, pc2(), pc2()),
        mean(PSI_SOME_300, pc2(), pc2()),
        rate(PSI_SOME_TOTAL, pc2()),
        mean(PSI_FULL_10, pc2(), pc2()),
        mean(PSI_FULL_60, pc2(), pc2()),
        mean(PSI_FULL_300, pc2(), pc2()),
        rate(PSI_FULL_TOTAL, pc2()),
    ]
}

pub open spec fn bat_columns() -> Seq<ColSpec> {
    seq![
        mean(BAT_CAP_PCT, percent(0), percent(2)),
        rate(BAT_CAP_PER_MIN, signed_f2()),
        instant_only(BAT_STATUS, bat_cell()),
    ]
}

fn bat_cells() -> (r: Vec<ColSpec>)
    ensures
        r@ == bat_columns(),
{
    vec![
        mean(BAT_CAP_PCT, percent(0), percent(2)),
        rate(BAT_CAP_PER_MIN, signed_f2()),
        instant_only(BAT_STATUS, bat_cell()),
    ]
}

pub open spec fn irq_columns() -> Seq<ColSpec> {
    seq![
        rate(IRQ_COUNT, f2()),
    ]
}

fn irq_cells() -> (r: Vec<ColSpec>)
    ensures
        r@ == irq_columns(),
{
    vec![
        rate(IRQ_COUNT, f2()),
    ]
}

pub open spec fn pwr_cpu_columns() -> Seq<ColSpec> {
    seq![
        mean(PWR_CPU_MHZ, f2(), f2()),
    ]
}

fn pwr_cpu_cells() -> (r: Vec<ColSpec>)
    ensures
        r@ == pwr_cpu_columns(),
{
    vec![
        mean(PWR_CPU_MHZ, f2(), f2()),
    ]
}

pub open spec fn freq_columns() -> Seq<ColSpec> {
    seq![
        rate(FREQ_WGH_MHZ, f2()),
    ]
}

fn freq_cells() -> (r: Vec<ColSpec>)
    ensures
        r@ == freq_columns(),
{
    vec![
        rate(FREQ_WGH_MHZ, f2()),
    ]
}

pub const PCSW_HDR: &'static str = "proc/s;cswch/s";

pub const SWAP_HDR: &'static str = "pswpin/s;pswpout/s";

pub const PAGE_HDR: &'static str = "pgpgin/s;pgpgout/s;fault/s;majflt/s;pgfree/s;pgscank/s;pgscand/s;pgsteal/s;pgprom/s;pgdem/s";

pub const IO_HDR: &'static str = "tps;rtps;wtps;dtps;bread/s;bwrtn/s;bdscd/s";

pub const KTABLES_HDR: &'static str = "dentunusd;file-nr;inode-nr;pty-nr";

pub const NET_NFS_HDR: &'static str = "call/s;retrans/s;read/s;write/s;access/s;getatt/s";

pub const NET_NFSD_HDR: &'static str = "scall/s;badcall/s;packet/s;udp/s;tcp/s;hit/s;miss/s;sread/s;swrite/s;saccess/s;sgetatt/s";

pub const NET_SOCK_HDR: &'static str = "totsck;tcpsck;udpsck;rawsck;ip-frag;tcp-tw";

pub const NET_IP_HDR: &'static str = "irec/s;fwddgm/s;idel/s;orq/s;asmrq/s;asmok/s;fragok/s;fragcrt/s";

pub const NET_EIP_HDR: &'static str = "ihdrerr/s;iadrerr/s;iukwnpr/s;idisc/s;odisc/s;onort/s;asmf/s;fragf/s";

pub const NET_ICMP_HDR: &'static str = "imsg/s;omsg/s;iech/s;iechr/s;oech/s;oechr/s;itm/s;itmr/s;otm/s;otmr/s;iadrmk/s;iadrmkr/s;oadrmk/s;oadrmkr/s";

pub const NET_EICMP_HDR: &'static str = "ierr/s;oerr/s;idstunr/s;odstunr/s;itmex/s;otmex/s;iparmpb/s;oparmpb/s;isrcq/s;osrcq/s;iredir/s;oredir/s";

pub const NET_TCP_HDR: &'static str = "active/s;passive/s;iseg/s;oseg/s";

pub const NET_ETCP_HDR: &'static str = "atmptf/s;estres/s;retrseg/s;isegerr/s;orsts/s";

pub const NET_UDP_HDR: &'static str = "idgm/s;odgm/s;noport/s;idgmerr/s";

pub const NET_SOCK6_HDR: &'static str = "tcp6sck;udp6sck;raw6sck;ip6-frag";

pub const NET_IP6_HDR: &'static str = "irec6/s;fwddgm6/s;idel6/s;orq6/s;asmrq6/s;asmok6/s;imcpck6/s;omcpck6/s;fragok6/s;fragcr6/s";

pub const NET_EIP6_HDR: &'static str = "ihdrer6/s;iadrer6/s;iukwnp6/s;i2big6/s;idisc6/s;odisc6/s;inort6/s;onort6/s;asmf6/s;fragf6/s;itrpck6/s";

pub const NET_ICMP6_HDR: &'static str = "imsg6/s;omsg6/s;iech6/s;iechr6/s;oechr6/s;igmbq6/s;igmbr6/s;ogmbr6/s;igmbrd6/s;ogmbrd6/s;irtsol6/s;ortsol6/s;irtad6/s;inbsol6/s;onbsol6/s;inbad6/s;onbad6/s";

pub const NET_EICMP6_HDR: &'static str = "ierr6/s;idtunr6/s;odtunr6/s;itmex6/s;otmex6/s;iprmpb6/s;oprmpb6/s;iredir6/s;oredir6/s;ipck2b6/s;opck2b6/s";

pub const NET_UDP6_HDR: &'static str = "idgm6/s;odgm6/s;noport6/s;idgmer6/s";

pub const CPU_HDR: &'static str = "CPU;%user;%nice;%system;%iowait;%steal;%idle|CPU;%usr;%nice;%sys;%iowait;%steal;%irq;%soft;%guest;%gnice;%idle";

pub const IRQ_HDR: &'static str = "INTR;CPU*";

pub const MEMORY_HDR: &'static str = "kbmemfree;kbavail;kbmemused;%memused;kbbuffers;kbcached;kbcommit;%commit;kbactive;kbinact;kbdirty;kbshmem&kbanonpg;kbslab;kbkstack;kbpgtbl;kbvmused|kbswpfree;kbswpused;%swpused;kbswpcad;%swpcad";

pub const QUEUE_HDR: &'static str = "runq-sz;plist-sz;ldavg-1;ldavg-5;ldavg-15;blocked";

pub const SERIAL_HDR: &'static str = "TTY;rcvin/s;xmtin/s;framerr/s;prtyerr/s;brk/s;ovrun/s";

pub const DISK_HDR: &'static str = "DEV;tps;rkB/s;wkB/s;dkB/s;areq-sz;aqu-sz;await;%util";

pub const NET_DEV_HDR: &'static str = "IFACE;rxpck/s;txpck/s;rxkB/s;txkB/s;rxcmp/s;txcmp/s;rxmcst/s;%ifutil";

pub const NET_EDEV_HDR: &'static str = "IFACE;rxerr/s;txerr/s;coll/s;rxdrop/s;txdrop/s;txcarr/s;rxfram/s;rxfifo/s;txfifo/s";

pub const PWR_CPU_HDR: &'static str = "CPU;MHz";

pub const PWR_FAN_HDR: &'static str = "FAN;DEVICE;rpm;drpm";

pub const PWR_TEMP_HDR: &'static str = "TEMP;DEVICE;degC;%temp";

pub const PWR_IN_HDR: &'static str = "IN;DEVICE;inV;%in";

pub const HUGE_HDR: &'static str = "kbhugfree;kbhugused;%hugused;kbhugrsvd;kbhugsurp";

pub const PWR_FREQ_HDR: &'static str = "CPU;wghMHz";

pub const PWR_USB_HDR: &'static str = "manufact;product;BUS;idvendor;idprod;maxpower";

pub const FS_HDR: &'static str = "FILESYSTEM;MBfsfree;MBfsused;%fsused;%ufsused;Ifree;Iused;%Iused|MOUNTPOINT;MBfsfree;MBfsused;%fsused;%ufsused;Ifree;Iused;%Iused";

pub const NET_FC_HDR: &'static str = "FCHOST;fch_rxf/s;fch_txf/s;fch_rxw/s;fch_txw/s";

pub const NET_SOFT_HDR: &'static str = "CPU;total/s;dropd/s;squeezd/s;rx_rps/s;flw_lim/s;blg_len";

pub const PSI_CPU_HDR: &'static str = "%scpu-10;%scpu-60;%scpu-300;%scpu";

pub const PSI_IO_HDR: &'static str = "%sio-10;%sio-60;%sio-300;%sio;%fio-10;%fio-60;%fio-300;%fio";

pub const PSI_MEM_HDR: &'static str = "%smem-10;%smem-60;%smem-300;%smem;%fmem-10;%fmem-60;%fmem-300;%fmem";

pub const PWR_BAT_HDR: &'static str = "BAT;%cap;cap/min;status";

/// One block of a report.
#[derive(Clone, Debug)]
pub struct BlockView {
    pub id: ActivityId,
    /// The headings: sections separated by `|`, columns separated by `;`.
    pub hdr_line: &'static str,
    /// The section of the headings.
    pub pos: usize,
    /// The width of the first heading, or which heading stands at the end of the line.
    pub iwidth: i32,
    /// Whether the columns of the long form are shown.
    pub ext: bool,
    pub head: HeadItem,
    pub tail: TailItem,
    pub layout: Layout,
    pub header: HeaderPolicy,
    pub avg_label: AvgLabel,
    pub cells: Vec<ColSpec>,
}

/// The contents of a block's description.
pub struct ViewModel {
    pub id: ActivityId,
    pub hdr_line: Seq<char>,
    pub pos: int,
    pub iwidth: int,
    pub ext: bool,
    pub head: HeadItem,
    pub tail: TailItem,
    pub layout: Layout,
    pub header: HeaderPolicy,
    pub avg_label: AvgLabel,
    pub cells: Seq<ColSpec>,
}

impl BlockView {
    pub open spec fn model(self) -> ViewModel {
        ViewModel {
            id: self.id,
            hdr_line: self.hdr_line@,
            pos: self.pos as int,
            iwidth: self.iwidth as int,
            ext: self.ext,
            head: self.head,
            tail: self.tail,
            layout: self.layout,
            header: self.header,
            avg_label: self.avg_label,
            cells: self.cells@,
        }
    }
}

/// The contents of the descriptions of a list.
pub open spec fn models(v: Seq<BlockView>) -> Seq<ViewModel> {
    Seq::new(v.len(), |i: int| v[i].model())
}

/// Columns from `from` on and before `to` that show rates with two decimals.
pub open spec fn rate_columns(from: int, to: int) -> Seq<ColSpec> {
    Seq::new((to - from) as nat, |i: int| rate((from + i) as usize, f2()))
}

/// The first `n` columns, which show whole numbers, and means without decimals.
pub open spec fn gauge_columns(n: int) -> Seq<ColSpec> {
    Seq::new(n as nat, |i: int| mean(i as usize, int_cell(), f0()))
}

fn rate_cells(from: usize, to: usize) -> (r: Vec<ColSpec>)
    requires
        from <= to,
    ensures
        r@ == rate_columns(from as int, to as int),
{
    let mut out: Vec<ColSpec> = Vec::new();
    let mut c: usize = from;
    while c < to
        invariant
            from <= c <= to,
            out@ == rate_columns(from as int, c as int),
        decreases to - c,
    {
        out.push(rate(c, f2()));
        c = c + 1;
        assert(out@ == rate_columns(from as int, c as int));
    }
    out
}

fn gauge_int_cells(n: usize) -> (r: Vec<ColSpec>)
    ensures
        r@ == gauge_columns(n as int),
{
    let mut out: Vec<ColSpec> = Vec::new();
    let mut c: usize = 0;
    while c < n
        invariant
            c <= n,
            out@ == gauge_columns(c as int),
        decreases n - c,
    {
        out.push(mean(c, int_cell(), f0()));
        c = c + 1;
        assert(out@ == gauge_columns(c as int));
    }
    out
}

/// The block of an activity without items.
pub open spec fn simple_model(
    id: ActivityId,
    hdr_line: Seq<char>,
    cells: Seq<ColSpec>,
) -> ViewModel {
    ViewModel {
        id,
        hdr_line,
        pos: 0,
        iwidth: 0,
        ext: false,
        head: HeadItem::Nothing,
        tail: TailItem::Nothing,
        layout: Layout::Single,
        header: HeaderPolicy::Once,
        avg_label: AvgLabel::Average,
        cells,
    }
}

/// Activities that show an item on each line repeat their headings where unchanged items are
/// left out.
pub open spec fn omit_policy(zero_omit: bool) -> HeaderPolicy {
    if zero_omit {
        HeaderPolicy::EverySample
    } else {
        HeaderPolicy::Once
    }
}

/// The block of an activity whose items go by a name. The name stands at the start of the
/// line, or at its end in a pretty report.
pub open spec fn named_model(
    id: ActivityId,
    hdr_line: Seq<char>,
    pretty: bool,
    layout: Layout,
    header: HeaderPolicy,
    cells: Seq<ColSpec>,
) -> ViewModel {
    ViewModel {
        iwidth: if pretty {
            -1
        } else {
            0
        },
        head: if pretty {
            HeadItem::Nothing
        } else {
            HeadItem::Name9
        },
        tail: if pretty {
            TailItem::Name
        } else {
            TailItem::Nothing
        },
        layout,
        header,
        ..simple_model(id, hdr_line, cells)
    }
}

/// The block of a kind of sensors.
pub open spec fn sensor_model(
    id: ActivityId,
    hdr_line: Seq<char>,
    cells: Seq<ColSpec>,
) -> ViewModel {
    ViewModel {
        iwidth: -2,
        head: HeadItem::Index5,
        tail: TailItem::Name,
        layout: Layout::List,
        ..simple_model(id, hdr_line, cells)
    }
}

/// The block of an activity with a line for each CPU.
pub open spec fn cpu_model(
    id: ActivityId,
    hdr_line: Seq<char>,
    head: HeadItem,
    layout: Layout,
    header: HeaderPolicy,
    cells: Seq<ColSpec>,
) -> ViewModel {
    ViewModel { iwidth: 7, head, layout, header, ..simple_model(id, hdr_line, cells) }
}

/// The blocks of the memory report.
pub open spec fn memory_models(opts: SarTextOptions) -> Seq<ViewModel> {
    let ram = ViewModel {
        ext: opts.mem_all,
        ..simple_model(
            ActivityId::MEMORY,
            MEMORY_HDR@,
            if opts.mem_all {
                memory_all_columns()
            } else {
                memory_columns()
            },
        )
    };
    let swap = ViewModel {
        pos: 1,
        ..simple_model(ActivityId::MEMORY, MEMORY_HDR@, swap_columns())
    };
    (if opts.shows_memory() {
        seq![ram]
    } else {
        Seq::empty()
    }) + (if opts.swap {
        seq![swap]
    } else {
        Seq::empty()
    })
}

/// The blocks that an activity is shown in. The memory activity has two, one for the memory and
/// one for the swap space; an activity that is not known has none.
pub open spec fn activity_models(id: ActivityId, opts: SarTextOptions) -> Seq<ViewModel> {
    match id {
        ActivityId::CPU => seq![
            ViewModel {
                pos: if opts.cpu_all {
                    1
                } else {
                    0
                },
                ..cpu_model(
                    id,
                    CPU_HDR@,
                    HeadItem::Cpu7,
                    Layout::Cpu,
                    HeaderPolicy::Once,
                    if opts.cpu_all {
                        cpu_all_columns()
                    } else {
                        cpu_columns()
                    },
                )
            },
        ],
        ActivityId::IRQ => seq![
            named_model(
                id,
                IRQ_HDR@,
                opts.pretty,
                Layout::IrqMatrix,
                HeaderPolicy::EverySample,
                irq_columns(),
            ),
        ],
        ActivityId::MEMORY => memory_models(opts),
        ActivityId::QUEUE => seq![simple_model(id, QUEUE_HDR@, queue_columns())],
        ActivityId::SERIAL => seq![
            ViewModel {
                head: HeadItem::Line3,
                layout: Layout::List,
                header: omit_policy(opts.zero_omit),
                ..simple_model(id, SERIAL_HDR@, rate_columns(1, 7))
            },
        ],
        ActivityId::DISK => seq![
            named_model(
                id,
                DISK_HDR@,
                opts.pretty,
                Layout::List,
                omit_policy(opts.zero_omit),
                disk_columns(),
            ),
        ],
        ActivityId::NET_DEV => seq![
            named_model(
                id,
                NET_DEV_HDR@,
                opts.pretty,
                Layout::List,
                omit_policy(opts.zero_omit),
                net_dev_columns(),
            ),
        ],
        ActivityId::NET_EDEV => seq![
            named_model(
                id,
                NET_EDEV_HDR@,
                opts.pretty,
                Layout::List,
                omit_policy(opts.zero_omit),
                rate_columns(1, 10),
            ),
        ],
        ActivityId::PWR_CPU => seq![
            cpu_model(
                id,
                PWR_CPU_HDR@,
                HeadItem::Cpu3,
                Layout::Cpu,
                HeaderPolicy::Once,
                pwr_cpu_columns(),
            ),
        ],
        ActivityId::PWR_FAN => seq![sensor_model(id, PWR_FAN_HDR@, fan_columns())],
        ActivityId::PWR_TEMP => seq![sensor_model(id, PWR_TEMP_HDR@, temp_columns())],
        ActivityId::PWR_IN => seq![sensor_model(id, PWR_IN_HDR@, voltage_columns())],
        ActivityId::HUGE => seq![simple_model(id, HUGE_HDR@, huge_columns())],
        ActivityId::PWR_FREQ => seq![
            cpu_model(
                id,
                PWR_FREQ_HDR@,
                HeadItem::Cpu3,
                Layout::FreqMatrix,
                HeaderPolicy::Once,
                freq_columns(),
            ),
        ],
        ActivityId::PWR_USB => seq![
            ViewModel {
                head: HeadItem::Bus6,
                tail: TailItem::UsbNames,
                layout: Layout::List,
                avg_label: AvgLabel::Summary,
                ..simple_model(id, PWR_USB_HDR@, usb_columns())
            },
        ],
        ActivityId::FS => seq![
            ViewModel {
                pos: if opts.mount {
                    1
                } else {
                    0
                },
                avg_label: AvgLabel::SummaryOrLast,
                ..named_model(
                    id,
                    FS_HDR@,
                    true,
                    Layout::List,
                    omit_policy(opts.zero_omit),
                    fs_columns(),
                )
            },
        ],
        ActivityId::NET_FC => seq![
            named_model(id, NET_FC_HDR@, true, Layout::List, HeaderPolicy::Once, rate_columns(1, 5)),
        ],
        ActivityId::NET_SOFT => seq![
            cpu_model(
                id,
                NET_SOFT_HDR@,
                HeadItem::Cpu7,
                Layout::Cpu,
                omit_policy(opts.zero_omit),
                net_soft_columns(),
            ),
        ],
        ActivityId::PSI_CPU => seq![simple_model(id, PSI_CPU_HDR@, psi_some_columns())],
        ActivityId::PSI_IO => seq![simple_model(id, PSI_IO_HDR@, psi_full_columns())],
        ActivityId::PSI_MEM => seq![simple_model(id, PSI_MEM_HDR@, psi_full_columns())],
        ActivityId::PWR_BAT => seq![
            ViewModel {
                head: HeadItem::Index5,
                layout: Layout::List,
                ..simple_model(id, PWR_BAT_HDR@, bat_columns())
            },
        ],
        ActivityId::PCSW => seq![simple_model(id, PCSW_HDR@, rate_columns(0, 2))],
        ActivityId::SWAP => seq![simple_model(id, SWAP_HDR@, rate_columns(0, 2))],
        ActivityId::PAGE => seq![simple_model(id, PAGE_HDR@, rate_columns(0, 10))],
        ActivityId::IO => seq![simple_model(id, IO_HDR@, rate_columns(0, 7))],
        ActivityId::KTABLES => seq![simple_model(id, KTABLES_HDR@, gauge_columns(4))],
        ActivityId::NET_NFS => seq![simple_model(id, NET_NFS_HDR@, rate_columns(0, 6))],
        ActivityId::NET_NFSD => seq![simple_model(id, NET_NFSD_HDR@, rate_columns(0, 11))],
        ActivityId::NET_SOCK => seq![simple_model(id, NET_SOCK_HDR@, gauge_columns(6))],
        ActivityId::NET_IP => seq![simple_model(id, NET_IP_HDR@, rate_columns(0, 8))],
        ActivityId::NET_EIP => seq![simple_model(id, NET_EIP_HDR@, rate_columns(0, 8))],
        ActivityId::NET_ICMP => seq![simple_model(id, NET_ICMP_HDR@, rate_columns(0, 14))],
        ActivityId::NET_EICMP => seq![simple_model(id, NET_EICMP_HDR@, rate_columns(0, 12))],
        ActivityId::NET_TCP => seq![simple_model(id, NET_TCP_HDR@, rate_columns(0, 4))],
        ActivityId::NET_ETCP => seq![simple_model(id, NET_ETCP_HDR@, rate_columns(0, 5))],
        ActivityId::NET_UDP => seq![simple_model(id, NET_UDP_HDR@, rate_columns(0, 4))],
        ActivityId::NET_SOCK6 => seq![simple_model(id, NET_SOCK6_HDR@, gauge_columns(4))],
        ActivityId::NET_IP6 => seq![simple_model(id, NET_IP6_HDR@, rate_columns(0, 10))],
        ActivityId::NET_EIP6 => seq![simple_model(id, NET_EIP6_HDR@, rate_columns(0, 11))],
        ActivityId::NET_ICMP6 => seq![simple_model(id, NET_ICMP6_HDR@, rate_columns(0, 17))],
        ActivityId::NET_EICMP6 => seq![simple_model(id, NET_EICMP6_HDR@, rate_columns(0, 11))],
        ActivityId::NET_UDP6 => seq![simple_model(id, NET_UDP6_HDR@, rate_columns(0, 4))],
        ActivityId::Unknown(_) => Seq::empty(),
    }
}

fn one(v: BlockView) -> (r: Vec<BlockView>)
    ensures
        models(r@) == seq![v.model()],
{
    let mut out: Vec<BlockView> = Vec::new();
    out.push(v);
    assert(models(out@) == seq![v.model()]);
    out
}

impl BlockView {
    /// The block of an activity without items.
    fn simple(id: ActivityId, hdr_line: &'static str, cells: Vec<ColSpec>) -> (r: BlockView)
        ensures
            r.model() == simple_model(id, hdr_line@, cells@),
    {
        BlockView {
            id,
            hdr_line,
            pos: 0,
            iwidth: 0,
            ext: false,
            head: HeadItem::Nothing,
            tail: TailItem::Nothing,
            layout: Layout::Single,
            header: HeaderPolicy::Once,
            avg_label: AvgLabel::Average,
            cells,
        }
    }

    /// The block of an activity whose items go by a name.
    fn named(
        id: ActivityId,
        hdr_line: &'static str,
        pretty: bool,
        layout: Layout,
        header: HeaderPolicy,
        cells: Vec<ColSpec>,
    ) -> (r: BlockView)
        ensures
            r.model() == named_model(id, hdr_line@, pretty, layout, header, cells@),
    {
        let mut v = BlockView::simple(id, hdr_line, cells);
        v.layout = layout;
        v.header = header;
        if pretty {
            v.iwidth = -1;
            v.tail = TailItem::Name;
        } else {
            v.head = HeadItem::Name9;
        }
        v
    }

    /// The block of a kind of sensors.
    fn sensor(id: ActivityId, hdr_line: &'static str, cells: Vec<ColSpec>) -> (r: BlockView)
        ensures
            r.model() == sensor_model(id, hdr_line@, cells@),
    {
        let mut v = BlockView::simple(id, hdr_line, cells);
        v.iwidth = -2;
        v.head = HeadItem::Index5;
        v.tail = TailItem::Name;
        v.layout = Layout::List;
        v
    }

    /// The block of an activity with a line for each CPU.
    fn per_cpu(
        id: ActivityId,
        hdr_line: &'static str,
        head: HeadItem,
        layout: Layout,
        header: HeaderPolicy,
        cells: Vec<ColSpec>,
    ) -> (r: BlockView)
        ensures
            r.model() == cpu_model(id, hdr_line@, head, layout, header, cells@),
    {
        let mut v = BlockView::simple(id, hdr_line, cells);
        v.iwidth = 7;
        v.head = head;
        v.layout = layout;
        v.header = header;
        v
    }

    fn cpu(opts: &SarTextOptions) -> (r: BlockView)
        ensures
            seq![r.model()] == activity_models(ActivityId::CPU, *opts),
    {
        let cells = if opts.cpu_all {
            cpu_all_cells()
        } else {
            cpu_cells()
        };
        let mut v = BlockView::per_cpu(
            ActivityId::CPU,
            CPU_HDR,
            HeadItem::Cpu7,
            Layout::Cpu,
            HeaderPolicy::Once,
            cells,
        );
        if opts.cpu_all {
            v.pos = 1;
        }
        v
    }

    fn memory(opts: &SarTextOptions) -> (r: Vec<BlockView>)
        ensures
            models(r@) == memory_models(*opts),
    {
        let (ram, swap) = opts.memory_blocks();
        let mut out: Vec<BlockView> = Vec::new();
        if ram {
            let cells = if opts.mem_all {
                memory_all_cells()
            } else {
                memory_cells()
            };
            let mut v = BlockView::simple(ActivityId::MEMORY, MEMORY_HDR, cells);
            v.ext = opts.mem_all;
            out.push(v);
        }
        if swap {
            let mut v = BlockView::simple(ActivityId::MEMORY, MEMORY_HDR, swap_cells());
            v.pos = 1;
            out.push(v);
        }
        assert(models(out@) == memory_models(*opts));
        out
    }

    fn serial(opts: &SarTextOptions) -> (r: BlockView)
        ensures
            seq![r.model()] == activity_models(ActivityId::SERIAL, *opts),
    {
        let mut v = BlockView::simple(ActivityId::SERIAL, SERIAL_HDR, rate_cells(1, 7));
        v.head = HeadItem::Line3;
        v.layout = Layout::List;
        v.header = zero_omit_policy(opts);
        v
    }

    fn usb() -> (r: BlockView)
        ensures
            forall|opts: SarTextOptions| seq![r.model()] == #[trigger] activity_models(
                ActivityId::PWR_USB,
                opts,
            ),
    {
        let mut v = BlockView::simple(ActivityId::PWR_USB, PWR_USB_HDR, usb_cells());
        v.head = HeadItem::Bus6;
        v.tail = TailItem::UsbNames;
        v.layout = Layout::List;
        v.avg_label = AvgLabel::Summary;
        v
    }

    fn fs(opts: &SarTextOptions) -> (r: BlockView)
        ensures
            seq![r.model()] == activity_models(ActivityId::FS, *opts),
    {
        let mut v = BlockView::named(
            ActivityId::FS,
            FS_HDR,
            true,
            Layout::List,
            zero_omit_policy(opts),
            fs_cells(),
        );
        if opts.mount {
            v.pos = 1;
        }
        v.avg_label = AvgLabel::SummaryOrLast;
        v
    }

    fn bat() -> (r: BlockView)
        ensures
            forall|opts: SarTextOptions| seq![r.model()] == #[trigger] activity_models(
                ActivityId::PWR_BAT,
                opts,
            ),
    {
        let mut v = BlockView::simple(ActivityId::PWR_BAT, PWR_BAT_HDR, bat_cells());
        v.head = HeadItem::Index5;
        v.layout = Layout::List;
        v
    }

    /// The blocks that an activity is shown in.
    pub fn all_for(id: ActivityId, opts: &SarTextOptions) -> (r: Vec<BlockView>)
        ensures
            models(r@) == activity_models(id, *opts),
    {
        let omit = zero_omit_policy(opts);
        match id {
            ActivityId::CPU => one(BlockView::cpu(opts)),
            ActivityId::IRQ => one(
                BlockView::named(
                    id,
                    IRQ_HDR,
                    opts.pretty,
                    Layout::IrqMatrix,
                    HeaderPolicy::EverySample,
                    irq_cells(),
                ),
            ),
            ActivityId::MEMORY => BlockView::memory(opts),
            ActivityId::QUEUE => one(BlockView::simple(id, QUEUE_HDR, queue_cells())),
            ActivityId::SERIAL => one(BlockView::serial(opts)),
            ActivityId::DISK => one(
                BlockView::named(id, DISK_HDR, opts.pretty, Layout::List, omit, disk_cells()),
            ),
            ActivityId::NET_DEV => one(
                BlockView::named(id, NET_DEV_HDR, opts.pretty, Layout::List, omit, net_dev_cells()),
            ),
            ActivityId::NET_EDEV => one(
                BlockView::named(id, NET_EDEV_HDR, opts.pretty, Layout::List, omit, rate_cells(1, 10)),
            ),
            ActivityId::PWR_CPU => one(
                BlockView::per_cpu(
                    id,
                    PWR_CPU_HDR,
                    HeadItem::Cpu3,
                    Layout::Cpu,
                    HeaderPolicy::Once,
                    pwr_cpu_cells(),
                ),
            ),
            ActivityId::PWR_FAN => one(BlockView::sensor(id, PWR_FAN_HDR, fan_cells())),
            ActivityId::PWR_TEMP => one(BlockView::sensor(id, PWR_TEMP_HDR, temp_cells())),
            ActivityId::PWR_IN => one(BlockView::sensor(id, PWR_IN_HDR, voltage_cells())),
            ActivityId::HUGE => one(BlockView::simple(id, HUGE_HDR, huge_cells())),
            ActivityId::PWR_FREQ => one(
                BlockView::per_cpu(
                    id,
                    PWR_FREQ_HDR,
                    HeadItem::Cpu3,
                    Layout::FreqMatrix,
                    HeaderPolicy::Once,
                    freq_cells(),
                ),
            ),
            ActivityId::PWR_USB => one(BlockView::usb()),
            ActivityId::FS => one(BlockView::fs(opts)),
            ActivityId::NET_FC => one(
                BlockView::named(
                    id,
                    NET_FC_HDR,
                    true,
                    Layout::List,
                    HeaderPolicy::Once,
                    rate_cells(1, 5),
                ),
            ),
            ActivityId::NET_SOFT => one(
                BlockView::per_cpu(
                    id,
                    NET_SOFT_HDR,
                    HeadItem::Cpu7,
                    Layout::Cpu,
                    omit,
                    net_soft_cells(),
                ),
            ),
            ActivityId::PSI_CPU => one(BlockView::simple(id, PSI_CPU_HDR, psi_some_cells())),
            ActivityId::PSI_IO => one(BlockView::simple(id, PSI_IO_HDR, psi_full_cells())),
            ActivityId::PSI_MEM => one(BlockView::simple(id, PSI_MEM_HDR, psi_full_cells())),
            ActivityId::PWR_BAT => one(BlockView::bat()),
            ActivityId::PCSW => one(BlockView::simple(id, PCSW_HDR, rate_cells(0, 2))),
            ActivityId::SWAP => one(BlockView::simple(id, SWAP_HDR, rate_cells(0, 2))),
            ActivityId::PAGE => one(BlockView::simple(id, PAGE_HDR, rate_cells(0, 10))),
            ActivityId::IO => one(BlockView::simple(id, IO_HDR, rate_cells(0, 7))),
            ActivityId::KTABLES => one(BlockView::simple(id, KTABLES_HDR, gauge_int_cells(4))),
            ActivityId::NET_NFS => one(BlockView::simple(id, NET_NFS_HDR, rate_cells(0, 6))),
            ActivityId::NET_NFSD => one(BlockView::simple(id, NET_NFSD_HDR, rate_cells(0, 11))),
            ActivityId::NET_SOCK => one(BlockView::simple(id, NET_SOCK_HDR, gauge_int_cells(6))),
            ActivityId::NET_IP => one(BlockView::simple(id, NET_IP_HDR, rate_cells(0, 8))),
            ActivityId::NET_EIP => one(BlockView::simple(id, NET_EIP_HDR, rate_cells(0, 8))),
            ActivityId::NET_ICMP => one(BlockView::simple(id, NET_ICMP_HDR, rate_cells(0, 14))),
            ActivityId::NET_EICMP => one(BlockView::simple(id, NET_EICMP_HDR, rate_cells(0, 12))),
            ActivityId::NET_TCP => one(BlockView::simple(id, NET_TCP_HDR, rate_cells(0, 4))),
            ActivityId::NET_ETCP => one(BlockView::simple(id, NET_ETCP_HDR, rate_cells(0, 5))),
            ActivityId::NET_UDP => one(BlockView::simple(id, NET_UDP_HDR, rate_cells(0, 4))),
            ActivityId::NET_SOCK6 => one(BlockView::simple(id, NET_SOCK6_HDR, gauge_int_cells(4))),
            ActivityId::NET_IP6 => one(BlockView::simple(id, NET_IP6_HDR, rate_cells(0, 10))),
            ActivityId::NET_EIP6 => one(BlockView::simple(id, NET_EIP6_HDR, rate_cells(0, 11))),
            ActivityId::NET_ICMP6 => one(BlockView::simple(id, NET_ICMP6_HDR, rate_cells(0, 17))),
            ActivityId::NET_EICMP6 => one(BlockView::simple(id, NET_EICMP6_HDR, rate_cells(0, 11))),
            ActivityId::NET_UDP6 => one(BlockView::simple(id, NET_UDP6_HDR, rate_cells(0, 4))),
            ActivityId::Unknown(_) => Vec::new(),
        }
    }
}

fn zero_omit_policy(opts: &SarTextOptions) -> (r: HeaderPolicy)
    ensures
        r == omit_policy(opts.zero_omit),
{
    if opts.zero_omit {
        HeaderPolicy::EverySample
    } else {
        HeaderPolicy::Once
    }
}

/// Every activity that is known is shown, in one block or in two, each of which has columns of
/// its own and belongs to the activity. One that is not known is not.
pub proof fn law_every_activity_is_shown(id: ActivityId, opts: SarTextOptions)
    ensures
        id.known() <==> activity_models(id, opts).len() > 0,
        activity_models(id, opts).len() <= 2,
        forall|i: int|
            0 <= i < activity_models(id, opts).len() ==> {
                &&& (#[trigger] activity_models(id, opts)[i]).id == id
                &&& activity_models(id, opts)[i].cells.len() > 0
            },
{
}

}
