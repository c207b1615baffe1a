//! What the older report shows and how.

use vstd::prelude::*;

use crate::model::ActivityId;
use crate::sar_el7::rows::MemOutput;
use crate::sar_text::options::TimeStyle;

verus! {

/// The format of the files that this release reads.
pub const FORMAT_MAGIC: u16 = 0x2171;

/// A time of day. The hour is 24 or more for a time on the next day.
#[derive(Clone, Copy, PartialEq, Eq, Structural, Debug)]
pub struct Tstamp {
    pub hour: i32,
    pub min: i32,
    pub sec: i32,
}

/// A set of numbers, one bit for each.
#[derive(Debug)]
pub struct Bitmap {
    pub bytes: Vec<u8>,
}

/// The number of bits that are set in a byte.
pub open spec fn ones(b: nat) -> nat
    decreases b,
{
    if b == 0 {
        0
    } else {
        b % 2 + ones(b / 2)
    }
}

/// The number of bits that are set.
pub open spec fn bits_set(s: Seq<u8>) -> nat
    decreases s.len(),
{
    if s.len() == 0 {
        0
    } else {
        bits_set(s.drop_last()) + ones(s.last() as nat)
    }
}

/// A count, cut off at the largest number of 64 bits.
pub open spec fn capped(n: int) -> u64 {
    if n > u64::MAX {
        u64::MAX
    } else {
        n as u64
    }
}

/// The sum of two counts, cut off at the largest number of 64 bits.
pub fn capped_sum(a: u64, b: u64) -> (r: u64)
    ensures
        r == capped(a + b),
{
    if a > u64::MAX - b {
        u64::MAX
    } else {
        a + b
    }
}

fn ones_of(b: u8) -> (r: u64)
    ensures
        r == ones(b as nat),
        r <= 8,
{
    proof {
        reveal_with_fuel(ones, 9);
    }
    let mut n: u64 = 0;
    let mut rest: u8 = b;
    let mut k: u64 = 0;
    let ghost mut limit: nat = 256;
    while rest > 0
        invariant
            n + ones(rest as nat) == ones(b as nat),
            n <= k,
            k <= 8,
            rest < limit,
            (k == 0 && limit == 256) || (k == 1 && limit == 128) || (k == 2 && limit == 64) || (k
                == 3 && limit == 32) || (k == 4 && limit == 16) || (k == 5 && limit == 8) || (k == 6
                && limit == 4) || (k == 7 && limit == 2) || (k == 8 && limit == 1),
        decreases rest,
    {
        n = n + (rest % 2) as u64;
        rest = rest / 2;
        k = k + 1;
        proof {
            limit = limit / 2;
        }
    }
    n
}

impl Bitmap {
    /// The number of bits that are set.
    pub fn count_bits(&self) -> (r: u64)
        ensures
            r == capped(bits_set(self.bytes@) as int),
    {
        let mut n: u64 = 0;
        let mut i: usize = 0;
        assert(self.bytes@.take(0) =~= Seq::<u8>::empty());
        while i < self.bytes.len()
            invariant
                i <= self.bytes.len(),
                n == capped(bits_set(self.bytes@.take(i as int)) as int),
            decreases self.bytes.len() - i,
        {
            assert(self.bytes@.take(i + 1).drop_last() =~= self.bytes@.take(i as int));
            n = capped_sum(n, ones_of(self.bytes[i]));
            i = i + 1;
        }
        assert(self.bytes@.take(self.bytes@.len() as int) =~= self.bytes@);
        n
    }

    /// Sets every bit.
    pub fn set_all(&mut self)
        ensures
            final(self).bytes@ == Seq::new(old(self).bytes@.len(), |i: int| 255u8),
    {
        let n: usize = self.bytes.len();
        let mut out: Vec<u8> = Vec::new();
        let mut i: usize = 0;
        while i < n
            invariant
                i <= n,
                out@.len() == i,
                forall|k: int| 0 <= k < i ==> #[trigger] out@[k] == 255u8,
            decreases n - i,
        {
            out.push(255u8);
            i = i + 1;
        }
        assert(out@ =~= Seq::new(n as nat, |i: int| 255u8));
        self.bytes = out;
    }
}

/// How the lines of the activities are made.
#[derive(Debug)]
pub struct PrintOptions {
    /// The long form of the CPU report.
    pub cpu_all: bool,
    /// The CPUs that are shown; bit 0 stands for all of them together.
    pub cpu_bitmap: Bitmap,
    /// The interrupts that are shown; bit 0 stands for their sum.
    pub irq_bitmap: Bitmap,
    /// Filesystems go by their mount point.
    pub fs_mount: bool,
    /// The binary logarithm of the kilobytes of a page.
    pub kb_shift: u32,
}

/// The options of the older report.
#[derive(Debug)]
pub struct El7Options {
    /// The activities that are shown.
    pub activities: Vec<ActivityId>,
    pub print: PrintOptions,
    /// Changes of the memory in pages per second.
    pub mem_dia: bool,
    /// The amounts of memory.
    pub mem_amt: bool,
    /// The swap space.
    pub mem_swap: bool,
    /// Comments are shown.
    pub comment: bool,
    pub time: TimeStyle,
    /// The date of the banner, where it is not to be in the form `MM/DD/YY`.
    pub date: Option<String>,
    /// The lines after which the headings are shown again.
    pub rows: u64,
    /// The start of the time range.
    pub tm_start: Option<Tstamp>,
    /// The end of the time range.
    pub tm_end: Option<Tstamp>,
    /// The interval in seconds.
    pub interval: i64,
    /// The samples that are shown between two restarts; -1 for all.
    pub count: i64,
}

/// The lines after which the headings are shown again where the output is no terminal.
pub const DEFAULT_ROWS: u64 = 86_400;

/// The activities of this release, in the order of their numbers.
pub open spec fn all_activities() -> Seq<ActivityId> {
    seq![
        ActivityId::CPU,
        ActivityId::PCSW,
        ActivityId::IRQ,
        ActivityId::SWAP,
        ActivityId::PAGE,
        ActivityId::IO,
        ActivityId::MEMORY,
        ActivityId::KTABLES,
        ActivityId::QUEUE,
        ActivityId::SERIAL,
        ActivityId::DISK,
        ActivityId::NET_DEV,
        ActivityId::NET_EDEV,
        ActivityId::NET_NFS,
        ActivityId::NET_NFSD,
        ActivityId::NET_SOCK,
        ActivityId::NET_IP,
        ActivityId::NET_EIP,
        ActivityId::NET_ICMP,
        ActivityId::NET_EICMP,
        ActivityId::NET_TCP,
        ActivityId::NET_ETCP,
        ActivityId::NET_UDP,
        ActivityId::NET_SOCK6,
        ActivityId::NET_IP6,
        ActivityId::NET_EIP6,
        ActivityId::NET_ICMP6,
        ActivityId::NET_EICMP6,
        ActivityId::NET_UDP6,
        ActivityId::PWR_CPU,
        ActivityId::PWR_FAN,
        ActivityId::PWR_TEMP,
        ActivityId::PWR_IN,
        ActivityId::HUGE,
        ActivityId::PWR_FREQ,
        ActivityId::PWR_USB,
        ActivityId::FS,
    ]
}

/// The parts of the memory report that are shown, in their order.
pub open spec fn memory_parts(o: El7Options) -> Seq<MemOutput> {
    (if o.mem_dia {
        seq![MemOutput::Dia]
    } else {
        Seq::empty()
    }) + (if o.mem_amt {
        seq![MemOutput::Amt]
    } else {
        Seq::empty()
    }) + (if o.mem_swap {
        seq![MemOutput::Swap]
    } else {
        Seq::empty()
    })
}

impl El7Options {
    /// Everything, with recorded times and comments. Every bit of the two sets is set.
    pub fn all(kb_shift: u32, cpus: Bitmap, irqs: Bitmap) -> (r: Self)
        ensures
            r.activities@ == all_activities(),
            r.print.cpu_all && !r.print.fs_mount && r.print.kb_shift == kb_shift,
            r.print.cpu_bitmap.bytes@ == Seq::new(cpus.bytes@.len(), |i: int| 255u8),
            r.print.irq_bitmap.bytes@ == Seq::new(irqs.bytes@.len(), |i: int| 255u8),
            r.mem_dia && r.mem_amt && r.mem_swap && r.comment,
            r.time == TimeStyle::Recorded,
            r.date is None,
            r.rows == DEFAULT_ROWS,
            r.tm_start is None && r.tm_end is None,
            r.interval == 1 && r.count == -1,
    {
        let mut cpu_bitmap = cpus;
        cpu_bitmap.set_all();
        let mut irq_bitmap = irqs;
        irq_bitmap.set_all();
        let activities: Vec<ActivityId> = vec![
            ActivityId::CPU,
            ActivityId::PCSW,
            ActivityId::IRQ,
            ActivityId::SWAP,
            ActivityId::PAGE,
            ActivityId::IO,
            ActivityId::MEMORY,
            ActivityId::KTABLES,
            ActivityId::QUEUE,
            ActivityId::SERIAL,
            ActivityId::DISK,
            ActivityId::NET_DEV,
            ActivityId::NET_EDEV,
            ActivityId::NET_NFS,
            ActivityId::NET_NFSD,
            ActivityId::NET_SOCK,
            ActivityId::NET_IP,
            ActivityId::NET_EIP,
            ActivityId::NET_ICMP,
            ActivityId::NET_EICMP,
            ActivityId::NET_TCP,
            ActivityId::NET_ETCP,
            ActivityId::NET_UDP,
            ActivityId::NET_SOCK6,
            ActivityId::NET_IP6,
            ActivityId::NET_EIP6,
            ActivityId::NET_ICMP6,
            ActivityId::NET_EICMP6,
            ActivityId::NET_UDP6,
            ActivityId::PWR_CPU,
            ActivityId::PWR_FAN,
            ActivityId::PWR_TEMP,
            ActivityId::PWR_IN,
            ActivityId::HUGE,
            ActivityId::PWR_FREQ,
            ActivityId::PWR_USB,
            ActivityId::FS,
        ];
        assert(activities@ =~= all_activities());
        El7Options {
            activities,
            print: PrintOptions { cpu_all: true, cpu_bitmap, irq_bitmap, fs_mount: false, kb_shift },
            mem_dia: true,
            mem_amt: true,
            mem_swap: true,
            comment: true,
            time: TimeStyle::Recorded,
            date: None,
            rows: DEFAULT_ROWS,
            tm_start: None,
            tm_end: None,
            interval: 1,
            count: -1,
        }
    }

    /// The parts of the memory report that are shown.
    pub fn mem_outputs(&self) -> (r: Vec<MemOutput>)
        ensures
            r@ == memory_parts(*self),
    {
        let mut out: Vec<MemOutput> = Vec::new();
        if self.mem_dia {
            out.push(MemOutput::Dia);
        }
        if self.mem_amt {
            out.push(MemOutput::Amt);
        }
        if self.mem_swap {
            out.push(MemOutput::Swap);
        }
        assert(out@ =~= memory_parts(*self));
        out
    }
}

}
