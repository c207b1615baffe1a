//! The records of a file without their statistics.

use vstd::prelude::*;

use crate::clock::RecordTime;
use crate::model::ActivityId;
use crate::text::push_char;

verus! {

/// What a record is, as the file says.
#[derive(Clone, Copy, PartialEq, Eq, Structural, Debug)]
pub enum RecordKind {
    Stats,
    Restart,
    LastStats,
    Comment,
    /// A record of a later release.
    Extra(u8),
    /// A type that an older release counts as statistics.
    UnknownStats(u8),
    /// A type that there is not.
    Invalid(u8),
}

/// The number of a record type in the file.
pub open spec fn type_number(kind: RecordKind) -> u8 {
    match kind {
        RecordKind::Stats => 1,
        RecordKind::Restart => 2,
        RecordKind::LastStats => 3,
        RecordKind::Comment => 4,
        RecordKind::Extra(v) => v,
        RecordKind::UnknownStats(v) => v,
        RecordKind::Invalid(v) => v,
    }
}

/// The number of a record type in the file.
pub fn raw_record_type(kind: RecordKind) -> (r: u8)
    ensures
        r == type_number(kind),
{
    match kind {
        RecordKind::Stats => 1,
        RecordKind::Restart => 2,
        RecordKind::LastStats => 3,
        RecordKind::Comment => 4,
        RecordKind::Extra(v) | RecordKind::UnknownStats(v) | RecordKind::Invalid(v) => v,
    }
}

/// What a record that counts is.
#[derive(Clone, Copy, PartialEq, Eq, Structural, Debug)]
pub enum RecKind {
    Stats,
    Restart,
    Comment,
}

/// What a record counts as; `None` for one that does not count.
pub open spec fn counted_kind(kind: RecordKind) -> Option<RecKind> {
    match kind {
        RecordKind::Restart => Some(RecKind::Restart),
        RecordKind::Comment => Some(RecKind::Comment),
        RecordKind::Extra(_) => None,
        RecordKind::Invalid(_) => None,
        _ => Some(RecKind::Stats),
    }
}

fn rec_kind(kind: RecordKind) -> (r: Option<RecKind>)
    ensures
        r == counted_kind(kind),
{
    match kind {
        RecordKind::Restart => Some(RecKind::Restart),
        RecordKind::Comment => Some(RecKind::Comment),
        RecordKind::Extra(_) | RecordKind::Invalid(_) => None,
        RecordKind::Stats | RecordKind::LastStats | RecordKind::UnknownStats(_) => Some(
            RecKind::Stats,
        ),
    }
}

/// The number of items of an activity in a record.
#[derive(Clone, Copy, PartialEq, Eq, Structural, Debug)]
pub struct SliceCount {
    pub id: ActivityId,
    pub nr: u32,
}

/// A record as the file holds it.
#[derive(Debug)]
pub struct RawRecord {
    pub kind: RecordKind,
    pub time: RecordTime,
    /// The uptime in hundredths of a second, where the file has it.
    pub uptime_cs: Option<u64>,
    /// The number of CPUs, plus one, that a restart holds.
    pub cpu_count: Option<u32>,
    /// The text of a comment.
    pub comment: Option<Vec<u8>>,
    /// The numbers of items of the activities of a statistics record.
    pub slices: Vec<SliceCount>,
    /// Whether the record lies in the time range that was asked for.
    pub in_range: bool,
    /// Whether a statistics record lies after the end of the time range when it is compared with
    /// the sample that is shown before it. It counts for the samples that
    /// [`crate::sadf::range::stretches`] lists, up to the first of a stretch that does.
    pub past_end: bool,
}

/// A record that counts.
#[derive(Debug)]
pub struct Rec {
    pub kind: RecKind,
    pub time: RecordTime,
    /// The uptime in hundredths of a second; 0 where the file does not have it.
    pub uptime_cs: u64,
    pub cpu_count: Option<u32>,
    /// The text of a comment, made printable.
    pub comment: Option<String>,
    pub in_range: bool,
    pub past_end: bool,
    /// The numbers of items of the activities that are followed.
    pub nrs: Vec<u32>,
}

/// The header of a record.
#[derive(Clone, Copy, PartialEq, Eq, Structural, Debug)]
pub struct RecHeader {
    pub uptime_cs: u64,
    pub time: RecordTime,
    pub record_type: u8,
}

/// The headers of all records.
#[derive(Debug)]
pub struct DebugIndex {
    /// The headers in the order of the file, those of records that do not count among them.
    pub headers: Vec<RecHeader>,
    /// For each record that counts, the position of its header.
    pub own: Vec<usize>,
}

/// The records of a file.
#[derive(Debug)]
pub struct RecordIndex {
    pub recs: Vec<Rec>,
    pub debug: Option<DebugIndex>,
}

/// The number of items of an activity in a record; 0 where it has none.
pub open spec fn count_in(slices: Seq<SliceCount>, id: ActivityId) -> u32
    decreases slices.len(),
{
    if slices.len() == 0 {
        0
    } else if slices[0].id == id {
        slices[0].nr
    } else {
        count_in(slices.drop_first(), id)
    }
}

fn count_of(slices: &Vec<SliceCount>, id: ActivityId) -> (r: u32)
    ensures
        r == count_in(slices@, id),
{
    let mut k: usize = 0;
    assert(slices@.skip(0) =~= slices@);
    while k < slices.len()
        invariant
            k <= slices.len(),
            count_in(slices@, id) == count_in(slices@.skip(k as int), id),
        decreases slices.len() - k,
    {
        proof {
            assert(slices@.skip(k as int)[0] == slices@[k as int]);
            assert(slices@.skip(k as int).drop_first() =~= slices@.skip(k + 1));
        }
        if slices[k].id == id {
            return slices[k].nr;
        }
        k = k + 1;
    }
    0
}

/// The character that stands for a byte of a comment.
pub open spec fn byte_char(b: u8) -> char {
    if 0x20 <= b <= 0x7e {
        b as char
    } else {
        '.'
    }
}

/// A comment made printable: anything but printable ASCII is a dot.
pub open spec fn printable_bytes(b: Seq<u8>) -> Seq<char> {
    Seq::new(b.len(), |i: int| byte_char(b[i]))
}

/// Makes a comment printable.
pub fn printable(b: &Vec<u8>) -> (r: String)
    ensures
        r@ == printable_bytes(b@),
{
    let mut out = String::new();
    let mut i: usize = 0;
    while i < b.len()
        invariant
            i <= b.len(),
            out@ == printable_bytes(b@.take(i as int)),
        decreases b.len() - i,
    {
        let c: u8 = b[i];
        if 0x20 <= c && c <= 0x7e {
            push_char(&mut out, c as char);
        } else {
            push_char(&mut out, '.');
        }
        i = i + 1;
        assert(out@ =~= printable_bytes(b@.take(i as int)));
    }
    assert(b@.take(b@.len() as int) =~= b@);
    out
}

/// The positions of the records before `n` that count.
pub open spec fn counted(raw: Seq<RawRecord>, n: int) -> Seq<int>
    decreases n,
{
    if n <= 0 {
        Seq::empty()
    } else if counted_kind(raw[n - 1].kind) is Some {
        counted(raw, n - 1).push(n - 1)
    } else {
        counted(raw, n - 1)
    }
}

/// The uptime of a record; 0 where it does not hold one.
pub open spec fn uptime_of(raw: RawRecord) -> u64 {
    match raw.uptime_cs {
        Some(u) => u,
        None => 0,
    }
}

/// Whether `rec` is what counts of `raw`.
pub open spec fn stands_for(rec: Rec, raw: RawRecord, followed: Seq<ActivityId>) -> bool {
    &&& counted_kind(raw.kind) == Some(rec.kind)
    &&& rec.time == raw.time
    &&& rec.uptime_cs == uptime_of(raw)
    &&& rec.cpu_count == raw.cpu_count
    &&& rec.in_range == raw.in_range
    &&& rec.past_end == raw.past_end
    &&& match rec.comment {
        Some(t) => rec.kind == RecKind::Comment && t@ == (match raw.comment {
            Some(c) => printable_bytes(c@),
            None => Seq::empty(),
        }),
        None => rec.kind != RecKind::Comment,
    }
    &&& rec.nrs@ == if rec.kind == RecKind::Stats {
        Seq::new(followed.len(), |i: int| count_in(raw.slices@, followed[i]))
    } else {
        Seq::empty()
    }
}

/// The header of a record.
pub open spec fn header_of(raw: RawRecord) -> RecHeader {
    RecHeader { uptime_cs: uptime_of(raw), time: raw.time, record_type: type_number(raw.kind) }
}

/// The records of a file: those that count, and the headers of all of them where `debug` is
/// set.
pub open spec fn indexes(
    index: RecordIndex,
    raw: Seq<RawRecord>,
    followed: Seq<ActivityId>,
    debug: bool,
    n: int,
) -> bool {
    &&& index.recs@.len() == counted(raw, n).len()
    &&& forall|i: int|
        0 <= i < index.recs@.len() ==> stands_for(
            #[trigger] index.recs@[i],
            raw[counted(raw, n)[i]],
            followed,
        )
    &&& match index.debug {
        None => !debug,
        Some(d) => {
            &&& debug
            &&& d.headers@ == Seq::new(n as nat, |i: int| header_of(raw[i]))
            &&& d.own@.len() == counted(raw, n).len()
            &&& forall|i: int| 0 <= i < d.own@.len() ==> #[trigger] d.own@[i] == counted(raw, n)[i]
        },
    }
}

fn make_rec(raw: &RawRecord, kind: RecKind, followed: &Vec<ActivityId>) -> (r: Rec)
    requires
        counted_kind(raw.kind) == Some(kind),
    ensures
        stands_for(r, *raw, followed@),
{
    let uptime_cs: u64 = match raw.uptime_cs {
        Some(u) => u,
        None => 0,
    };
    let comment = if kind == RecKind::Comment {
        Some(
            match &raw.comment {
                Some(c) => printable(c),
                None => String::new(),
            },
        )
    } else {
        None
    };
    let mut nrs: Vec<u32> = Vec::new();
    if kind == RecKind::Stats {
        let mut k: usize = 0;
        while k < followed.len()
            invariant
                k <= followed.len(),
                nrs@.len() == k,
                forall|i: int|
                    0 <= i < k ==> #[trigger] nrs@[i] == count_in(raw.slices@, followed@[i]),
            decreases followed.len() - k,
        {
            nrs.push(count_of(&raw.slices, followed[k]));
            k = k + 1;
        }
    }
    let r = Rec {
        kind,
        time: raw.time,
        uptime_cs,
        cpu_count: raw.cpu_count,
        comment,
        in_range: raw.in_range,
        past_end: raw.past_end,
        nrs,
    };
    assert(r.nrs@ =~= if r.kind == RecKind::Stats {
        Seq::new(followed@.len(), |i: int| count_in(raw.slices@, followed@[i]))
    } else {
        Seq::empty()
    });
    r
}

impl RecordIndex {
    /// The records of a file. The headers are kept where `debug` is set.
    pub fn build(raw: &Vec<RawRecord>, followed: &Vec<ActivityId>, debug: bool) -> (r: Self)
        ensures
            indexes(r, raw@, followed@, debug, raw@.len() as int),
    {
        let mut recs: Vec<Rec> = Vec::new();
        let mut headers: Vec<RecHeader> = Vec::new();
        let mut own: Vec<usize> = Vec::new();
        let mut n: usize = 0;
        while n < raw.len()
            invariant
                n <= raw.len(),
                recs@.len() == counted(raw@, n as int).len(),
                forall|i: int|
                    0 <= i < recs@.len() ==> stands_for(
                        #[trigger] recs@[i],
                        raw@[counted(raw@, n as int)[i]],
                        followed@,
                    ),
                headers@.len() == n,
                forall|i: int| 0 <= i < n ==> #[trigger] headers@[i] == header_of(raw@[i]),
                own@.len() == recs@.len(),
                forall|i: int|
                    0 <= i < own@.len() ==> #[trigger] own@[i] == counted(raw@, n as int)[i],
            decreases raw.len() - n,
        {
            let r = &raw[n];
            let uptime_cs: u64 = match r.uptime_cs {
                Some(u) => u,
                None => 0,
            };
            headers.push(
                RecHeader { uptime_cs, time: r.time, record_type: raw_record_type(r.kind) },
            );
            if let Some(kind) = rec_kind(r.kind) {
                own.push(n);
                recs.push(make_rec(r, kind, followed));
            }
            n = n + 1;
        }
        assert(headers@ =~= Seq::new(n as nat, |i: int| header_of(raw@[i])));
        let debug = if debug {
            Some(DebugIndex { headers, own })
        } else {
            None
        };
        RecordIndex { recs, debug }
    }

    /// The number of records that count.
    pub fn len(&self) -> (r: usize)
        ensures
            r == self.recs@.len(),
    {
        self.recs.len()
    }

    /// The first restart from the record `from` on; the number of records where there is none.
    pub fn next_restart(&self, from: usize) -> (r: usize)
        ensures
            r == restart_from(self.recs@, from as int),
            r <= self.recs@.len(),
            from <= self.recs@.len() ==> from <= r,
    {
        let mut k: usize = from;
        if from >= self.recs.len() {
            return self.recs.len();
        }
        while k < self.recs.len()
            invariant
                from <= k <= self.recs.len(),
                restart_from(self.recs@, from as int) == restart_from(self.recs@, k as int),
            decreases self.recs.len() - k,
        {
            if self.recs[k].kind == RecKind::Restart {
                return k;
            }
            k = k + 1;
        }
        k
    }

    /// The headers that are read with the record `at`: from after that of the record before
    /// to its own. With the number of records, the headers at the end of the file.
    pub fn headers_for(&self, at: usize) -> (r: (usize, usize))
        ensures
            r.0 == header_range(*self, at as int).0,
            r.1 == header_range(*self, at as int).1,
            r.0 <= r.1,
            r.1 <= header_list(*self).len(),
    {
        match &self.debug {
            None => (0, 0),
            Some(d) => {
                let n: usize = d.headers.len();
                let start: usize = if at == 0 {
                    0
                } else if at - 1 < d.own.len() {
                    let p: usize = d.own[at - 1];
                    if p < n {
                        p + 1
                    } else {
                        n
                    }
                } else {
                    n
                };
                let end: usize = if at < d.own.len() {
                    let p: usize = d.own[at];
                    if p < n {
                        p + 1
                    } else {
                        n
                    }
                } else {
                    n
                };
                if start <= end {
                    (start, end)
                } else {
                    (0, 0)
                }
            },
        }
    }
}

/// The first restart from the record `from` on; the number of records where there is none.
pub open spec fn restart_from(recs: Seq<Rec>, from: int) -> int
    decreases recs.len() - from,
{
    if from >= recs.len() {
        recs.len() as int
    } else if from >= 0 && recs[from].kind == RecKind::Restart {
        from
    } else {
        restart_from(recs, from + 1)
    }
}

/// The headers of a file, where they are kept.
pub open spec fn header_list(index: RecordIndex) -> Seq<RecHeader> {
    match index.debug {
        Some(d) => d.headers@,
        None => Seq::empty(),
    }
}

/// The position after the header of the record `i`; the end where there is no such record.
pub open spec fn after_own(d: DebugIndex, i: int) -> int {
    if i < 0 {
        0
    } else if i < d.own@.len() && d.own@[i] < d.headers@.len() {
        d.own@[i] + 1
    } else {
        d.headers@.len() as int
    }
}

/// The headers that are read with the record `at`.
pub open spec fn header_range(index: RecordIndex, at: int) -> (int, int) {
    match index.debug {
        None => (0, 0),
        Some(d) => {
            let start = after_own(d, at - 1);
            let end = after_own(d, at);
            if start <= end {
                (start, end)
            } else {
                (0, 0)
            }
        },
    }
}

/// The number of CPUs that is in force: that of the last restart that had one, else that of
/// the file.
#[derive(Clone, Copy, PartialEq, Eq, Structural, Debug)]
pub struct CpuNrTracker {
    pub cpu_nr: Option<u32>,
}

impl CpuNrTracker {
    /// Starts with the number of the file.
    pub fn new(cpu_nr: Option<u32>) -> (r: Self)
        ensures
            r.cpu_nr == cpu_nr,
    {
        CpuNrTracker { cpu_nr }
    }

    /// Takes a restart, and returns the number in force after it.
    pub fn take(&mut self, record: Option<u32>) -> (r: Option<u32>)
        ensures
            r == cpu_nr_after(old(self).cpu_nr, record),
            final(self).cpu_nr == r,
    {
        if record.is_some() {
            self.cpu_nr = record;
        }
        self.cpu_nr
    }
}

/// The number of CPUs in force after a restart.
pub open spec fn cpu_nr_after(before: Option<u32>, record: Option<u32>) -> Option<u32> {
    if record is Some {
        record
    } else {
        before
    }
}

}
