//! The records of a file, as far as a report needs them.

use vstd::prelude::*;

use crate::clock::RecordTime;
use crate::model::ActivityId;
use crate::sadf::records::RecordKind;
use crate::sar_el7::report::{Kind, Rec};

verus! {

/// A record of a file.
#[derive(Debug)]
pub struct El7Record {
    pub kind: RecordKind,
    pub time: RecordTime,
    /// The jiffies of all CPUs together and of one CPU, where the record counts in jiffies.
    pub uptime_jiffies: Option<(u64, u64)>,
    /// The uptime in hundredths of a second, where the record holds it.
    pub uptime_cs: Option<u64>,
    /// The bytes of a comment.
    pub comment: Option<Vec<u8>>,
    /// The activities that cannot be read at the record.
    pub unplanned: Vec<ActivityId>,
}

/// What a record counts as; `None` for one that does not count.
pub open spec fn kind_of(kind: RecordKind) -> Option<Kind> {
    match kind {
        RecordKind::Restart => Some(Kind::Restart),
        RecordKind::Comment => Some(Kind::Comment),
        RecordKind::Extra(_) => None,
        RecordKind::Invalid(_) => None,
        _ => Some(Kind::Stats),
    }
}

/// The positions of the records before `n` that count.
pub open spec fn counting(raw: Seq<El7Record>, n: int) -> Seq<int>
    decreases n,
{
    if n <= 0 {
        Seq::empty()
    } else if kind_of(raw[n - 1].kind) is Some {
        counting(raw, n - 1).push(n - 1)
    } else {
        counting(raw, n - 1)
    }
}

/// The uptimes of a record: jiffies, or hundredths of a second of one CPU.
pub open spec fn uptimes_of(raw: El7Record) -> (u64, u64) {
    match raw.uptime_jiffies {
        Some(u) => u,
        None => match raw.uptime_cs {
            Some(cs) => (0, cs),
            None => (0, 0),
        },
    }
}

/// The most bytes that a comment has.
pub const COMMENT_LIMIT: usize = 63;

/// How many of the first `n` bytes come before the first zero byte.
pub open spec fn before_zero(b: Seq<u8>, n: int) -> int
    decreases n,
{
    if n <= 0 {
        0
    } else if before_zero(b, n - 1) < n - 1 || b[n - 1] == 0 {
        before_zero(b, n - 1)
    } else {
        n
    }
}

/// The text of a comment: what comes before a zero byte, cut off at the limit.
pub open spec fn comment_bytes(b: Seq<u8>) -> Seq<u8> {
    b.take(
        before_zero(
            b,
            if b.len() < COMMENT_LIMIT {
                b.len() as int
            } else {
                COMMENT_LIMIT as int
            },
        ),
    )
}

/// Whether `rec` is what counts of `raw`.
pub open spec fn stands_for(rec: Rec, raw: El7Record) -> bool {
    &&& kind_of(raw.kind) == Some(rec.kind)
    &&& rec.time == raw.time
    &&& (rec.uptime, rec.uptime0) == uptimes_of(raw)
    &&& rec.unplanned@ == raw.unplanned@
    &&& rec.comment@ == (match raw.comment {
        Some(c) => comment_bytes(c@),
        None => Seq::empty(),
    })
}

fn count_kind(kind: RecordKind) -> (r: Option<Kind>)
    ensures
        r == kind_of(kind),
{
    match kind {
        RecordKind::Restart => Some(Kind::Restart),
        RecordKind::Comment => Some(Kind::Comment),
        RecordKind::Extra(_) | RecordKind::Invalid(_) => None,
        _ => Some(Kind::Stats),
    }
}

proof fn lemma_zero_stays(b: Seq<u8>, k: int, n: int)
    requires
        0 <= k < n <= b.len(),
        before_zero(b, k) == k,
        b[k] == 0,
    ensures
        before_zero(b, n) == k,
    decreases n,
{
    if n > k + 1 {
        lemma_zero_stays(b, k, n - 1);
    }
}

fn comment_text(b: &Vec<u8>) -> (r: Vec<u8>)
    ensures
        r@ == comment_bytes(b@),
{
    let n: usize = if b.len() < COMMENT_LIMIT {
        b.len()
    } else {
        COMMENT_LIMIT
    };
    let mut out: Vec<u8> = Vec::new();
    let mut i: usize = 0;
    while i < n
        invariant
            i <= n <= b@.len(),
            n == (if b@.len() < COMMENT_LIMIT {
                b@.len() as int
            } else {
                COMMENT_LIMIT as int
            }),
            out@ == b@.take(i as int),
            before_zero(b@, i as int) == i,
        decreases n - i,
    {
        if b[i] == 0 {
            proof {
                lemma_zero_stays(b@, i as int, n as int);
            }
            return out;
        }
        out.push(b[i]);
        i = i + 1;
        assert(out@ =~= b@.take(i as int));
    }
    out
}

fn copy_ids(ids: &Vec<ActivityId>) -> (r: Vec<ActivityId>)
    ensures
        r@ == ids@,
{
    let mut out: Vec<ActivityId> = Vec::new();
    let mut i: usize = 0;
    while i < ids.len()
        invariant
            i <= ids.len(),
            out@ == ids@.take(i as int),
        decreases ids.len() - i,
    {
        out.push(ids[i]);
        i = i + 1;
        assert(out@ =~= ids@.take(i as int));
    }
    assert(ids@.take(ids@.len() as int) =~= ids@);
    out
}

/// The records of a file that count, in their order.
pub fn index_records(raw: &Vec<El7Record>) -> (r: Vec<Rec>)
    ensures
        r@.len() == counting(raw@, raw@.len() as int).len(),
        forall|i: int|
            0 <= i < r@.len() ==> stands_for(
                #[trigger] r@[i],
                raw@[counting(raw@, raw@.len() as int)[i]],
            ),
{
    let mut out: Vec<Rec> = Vec::new();
    let mut n: usize = 0;
    while n < raw.len()
        invariant
            n <= raw@.len(),
            out@.len() == counting(raw@, n as int).len(),
            forall|i: int|
                0 <= i < out@.len() ==> stands_for(
                    #[trigger] out@[i],
                    raw@[counting(raw@, n as int)[i]],
                ),
        decreases raw.len() - n,
    {
        let rec = &raw[n];
        if let Some(kind) = count_kind(rec.kind) {
            let (uptime, uptime0) = match rec.uptime_jiffies {
                Some(u) => u,
                None => match rec.uptime_cs {
                    Some(cs) => (0u64, cs),
                    None => (0u64, 0u64),
                },
            };
            let comment: Vec<u8> = match &rec.comment {
                Some(c) => comment_text(c),
                None => Vec::new(),
            };
            let unplanned = copy_ids(&rec.unplanned);
            out.push(Rec { kind, time: rec.time, uptime, uptime0, comment, unplanned });
        }
        n = n + 1;
    }
    out
}

}
