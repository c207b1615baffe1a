//! What the records of the older report hold.

use vstd::prelude::*;

use crate::model::listed;
use crate::sar_el7::options::{bits_set, memory_parts, ones, El7Options};
use crate::sar_el7::records::{before_zero, comment_bytes, uptimes_of, El7Record};
use crate::sar_el7::report::{activity_passes, lines_of, passes_of, El7File, FileActivity};
use crate::sar_el7::rows::MemOutput;

verus! {

proof fn lemma_before_zero(b: Seq<u8>, n: int)
    requires
        0 <= n <= b.len(),
    ensures
        0 <= before_zero(b, n) <= n,
        forall|i: int| 0 <= i < before_zero(b, n) ==> #[trigger] b[i] != 0,
        before_zero(b, n) < n ==> b[before_zero(b, n)] == 0,
    decreases n,
{
    if n > 0 {
        lemma_before_zero(b, n - 1);
    }
}

/// A comment is what stands before the first zero among its first 63 bytes, or all of these.
pub proof fn law_comments_end_at_the_first_zero(b: Seq<u8>)
    ensures
        comment_bytes(b).is_prefix_of(b),
        comment_bytes(b).len() <= 63,
        forall|i: int| 0 <= i < comment_bytes(b).len() ==> #[trigger] comment_bytes(b)[i] != 0,
        comment_bytes(b).len() < 63 && comment_bytes(b).len() < b.len() ==> b[comment_bytes(
            b,
        ).len() as int] == 0,
{
    let n = if b.len() < 63 {
        b.len() as int
    } else {
        63
    };
    lemma_before_zero(b, n);
    assert(b.take(comment_bytes(b).len() as int) =~= comment_bytes(b));
}

/// A set of bits has as many numbers as bits: none is in the empty set, each bit adds one, and a
/// shift adds none.
pub proof fn law_bits_are_counted(b: nat, s: Seq<u8>, x: u8)
    ensures
        ones(0) == 0,
        ones(2 * b) == ones(b),
        ones(2 * b + 1) == ones(b) + 1,
        bits_set(Seq::empty()) == 0,
        bits_set(s.push(x)) == bits_set(s) + ones(x as nat),
{
    assert((2 * b) / 2 == b && (2 * b) % 2 == 0);
    assert((2 * b + 1) / 2 == b && (2 * b + 1) % 2 == 1);
    assert(s.push(x).drop_last() =~= s);
}

/// The memory report has the parts asked for: the changes, then the amounts, then the swap space.
pub proof fn law_memory_has_the_parts_asked_for(o: El7Options)
    ensures
        memory_parts(o).contains(MemOutput::Dia) == o.mem_dia,
        memory_parts(o).contains(MemOutput::Amt) == o.mem_amt,
        memory_parts(o).contains(MemOutput::Swap) == o.mem_swap,
        o.mem_dia ==> memory_parts(o)[0] == MemOutput::Dia,
        o.mem_swap ==> memory_parts(o).last() == MemOutput::Swap,
{
    let p = memory_parts(o);
    if o.mem_dia {
        assert(p[0] == MemOutput::Dia);
    }
    if o.mem_amt {
        assert(p[if o.mem_dia {
            1int
        } else {
            0
        }] == MemOutput::Amt);
    }
    if o.mem_swap {
        assert(p[p.len() - 1] == MemOutput::Swap);
    }
}

/// The uptimes of a record are those that it holds; without those of both kinds, the one in
/// hundredths of a second is that of the first CPU.
pub proof fn law_uptimes_are_those_of_the_record(raw: El7Record)
    ensures
        raw.uptime_jiffies matches Some(u) ==> uptimes_of(raw) == u,
        raw.uptime_jiffies is None && raw.uptime_cs is Some ==> uptimes_of(raw).1
            == raw.uptime_cs->0 && uptimes_of(raw).0 == 0,
        raw.uptime_jiffies is None && raw.uptime_cs is None ==> uptimes_of(raw) == (0u64, 0u64),
{
}

proof fn lemma_passes(acts: Seq<FileActivity>, o: El7Options, n: int, k: int)
    requires
        0 <= n <= acts.len(),
        0 <= k < passes_of(acts, o, n).len(),
    ensures
        exists|i: int|
            0 <= i < n && (#[trigger] acts[i]).readable && listed(o.activities@, acts[i].id)
                && passes_of(acts, o, n)[k].id == acts[i].id && passes_of(acts, o, n)[k].inc
                == lines_of(acts[i], o),
    decreases n,
{
    let all = passes_of(acts, o, n);
    let before = passes_of(acts, o, n - 1);
    if k < before.len() {
        lemma_passes(acts, o, n - 1, k);
        assert(all[k] == before[k]);
        let i = choose|i: int|
            0 <= i < n - 1 && (#[trigger] acts[i]).readable && listed(o.activities@, acts[i].id)
                && before[k].id == acts[i].id && before[k].inc == lines_of(acts[i], o);
        assert(acts[i].readable);
    } else {
        let here = activity_passes(acts[n - 1], o);
        assert(all[k] == here[k - before.len()]);
        assert(acts[n - 1].readable);
    }
}

/// Each pass is over an activity that was asked for and can be read, and counts as many lines as
/// that activity has.
pub proof fn law_passes_are_over_the_activities_asked_for(f: El7File, o: El7Options, k: int)
    requires
        0 <= k < passes_of(f.activities@, o, f.activities@.len() as int).len(),
    ensures
        exists|i: int|
            0 <= i < f.activities@.len() && (#[trigger] f.activities@[i]).readable && listed(
                o.activities@,
                f.activities@[i].id,
            ) && passes_of(f.activities@, o, f.activities@.len() as int)[k].id == f.activities@[i].id
                && passes_of(f.activities@, o, f.activities@.len() as int)[k].inc == lines_of(
                f.activities@[i],
                o,
            ),
{
    lemma_passes(f.activities@, o, f.activities@.len() as int, k);
}

}
