//! The smallest and the largest values of a column, as bit patterns of doubles.

use vstd::prelude::*;

use crate::model::{ComputeIssue, Computed};

verus! {

/// The largest finite double. It stands for a smallest value that has not been set.
pub const LARGEST_BITS: u64 = 0x7fef_ffff_ffff_ffff;

/// The smallest finite double. It stands for a largest value that has not been set.
pub const SMALLEST_BITS: u64 = 0xffef_ffff_ffff_ffff;

/// Whether a bit pattern is not a number.
pub open spec fn is_nan(bits: u64) -> bool {
    bits % 0x8000_0000_0000_0000 > 0x7ff0_0000_0000_0000
}

/// A number that orders bit patterns as the doubles are ordered: the magnitude, negative where
/// the sign bit is set.
pub open spec fn rank(bits: u64) -> int {
    if bits < 0x8000_0000_0000_0000 {
        bits as int
    } else {
        0x8000_0000_0000_0000 - bits
    }
}

/// The smaller of two doubles; the other one where one is not a number.
pub open spec fn smaller(a: u64, b: u64) -> u64 {
    if is_nan(b) {
        a
    } else if is_nan(a) || rank(b) < rank(a) {
        b
    } else {
        a
    }
}

/// The larger of two doubles; the other one where one is not a number.
pub open spec fn larger(a: u64, b: u64) -> u64 {
    if is_nan(b) {
        a
    } else if is_nan(a) || rank(b) > rank(a) {
        b
    } else {
        a
    }
}

fn nan(bits: u64) -> (r: bool)
    ensures
        r == is_nan(bits),
{
    bits % 0x8000_0000_0000_0000 > 0x7ff0_0000_0000_0000
}

fn rank_of(bits: u64) -> (r: i128)
    ensures
        r == rank(bits),
{
    if bits < 0x8000_0000_0000_0000 {
        bits as i128
    } else {
        0x8000_0000_0000_0000 - bits as i128
    }
}

/// The extreme `store` of a column after a value was seen.
pub open spec fn extreme_after(store: Seq<u64>, values: Seq<Computed>, low: bool, i: int) -> u64 {
    let unset = if low {
        LARGEST_BITS
    } else {
        SMALLEST_BITS
    };
    let old_value = if i < store.len() {
        store[i]
    } else {
        unset
    };
    if i < values.len() {
        match values[i] {
            Ok(v) => if low {
                smaller(old_value, v)
            } else {
                larger(old_value, v)
            },
            Err(_) => old_value,
        }
    } else {
        old_value
    }
}

/// The extremes after the values of a line were seen.
pub open spec fn extremes_after(store: Seq<u64>, values: Seq<Computed>, low: bool) -> Seq<u64> {
    Seq::new(
        if store.len() < values.len() {
            values.len()
        } else {
            store.len()
        },
        |i: int| extreme_after(store, values, low, i),
    )
}

/// Takes the values of a line into account.
pub fn update_extremes(store: &Vec<u64>, values: &Vec<Computed>, low: bool) -> (r: Vec<u64>)
    ensures
        r@ == extremes_after(store@, values@, low),
{
    let n: usize = if store.len() < values.len() {
        values.len()
    } else {
        store.len()
    };
    let mut out: Vec<u64> = Vec::new();
    let mut i: usize = 0;
    while i < n
        invariant
            i <= n,
            store@.len() <= n,
            values@.len() <= n,
            n == store@.len() || n == values@.len(),
            out@.len() == i,
            forall|k: int|
                0 <= k < i ==> #[trigger] out@[k] == extreme_after(store@, values@, low, k),
        decreases n - i,
    {
        let seen: u64 = if i < store.len() {
            store[i]
        } else if low {
            LARGEST_BITS
        } else {
            SMALLEST_BITS
        };
        let mut next: u64 = seen;
        if i < values.len() {
            if let Ok(v) = values[i] {
                if !nan(v) {
                    let better = if low {
                        rank_of(v) < rank_of(seen)
                    } else {
                        rank_of(v) > rank_of(seen)
                    };
                    if nan(seen) || better {
                        next = v;
                    }
                }
            }
        }
        out.push(next);
        i = i + 1;
    }
    assert(out@ =~= extremes_after(store@, values@, low));
    out
}

/// Whether some smallest value has been set.
pub open spec fn any_set(min: Seq<u64>) -> bool {
    exists|i: int| 0 <= i < min.len() && #[trigger] min[i] != LARGEST_BITS
}

/// Whether some smallest value has been set.
pub fn has_extrema(min: &Vec<u64>) -> (r: bool)
    ensures
        r == any_set(min@),
{
    let mut i: usize = 0;
    while i < min.len()
        invariant
            i <= min.len(),
            forall|k: int| 0 <= k < i ==> #[trigger] min@[k] == LARGEST_BITS,
        decreases min.len() - i,
    {
        if min[i] != LARGEST_BITS {
            assert(min@[i as int] != LARGEST_BITS);
            return true;
        }
        i = i + 1;
    }
    false
}

/// The extremes of `len` columns. One that has never been set is not known.
pub open spec fn extremes_shown(store: Seq<u64>, len: int, unset: u64) -> Seq<Computed> {
    Seq::new(
        len as nat,
        |i: int|
            if i < store.len() && store[i] != unset {
                Ok::<u64, ComputeIssue>(store[i])
            } else {
                Err::<u64, ComputeIssue>(ComputeIssue::MissingInSample)
            },
    )
}

/// The extremes of `len` columns.
pub fn extrema_values(store: &Vec<u64>, len: usize, unset: u64) -> (r: Vec<Computed>)
    ensures
        r@ == extremes_shown(store@, len as int, unset),
{
    let mut out: Vec<Computed> = Vec::new();
    let mut i: usize = 0;
    while i < len
        invariant
            i <= len,
            out@ == extremes_shown(store@, i as int, unset),
        decreases len - i,
    {
        let ghost before = out@;
        if i < store.len() && store[i] != unset {
            out.push(Ok(store[i]));
        } else {
            out.push(Err(ComputeIssue::MissingInSample));
        }
        i = i + 1;
        assert(out@ =~= extremes_shown(store@, i as int, unset));
    }
    out
}

/// The extremes after the first `n` lines were seen.
pub open spec fn extremes_of(lines: Seq<Seq<Computed>>, low: bool, n: int) -> Seq<u64>
    decreases n,
{
    if n <= 0 {
        Seq::empty()
    } else {
        extremes_after(extremes_of(lines, low, n - 1), lines[n - 1], low)
    }
}

/// Whether one of the first `n` lines has this value in the column `i`.
pub open spec fn was_seen(lines: Seq<Seq<Computed>>, n: int, i: int, bits: u64) -> bool {
    exists|k: int|
        0 <= k < n && i < (#[trigger] lines[k]).len() && lines[k][i] == Ok::<u64, ComputeIssue>(bits)
}

/// Over all the lines of a block, the smallest value of a column is not more than any number
/// that was seen in it, and the largest is not less; and each is one of the values seen, or has
/// not been set.
pub proof fn law_extremes_bound_the_values(lines: Seq<Seq<Computed>>, n: int, i: int)
    requires
        0 <= n <= lines.len(),
        0 <= i,
    ensures
        forall|bits: u64|
            #[trigger] was_seen(lines, n, i, bits) && !is_nan(bits) ==> {
                &&& i < extremes_of(lines, true, n).len()
                &&& i < extremes_of(lines, false, n).len()
                &&& rank(extremes_of(lines, true, n)[i]) <= rank(bits)
                &&& rank(extremes_of(lines, false, n)[i]) >= rank(bits)
            },
        i < extremes_of(lines, true, n).len() ==> extremes_of(lines, true, n)[i] == LARGEST_BITS
            || was_seen(lines, n, i, extremes_of(lines, true, n)[i]),
        i < extremes_of(lines, false, n).len() ==> extremes_of(lines, false, n)[i] == SMALLEST_BITS
            || was_seen(lines, n, i, extremes_of(lines, false, n)[i]),
    decreases n,
{
    if n > 0 {
        law_extremes_bound_the_values(lines, n - 1, i);
        lemma_extremes_are_numbers(lines, true, n - 1, i);
        lemma_extremes_are_numbers(lines, false, n - 1, i);
        let line = lines[n - 1];
        assert forall|bits: u64| was_seen(lines, n - 1, i, bits) implies #[trigger] was_seen(
            lines,
            n,
            i,
            bits,
        ) by {
            let k = choose|k: int|
                0 <= k < n - 1 && i < (#[trigger] lines[k]).len() && lines[k][i] == Ok::<
                    u64,
                    ComputeIssue,
                >(bits);
            assert(0 <= k < n && i < lines[k].len());
        }
        assert forall|bits: u64|
            #[trigger] was_seen(lines, n, i, bits) && !is_nan(bits) implies {
            &&& i < extremes_of(lines, true, n).len()
            &&& i < extremes_of(lines, false, n).len()
            &&& rank(extremes_of(lines, true, n)[i]) <= rank(bits)
            &&& rank(extremes_of(lines, false, n)[i]) >= rank(bits)
        } by {
            let k = choose|k: int|
                0 <= k < n && i < (#[trigger] lines[k]).len() && lines[k][i] == Ok::<
                    u64,
                    ComputeIssue,
                >(bits);
            if k < n - 1 {
                assert(was_seen(lines, n - 1, i, bits));
            }
        }
        if i < line.len() {
            if let Ok(v) = line[i] {
                assert(was_seen(lines, n, i, v));
            }
        }
    }
}

/// An extreme is always a number.
proof fn lemma_extremes_are_numbers(lines: Seq<Seq<Computed>>, low: bool, n: int, i: int)
    requires
        0 <= n <= lines.len(),
        0 <= i,
    ensures
        i < extremes_of(lines, low, n).len() ==> !is_nan(extremes_of(lines, low, n)[i]),
    decreases n,
{
    if n > 0 {
        lemma_extremes_are_numbers(lines, low, n - 1, i);
    }
}

}
