//! Which samples of a file are close enough to a multiple of the interval that was asked for.

use vstd::prelude::*;

verus! {

/// A C `unsigned long` cut down to an `int`.
pub open spec fn c_int(n: int) -> int {
    let low = n % 0x1_0000_0000;
    if low >= 0x8000_0000 {
        low - 0x1_0000_0000
    } else {
        low
    }
}

/// The time between two uptimes, of which only the low 32 bits count.
pub open spec fn masked_span(from: int, to: int) -> int {
    (to - from) % 0x1_0000_0000
}

/// Hundredths of a second in seconds, a half rounded up.
pub open spec fn whole_secs(cs: int) -> int {
    cs / 100 + if cs % 100 >= 50 {
        1int
    } else {
        0int
    }
}

/// Whether the window of the sample that lies `entry` seconds after the reference, in a file
/// with a sample each `gap` seconds, holds the multiple of `interval` below or above `entry`,
/// as C computes it.
pub open spec fn window_holds(entry: int, gap: int, interval: int) -> bool {
    let low = entry - gap / 2;
    let high = entry + gap / 2 + gap % 2;
    let below = c_int((entry / interval) * interval);
    let above = c_int((entry / interval + 1) * interval);
    (low <= below < high) || (low <= above < high)
}

/// The uptime that a sample is compared with: that of the sample before it, or that of the
/// reference at the start.
pub open spec fn last_seen(uptime_ref: u64, reset: bool, last: u64) -> u64 {
    if last == 0 || reset {
        uptime_ref
    } else {
        last
    }
}

/// Whether the sample at `uptime` is in the window of a multiple of `interval`.
pub open spec fn in_window(uptime_ref: u64, uptime: u64, last: u64, interval: int) -> bool {
    window_holds(
        whole_secs(masked_span(uptime_ref as int, uptime as int)),
        whole_secs(masked_span(last as int, uptime as int)),
        interval,
    )
}

proof fn lemma_mul_step(q: int, n: int)
    ensures
        (q + 1) * n == q * n + n,
{
    assert((q + 1) * n == q * n + n) by (nonlinear_arith);
}

/// A multiple of `n` that is at most `e` is at most the largest such, and a multiple above
/// `e` is at least the next one.
proof fn lemma_multiples(e: int, n: int, k: int)
    requires
        0 <= e,
        0 < n,
    ensures
        (e / n) * n <= e < (e / n + 1) * n,
        0 <= e / n,
        k * n <= e ==> k * n <= (e / n) * n,
        k * n > e ==> k * n >= (e / n + 1) * n,
{
    let q = e / n;
    assert(q * n <= e && e < q * n + n && 0 <= q) by (nonlinear_arith)
        requires
            0 <= e,
            0 < n,
            q == e / n,
    ;
    lemma_mul_step(q, n);
    if k * n <= e {
        assert(k <= q) by (nonlinear_arith)
            requires
                k * n <= e,
                e < q * n + n,
                0 < n,
        ;
        assert(k * n <= q * n) by (nonlinear_arith)
            requires
                k <= q,
                0 < n,
        ;
    } else {
        assert(k >= q + 1) by (nonlinear_arith)
            requires
                k * n > e,
                q * n <= e,
                0 < n,
        ;
        assert(k * n >= (q + 1) * n) by (nonlinear_arith)
            requires
                k >= q + 1,
                0 < n,
        ;
    }
}

/// A sample is in the window exactly if some multiple of the interval lies between half a file
/// interval before it and half a file interval after it. It may be otherwise only where the
/// next multiple does not fit a C `int` and what is left of it falls into the window.
pub proof fn law_window_holds_a_multiple(entry: int, gap: int, interval: int)
    requires
        0 <= entry < 0x8000_0000,
        0 <= gap,
        0 < interval,
        ({
            let above = (entry / interval + 1) * interval;
            c_int(above) == above || !(entry - gap / 2 <= c_int(above) < entry + gap / 2 + gap % 2
                || entry - gap / 2 <= above < entry + gap / 2 + gap % 2)
        }),
    ensures
        window_holds(entry, gap, interval) <==> exists|k: int|
            entry - gap / 2 <= #[trigger] (k * interval) < entry + gap / 2 + gap % 2,
{
    let low = entry - gap / 2;
    let high = entry + gap / 2 + gap % 2;
    let q = entry / interval;
    lemma_multiples(entry, interval, q);
    assert(0 <= q * interval) by (nonlinear_arith)
        requires
            0 <= q,
            0 < interval,
    ;
    assert(c_int(q * interval) == q * interval);
    if window_holds(entry, gap, interval) {
        assert(low <= q * interval < high || low <= (q + 1) * interval < high);
    }
    if exists|k: int| low <= #[trigger] (k * interval) < high {
        let k = choose|k: int| low <= #[trigger] (k * interval) < high;
        lemma_multiples(entry, interval, k);
    }
}

/// `cs` hundredths of a second in seconds, a half rounded up.
fn round_secs(cs: u64) -> (r: u64)
    requires
        cs < 0x1_0000_0000,
    ensures
        r == whole_secs(cs as int),
        r <= 42_949_673,
{
    if cs % 100 >= 50 {
        cs / 100 + 1
    } else {
        cs / 100
    }
}

fn low_span(from: u64, to: u64) -> (r: u64)
    ensures
        r == masked_span(from as int, to as int),
        r < 0x1_0000_0000,
{
    to.wrapping_sub(from) % 0x1_0000_0000
}

fn to_c_int(n: u64) -> (r: i64)
    ensures
        r == c_int(n as int),
{
    let low: u64 = n % 0x1_0000_0000;
    if low >= 0x8000_0000 {
        low as i64 - 0x1_0000_0000
    } else {
        low as i64
    }
}

/// Whether the sample at `uptime` is in the window of a multiple of `interval`.
pub fn is_in_window(uptime_ref: u64, uptime: u64, last: u64, interval: u64) -> (r: bool)
    requires
        interval >= 1,
    ensures
        r == in_window(uptime_ref, uptime, last, interval as int),
{
    let gap: u64 = round_secs(low_span(last, uptime));
    let entry: u64 = round_secs(low_span(uptime_ref, uptime));
    let low: i64 = entry as i64 - (gap / 2) as i64;
    let high: i64 = (entry + gap / 2 + gap % 2) as i64;
    let q: u64 = entry / interval;
    proof {
        lemma_multiples(entry as int, interval as int, 0);
        lemma_mul_step(q as int, interval as int);
        if interval > entry {
            assert(q == 0) by (nonlinear_arith)
                requires
                    q == entry as int / interval as int,
                    interval > entry,
                    entry >= 0,
            ;
        }
    }
    let below: u64 = q * interval;
    let above: u64 = if interval > entry {
        interval
    } else {
        below + interval
    };
    let p: i64 = to_c_int(below);
    let n: i64 = to_c_int(above);
    (low <= p && p < high) || (low <= n && n < high)
}

}
