//! How the distance between two samples is measured.

use vstd::prelude::*;

use crate::sadf::select::{effective_interval, slice_taken, slicer_after, slicer_takes, Slicer};
use crate::slice::{in_window, last_seen, masked_span, whole_secs, window_holds};

verus! {

/// Hundredths of a second are rounded to seconds, halves upwards.
pub proof fn law_uptimes_are_rounded(cs: int)
    requires
        0 <= cs,
    ensures
        cs - 50 < 100 * whole_secs(cs) <= cs + 50,
{
}

/// The distance between two uptimes is what was added to the first to get the second, as far as 32
/// bits go.
pub proof fn law_distances_are_counted_forwards(from: int, d: int)
    requires
        0 <= d < 0x1_0000_0000,
    ensures
        masked_span(from, from + d) == d,
{
}

/// The sample before is the one that was last seen, and at the start of a stretch the first one.
pub proof fn law_a_stretch_starts_at_its_first_sample(uptime_ref: u64, last: u64)
    ensures
        last_seen(uptime_ref, true, last) == uptime_ref,
        last != 0 ==> last_seen(uptime_ref, false, last) == last,
        last_seen(uptime_ref, false, 0) == uptime_ref,
{
}

/// With an interval of one second every sample is taken, and without an interval too; with a longer
/// one a sample is taken where its window holds a multiple of the interval.
pub proof fn law_every_sample_is_taken_each_second(
    uptime_ref: u64,
    uptime: u64,
    reset: bool,
    last: u64,
    interval: u64,
)
    ensures
        slice_taken(uptime_ref, uptime, reset, effective_interval(0), last),
        slice_taken(uptime_ref, uptime, reset, effective_interval(1), last),
        interval > 1 ==> effective_interval(interval) == interval,
        interval > 1 ==> (slice_taken(uptime_ref, uptime, reset, interval, last) <==> window_holds(
            whole_secs(masked_span(uptime_ref as int, uptime as int)),
            whole_secs(masked_span(last_seen(uptime_ref, reset, last) as int, uptime as int)),
            interval as int,
        )),
        in_window(uptime_ref, uptime, last, interval as int) == window_holds(
            whole_secs(masked_span(uptime_ref as int, uptime as int)),
            whole_secs(masked_span(last as int, uptime as int)),
            interval as int,
        ),
{
}

/// A sample that was seen is the one that the next is measured from, taken or not.
pub proof fn law_the_next_sample_is_measured_from_the_last(s: Slicer, a: u64, b: u64)
    requires
        a != 0,
        s.interval > 1,
    ensures
        slicer_takes(slicer_after(s, a), b) <==> window_holds(
            whole_secs(masked_span(s.uptime_ref as int, b as int)),
            whole_secs(masked_span(a as int, b as int)),
            s.interval as int,
        ),
{
}

}
