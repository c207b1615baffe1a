//! Selection of samples by interval and count.

use vstd::prelude::*;

use crate::slice::{in_window, is_in_window, last_seen};

verus! {

/// Which samples are shown: each that is close to a multiple of `interval`, and at most
/// `count` of them between two restarts.
#[derive(Clone, Copy, PartialEq, Eq, Structural, Debug)]
pub struct RecordSelect {
    /// The interval in seconds. 1 takes every sample; 0 counts as 1.
    pub interval: u64,
    /// The most samples that are shown between two restarts; without it, all.
    pub count: Option<u64>,
}

/// Every sample is shown.
pub open spec fn every_record() -> RecordSelect {
    RecordSelect { interval: 1, count: None }
}

impl Default for RecordSelect {
    fn default() -> (r: Self)
        ensures
            r == every_record(),
    {
        RecordSelect { interval: 1, count: None }
    }
}

/// The interval in force: 0 counts as 1.
pub open spec fn effective_interval(interval: u64) -> u64 {
    if interval == 0 {
        1
    } else {
        interval
    }
}

impl RecordSelect {
    /// The interval in force.
    pub fn interval(self) -> (r: u64)
        ensures
            r == effective_interval(self.interval),
    {
        if self.interval == 0 {
            1
        } else {
            self.interval
        }
    }

    /// Whether every sample is taken.
    pub fn selects_every_record(self) -> (r: bool)
        ensures
            r == (self.interval <= 1),
    {
        self.interval() == 1
    }
}

/// Whether the sample at `uptime` is shown.
pub open spec fn slice_taken(
    uptime_ref: u64,
    uptime: u64,
    reset: bool,
    interval: u64,
    last: u64,
) -> bool {
    interval == 1 || in_window(
        uptime_ref,
        uptime,
        last_seen(uptime_ref, reset, last),
        interval as int,
    )
}

/// Whether the sample at `uptime` is shown. `last_uptime` is the uptime of the sample before
/// it, shown or not.
pub fn next_slice(
    uptime_ref: u64,
    uptime: u64,
    reset: bool,
    interval: u64,
    last_uptime: &mut u64,
) -> (r: bool)
    requires
        interval >= 1,
    ensures
        r == slice_taken(uptime_ref, uptime, reset, interval, *old(last_uptime)),
        *final(last_uptime) == uptime,
{
    let last: u64 = if *last_uptime == 0 || reset {
        uptime_ref
    } else {
        *last_uptime
    };
    *last_uptime = uptime;
    if interval == 1 {
        return true;
    }
    is_in_window(uptime_ref, uptime, last, interval)
}

/// The selection within one stretch between two restarts.
#[derive(Clone, Copy, PartialEq, Eq, Structural, Debug)]
pub struct Slicer {
    pub interval: u64,
    /// The uptime of the reference sample, which is not shown itself.
    pub uptime_ref: u64,
    pub last_uptime: u64,
    pub reset: bool,
}

/// The selection at the reference sample.
pub open spec fn slicer_at(select: RecordSelect, uptime_ref: u64) -> Slicer {
    Slicer {
        interval: effective_interval(select.interval),
        uptime_ref,
        last_uptime: 0,
        reset: true,
    }
}

/// The selection after a later sample.
pub open spec fn slicer_after(s: Slicer, uptime_cs: u64) -> Slicer {
    Slicer { last_uptime: uptime_cs, reset: false, ..s }
}

/// Whether a later sample is shown.
pub open spec fn slicer_takes(s: Slicer, uptime_cs: u64) -> bool {
    slice_taken(s.uptime_ref, uptime_cs, s.reset, s.interval, s.last_uptime)
}

impl Slicer {
    /// Starts at the reference sample.
    pub fn new(select: RecordSelect, uptime_ref: u64) -> (r: Self)
        ensures
            r == slicer_at(select, uptime_ref),
    {
        Slicer { interval: select.interval(), uptime_ref, last_uptime: 0, reset: true }
    }

    /// Whether the sample at `uptime_cs`, which comes after the reference, is shown.
    pub fn takes(&mut self, uptime_cs: u64) -> (r: bool)
        requires
            old(self).interval >= 1,
        ensures
            r == slicer_takes(*old(self), uptime_cs),
            *final(self) == slicer_after(*old(self), uptime_cs),
    {
        let mut last: u64 = self.last_uptime;
        let taken = next_slice(self.uptime_ref, uptime_cs, self.reset, self.interval, &mut last);
        self.last_uptime = last;
        self.reset = false;
        taken
    }
}

}
