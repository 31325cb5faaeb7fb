//! An absolute point in time ("when").

use vstd::prelude::*;

use crate::timecode::Timecode;
use crate::timespan::Timespan;

verus! {

/// Relies on std::time::SystemTime: reads the live wall clock as the
/// duration elapsed since the Unix epoch. Aborts the process if the clock
/// reads before the epoch, the fatal policy this strategy demands; nothing
/// more is promised of a clock sample.
#[verifier::external_body]
fn clock_since_epoch() -> std::time::Duration {
    std::time::SystemTime::now()
        .duration_since(std::time::SystemTime::UNIX_EPOCH)
        .expect("SystemTime before UNIX EPOCH!")
}

/// An absolute point in time, measured as wall-clock time elapsed since the
/// Unix epoch: a thin wrapper around the fixed-point `Timecode` it delegates
/// all storage and conversion to. Two points are comparable whenever both
/// were measured against that same epoch.
#[derive(Debug, Clone, Copy, PartialEq, Eq, PartialOrd, Ord, Structural)]
pub struct Timepoint {
    pub time: Timecode,
}

impl Timepoint {
    /// Wraps a fixed-point time quantity as a point in time.
    pub fn new(time: Timecode) -> (r: Timepoint)
        ensures
            r.time == time,
    {
        Timepoint { time }
    }

    /// Builds a point from a total nanosecond count since the epoch,
    /// normalized.
    pub fn new_ns(ns: u128) -> (r: Timepoint)
        ensures
            r.time.wf(),
            r.time.nanos == ns as int % 1_000_000_000,
            r.time.secs == (ns as int / 1_000_000_000) % 18_446_744_073_709_551_616,
            ns <= 18_446_744_073_709_551_615u128 * 1_000_000_000 + 999_999_999
                ==> r.time.spec_ns() == ns,
    {
        Timepoint { time: Timecode::new_ns(ns) }
    }

    /// The epoch itself.
    pub fn zero() -> (r: Timepoint)
        ensures
            r.time.secs == 0,
            r.time.nanos == 0,
            r.time.wf(),
    {
        Timepoint { time: Timecode::zero() }
    }

    /// Samples the live wall clock: the time elapsed since the Unix epoch.
    /// Fatal (a process abort, not an error) if the clock reads before the
    /// epoch. Points from different processes are comparable, since all are
    /// measured against that one fixed epoch.
    pub fn now() -> (r: Timepoint)
        ensures
            r.time.wf(),
    {
        let sample: std::time::Duration = clock_since_epoch();
        let secs: u64 = sample.as_secs();
        let nanos: u32 = sample.subsec_nanos();
        Timepoint { time: Timecode::new(secs, nanos) }
    }

    /// The point's exact total nanosecond count since the epoch.
    pub fn ns(&self) -> (r: u128)
        ensures
            r == self.time.spec_ns(),
    {
        self.time.ns()
    }

    /// Shifts the point later by a span, through the normalizing fixed-point
    /// addition, so the result keeps the remainder invariant.
    pub fn add(self, rhs: Timespan) -> (r: Timepoint)
        requires
            self.time.wf(),
            rhs.time.wf(),
        ensures
            r.time.wf(),
            r.time.spec_ns() == Timecode::spec_sat_add(self.time.spec_ns(), rhs.time.spec_ns()),
            rhs.time.spec_ns() == 0 ==> r == self,
    {
        Timepoint { time: self.time.add(rhs.time) }
    }

    /// The span between two points: this point minus an earlier one,
    /// saturating at the zero span when `rhs` is the later point.
    pub fn sub(self, rhs: Timepoint) -> (r: Timespan)
        requires
            self.time.wf(),
            rhs.time.wf(),
        ensures
            r.time.wf(),
            r.time.spec_ns() == Timecode::spec_sat_sub(self.time.spec_ns(), rhs.time.spec_ns()),
            rhs.time.spec_ns() == 0 ==> r.time == self.time,
    {
        Timespan::new(self.time.sub(rhs.time))
    }
}

impl From<Timecode> for Timepoint {
    /// Wraps the quantity, exactly as `new` does.
    fn from(time: Timecode) -> (r: Timepoint) {
        Timepoint { time }
    }
}

impl vstd::std_specs::convert::FromSpecImpl<Timecode> for Timepoint {
    open spec fn obeys_from_spec() -> bool {
        true
    }

    open spec fn from_spec(time: Timecode) -> Timepoint {
        Timepoint { time }
    }
}

impl Default for Timepoint {
    /// The same value as `zero`: the epoch itself.
    fn default() -> (r: Timepoint)
        ensures
            r.time.secs == 0,
            r.time.nanos == 0,
            r.time.wf(),
    {
        Timepoint { time: Timecode::zero() }
    }
}

} // verus!
