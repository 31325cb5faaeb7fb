//! A relative elapsed span of time ("how long").

use vstd::prelude::*;

use crate::host::duration_secs;
use crate::host::duration_subsec_nanos;
use crate::timecode::Timecode;
use crate::timepoint::Timepoint;

verus! {

/// A relative elapsed span, always non-negative: a thin wrapper around the
/// fixed-point `Timecode` it delegates all storage and conversion to.
#[derive(Debug, Clone, Copy, PartialEq, Eq, PartialOrd, Ord, Structural)]
pub struct Timespan {
    pub time: Timecode,
}

impl Timespan {
    /// Wraps a fixed-point time quantity as a span.
    pub fn new(time_duration: Timecode) -> (r: Timespan)
        ensures
            r.time == time_duration,
    {
        Timespan { time: time_duration }
    }

    /// The span between two points: `end` minus `start`, saturating at the
    /// zero span when `start` is the later point.
    pub fn new_points(start: Timepoint, end: Timepoint) -> (r: Timespan)
        requires
            start.time.wf(),
            end.time.wf(),
        ensures
            r.time.wf(),
            r.time.spec_ns() == Timecode::spec_sat_sub(end.time.spec_ns(), start.time.spec_ns()),
    {
        end.sub(start)
    }

    /// Builds a span from a total nanosecond count, normalized.
    pub fn new_ns(ns: u128) -> (r: Timespan)
        ensures
            r.time.wf(),
            r.time.nanos == ns as int % 1_000_000_000,
            r.time.secs == (ns as int / 1_000_000_000) % 18_446_744_073_709_551_616,
            ns <= 18_446_744_073_709_551_615u128 * 1_000_000_000 + 999_999_999
                ==> r.time.spec_ns() == ns,
    {
        Timespan { time: Timecode::new_ns(ns) }
    }

    /// The zero-length span.
    pub fn zero() -> (r: Timespan)
        ensures
            r.time.secs == 0,
            r.time.nanos == 0,
            r.time.wf(),
    {
        Timespan { time: Timecode::zero() }
    }

    /// The span's exact total nanosecond count.
    pub fn ns(&self) -> (r: u128)
        ensures
            r == self.time.spec_ns(),
    {
        self.time.ns()
    }

    /// Builds a span from the host's native elapsed-time representation,
    /// field for field with no loss.
    pub fn from_duration(duration: std::time::Duration) -> (r: Timespan)
        ensures
            r.time.secs == duration_secs(duration),
            r.time.nanos == duration_subsec_nanos(duration),
            r.time.wf(),
    {
        let secs = duration.as_secs();
        let nanos = duration.subsec_nanos();
        Timespan { time: Timecode::new(secs, nanos) }
    }

    /// Converts the span back to the host's native elapsed-time
    /// representation, field for field with no loss.
    pub fn as_duration(&self) -> (r: std::time::Duration)
        requires
            self.time.wf(),
        ensures
            duration_secs(r) == self.time.secs,
            duration_subsec_nanos(r) == self.time.nanos,
    {
        std::time::Duration::new(self.time.secs, self.time.nanos)
    }
}

impl From<std::time::Duration> for Timespan {
    /// The same field-for-field mapping as `from_duration`.
    fn from(duration: std::time::Duration) -> (r: Timespan) {
        Timespan::from_duration(duration)
    }
}

impl vstd::std_specs::convert::FromSpecImpl<std::time::Duration> for Timespan {
    open spec fn obeys_from_spec() -> bool {
        true
    }

    open spec fn from_spec(duration: std::time::Duration) -> Timespan {
        Timespan {
            time: Timecode {
                secs: duration_secs(duration),
                nanos: duration_subsec_nanos(duration),
            },
        }
    }
}

} // verus!
