//! The bridge to the host's native elapsed-time representation,
//! `std::time::Duration`. The names and contracts here let verified code
//! carry a host duration through and speak of its two fields; each contract
//! states only what the standard library documents.

use vstd::prelude::*;

verus! {

/// The whole-second part of a host duration, the value `Duration::as_secs`
/// reads back.
pub uninterp spec fn duration_secs(d: std::time::Duration) -> u64;

/// The sub-second nanosecond part of a host duration, the value
/// `Duration::subsec_nanos` reads back; always below one billion.
pub uninterp spec fn duration_subsec_nanos(d: std::time::Duration) -> u32;

/// Relies on std::time::Duration::new: a duration built from whole seconds
/// and a nanosecond part below one billion holds exactly those fields.
/// The requirement keeps the call away from the carry that a nanosecond
/// count of a second or more would trigger.
pub assume_specification[ std::time::Duration::new ](secs: u64, nanos: u32) -> (r: std::time::Duration)
    requires
        nanos < 1_000_000_000,
    ensures
        duration_secs(r) == secs,
        duration_subsec_nanos(r) == nanos,
;

/// Relies on std::time::Duration::as_secs: returns the whole-second part,
/// the fractional part dropped.
pub assume_specification[ std::time::Duration::as_secs ](d: &std::time::Duration) -> (r: u64)
    ensures
        r == duration_secs(*d),
;

/// Relies on std::time::Duration::subsec_nanos: returns the fractional part
/// in nanoseconds, always below one billion.
pub assume_specification[ std::time::Duration::subsec_nanos ](d: &std::time::Duration) -> (r: u32)
    ensures
        r == duration_subsec_nanos(*d),
        r < 1_000_000_000,
;

} // verus!
