//! Fixed-point time values with nanosecond resolution.
//!
//! Three value types share one representation, a pair of whole seconds and a
//! nanosecond remainder below one billion:
//! - [`Timecode`]: the fixed-point time quantity itself;
//! - [`Timespan`]: a relative elapsed span ("how long");
//! - [`Timepoint`]: an absolute point in time ("when"), measured as wall-clock
//!   time since the Unix epoch.
//!
//! All arithmetic is performed on the integer nanosecond representation.
//! Subtraction saturates at zero and addition saturates at the largest
//! representable value, so every operation keeps the remainder invariant.

pub mod host;
pub mod timecode;
pub mod timepoint;
pub mod timespan;

pub use timecode::Timecode;
pub use timepoint::Timepoint;
pub use timespan::Timespan;
