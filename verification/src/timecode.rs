//! The fixed-point time quantity shared by `Timespan` and `Timepoint`.

use vstd::prelude::*;

verus! {

/// A fixed-point time quantity: `secs` whole seconds plus a `nanos`
/// nanosecond remainder. A well-formed value keeps `nanos` below one
/// billion, so the total nanosecond count determines the fields uniquely.
///
/// Every constructor and every arithmetic operation of this crate produces a
/// well-formed value; `new` asks its caller for an already normalized pair.
#[derive(Debug, Clone, Copy, PartialEq, Eq, PartialOrd, Ord, Structural)]
pub struct Timecode {
    pub secs: u64,
    pub nanos: u32,
}

impl Timecode {
    /// The remainder invariant: the nanosecond part never reaches a full second.
    pub open spec fn wf(self) -> bool {
        self.nanos < 1_000_000_000
    }

    /// The value as a total count of nanoseconds, the mathematical model of
    /// this type: `secs * 1_000_000_000 + nanos`.
    pub open spec fn spec_ns(self) -> int {
        self.secs * 1_000_000_000 + self.nanos
    }

    /// Builds a value verbatim from an already normalized pair of whole
    /// seconds and a nanosecond remainder below one billion.
    pub fn new(secs: u64, nanos: u32) -> (r: Timecode)
        requires
            nanos < 1_000_000_000,
        ensures
            r.secs == secs,
            r.nanos == nanos,
            r.wf(),
    {
        Timecode { secs, nanos }
    }

    /// Builds a value from a total nanosecond count, normalizing by division
    /// and remainder. A count whose second part does not fit in 64 bits wraps
    /// modulo 2^64 seconds, as a narrowing cast of the quotient would.
    pub fn new_ns(nanos: u128) -> (r: Timecode)
        ensures
            r.wf(),
            r.nanos == nanos as int % 1_000_000_000,
            r.secs == (nanos as int / 1_000_000_000) % 18_446_744_073_709_551_616,
            nanos <= 18_446_744_073_709_551_615u128 * 1_000_000_000 + 999_999_999
                ==> r.spec_ns() == nanos,
    {
        let whole: u128 = nanos / 1_000_000_000;
        let wrapped: u128 = whole % 18_446_744_073_709_551_616;
        let rem: u128 = nanos % 1_000_000_000;
        Timecode { secs: wrapped as u64, nanos: rem as u32 }
    }

    /// The additive identity: zero seconds, zero nanoseconds.
    pub fn zero() -> (r: Timecode)
        ensures
            r.secs == 0,
            r.nanos == 0,
            r.wf(),
            r.spec_ns() == 0,
    {
        Timecode { secs: 0, nanos: 0 }
    }

    /// The exact total nanosecond count, `secs * 1_000_000_000 + nanos`,
    /// computed on integers with no loss.
    pub fn ns(&self) -> (r: u128)
        ensures
            r == self.spec_ns(),
    {
        (self.secs as u128) * 1_000_000_000 + (self.nanos as u128)
    }

    /// The largest total nanosecond count a well-formed value can hold.
    pub open spec fn max_ns() -> int {
        18_446_744_073_709_551_615int * 1_000_000_000 + 999_999_999
    }

    /// The model of addition: the exact sum of the two nanosecond counts,
    /// saturating at the largest representable value.
    pub open spec fn spec_sat_add(a: int, b: int) -> int {
        if a + b <= Timecode::max_ns() {
            a + b
        } else {
            Timecode::max_ns()
        }
    }

    /// The model of subtraction: the exact difference of the two nanosecond
    /// counts, saturating at zero when the subtrahend is the larger.
    pub open spec fn spec_sat_sub(a: int, b: int) -> int {
        if a >= b {
            a - b
        } else {
            0
        }
    }

    /// Addition on the integer nanosecond representation, carrying a full
    /// second of remainder into the whole seconds and saturating at the
    /// largest representable value instead of overflowing.
    pub fn add(self, rhs: Timecode) -> (r: Timecode)
        requires
            self.wf(),
            rhs.wf(),
        ensures
            r.wf(),
            r.spec_ns() == Timecode::spec_sat_add(self.spec_ns(), rhs.spec_ns()),
            rhs.spec_ns() == 0 ==> r == self,
    {
        let nsum: u32 = self.nanos + rhs.nanos;
        let (carry, nrem): (u64, u32) = if nsum >= 1_000_000_000 {
            (1u64, nsum - 1_000_000_000)
        } else {
            (0u64, nsum)
        };
        if self.secs <= u64::MAX - rhs.secs {
            let ssum: u64 = self.secs + rhs.secs;
            if carry == 1 && ssum == u64::MAX {
                Timecode { secs: u64::MAX, nanos: 999_999_999 }
            } else {
                Timecode { secs: ssum + carry, nanos: nrem }
            }
        } else {
            Timecode { secs: u64::MAX, nanos: 999_999_999 }
        }
    }

    /// Subtraction on the integer nanosecond representation, borrowing a
    /// full second of remainder from the whole seconds and saturating at
    /// zero when the subtrahend is the larger value.
    pub fn sub(self, rhs: Timecode) -> (r: Timecode)
        requires
            self.wf(),
            rhs.wf(),
        ensures
            r.wf(),
            r.spec_ns() == Timecode::spec_sat_sub(self.spec_ns(), rhs.spec_ns()),
            rhs.spec_ns() == 0 ==> r == self,
    {
        if self.secs > rhs.secs {
            if self.nanos >= rhs.nanos {
                Timecode { secs: self.secs - rhs.secs, nanos: self.nanos - rhs.nanos }
            } else {
                Timecode {
                    secs: self.secs - rhs.secs - 1,
                    nanos: (self.nanos + 1_000_000_000) - rhs.nanos,
                }
            }
        } else if self.secs == rhs.secs && self.nanos >= rhs.nanos {
            Timecode { secs: 0, nanos: self.nanos - rhs.nanos }
        } else {
            Timecode { secs: 0, nanos: 0 }
        }
    }

    /// The lexicographic order on the two fields.
    pub open spec fn spec_lt(self, rhs: Timecode) -> bool {
        self.secs < rhs.secs || (self.secs == rhs.secs && self.nanos < rhs.nanos)
    }

    /// Strict comparison: lexicographic on the fields which, for well-formed
    /// values, is the order of the total nanosecond counts.
    pub fn less_than(&self, rhs: &Timecode) -> (r: bool)
        requires
            self.wf(),
            rhs.wf(),
        ensures
            r == self.spec_lt(*rhs),
            r == (self.spec_ns() < rhs.spec_ns()),
    {
        self.secs < rhs.secs || (self.secs == rhs.secs && self.nanos < rhs.nanos)
    }
}

/// Round trip: a value built verbatim from whole seconds `s` and a
/// nanosecond remainder `n` below one billion reads back as exactly
/// `s * 1_000_000_000 + n` total nanoseconds, on the integer path with no
/// floating-point loss.
pub proof fn lemma_parts_ns_round_trip(s: u64, n: u32, t: Timecode)
    requires
        n < 1_000_000_000,
        t.secs == s,
        t.nanos == n,
    ensures
        t.spec_ns() == s * 1_000_000_000 + n,
{
}

/// A well-formed value is determined by its total nanosecond count: two
/// construction paths that yield the same count yield field-equal values.
pub proof fn lemma_ns_injective(a: Timecode, b: Timecode)
    requires
        a.wf(),
        b.wf(),
        a.spec_ns() == b.spec_ns(),
    ensures
        a == b,
{
}

/// The lexicographic order on the fields agrees with the order of the total
/// nanosecond counts for well-formed values.
pub proof fn lemma_lt_agrees_with_ns(a: Timecode, b: Timecode)
    requires
        a.wf(),
        b.wf(),
    ensures
        a.spec_lt(b) <==> a.spec_ns() < b.spec_ns(),
{
}

/// The order is transitive: of three well-formed values each below the
/// next, the first is below the last.
pub proof fn lemma_lt_transitive(a: Timecode, b: Timecode, c: Timecode)
    requires
        a.wf(),
        b.wf(),
        c.wf(),
        a.spec_lt(b),
        b.spec_lt(c),
    ensures
        a.spec_lt(c),
        a.spec_ns() < c.spec_ns(),
{
}

impl Default for Timecode {
    /// The same value as `zero`.
    fn default() -> (r: Timecode)
        ensures
            r.secs == 0,
            r.nanos == 0,
            r.wf(),
    {
        Timecode { secs: 0, nanos: 0 }
    }
}

} // verus!
