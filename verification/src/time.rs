//! Device-clock instants: whole seconds plus a sub-second part.
//!
//! The native driver reports sub-second time as a fraction in [0, 1); here the
//! fraction is held in nanoseconds so that every instant is a pair of plain
//! integers. The unverified layer converts at the boundary.

use vstd::prelude::*;

verus! {

/// One nanosecond past the largest legal fractional part.
pub const NANOS_PER_SEC: u32 = 1_000_000_000;

/// A point on the device clock: whole seconds since the epoch fixed when the
/// clock was last set, plus nanoseconds within that second.
#[derive(Clone, Copy, Debug, PartialEq, Eq, Structural)]
pub struct TimeSpec {
    pub full_secs: i64,
    pub frac_ns: u32,
}

impl TimeSpec {
    /// The fractional part always stays below one second.
    pub open spec fn wf(self) -> bool {
        self.frac_ns < NANOS_PER_SEC
    }

    pub fn new(full_secs: i64, frac_ns: u32) -> (r: TimeSpec)
        requires
            frac_ns < NANOS_PER_SEC,
        ensures
            r == (TimeSpec { full_secs, frac_ns }),
            r.wf(),
    {
        TimeSpec { full_secs, frac_ns }
    }

    pub fn zero() -> (r: TimeSpec)
        ensures
            r == (TimeSpec { full_secs: 0i64, frac_ns: 0u32 }),
            r.wf(),
    {
        TimeSpec { full_secs: 0, frac_ns: 0 }
    }
}

} // verus!
