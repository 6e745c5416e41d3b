use std::time::Duration;
use vstd::prelude::*;

use crate::clock::{duration_subsec_nanos, duration_whole_secs};

verus! {

/// A non-negative span of time: whole seconds and the nanoseconds of a
/// partial second, always below one second.
#[derive(Copy, Clone, Debug, PartialEq, Eq, Structural, Hash)]
pub struct TimeSpan {
    secs: u64,
    nanos: u32,
}

impl TimeSpan {
    #[verifier::type_invariant]
    spec fn nanos_below_one_second(self) -> bool {
        self.nanos < 1_000_000_000
    }

    /// Whole seconds of the span.
    pub closed spec fn spec_secs(self) -> u64 {
        self.secs
    }

    /// Nanoseconds of the partial second.
    pub closed spec fn spec_nanos(self) -> u32 {
        self.nanos
    }

    /// A span of `secs` seconds and `nanos` nanoseconds; whole seconds in
    /// `nanos` carry into the seconds.
    pub fn new(secs: u64, nanos: u32) -> (r: Self)
        requires
            secs + nanos / 1_000_000_000 <= u64::MAX,
        ensures
            r.spec_secs() == secs + nanos / 1_000_000_000,
            r.spec_nanos() == nanos % 1_000_000_000,
    {
        TimeSpan { secs: secs + (nanos / 1_000_000_000) as u64, nanos: nanos % 1_000_000_000 }
    }

    /// Whole seconds of the span.
    pub fn as_secs(&self) -> (r: u64)
        ensures
            r == self.spec_secs(),
    {
        self.secs
    }

    /// The partial second in whole nanoseconds.
    pub fn subsec_nanos(&self) -> (r: u32)
        ensures
            r == self.spec_nanos(),
            r < 1_000_000_000,
    {
        proof {
            use_type_invariant(self);
        }
        self.nanos
    }

    /// The partial second in whole microseconds, truncated.
    pub fn subsec_micros(&self) -> (r: u32)
        ensures
            r == self.spec_nanos() / 1_000,
            r < 1_000_000,
    {
        proof {
            use_type_invariant(self);
        }
        self.nanos / 1_000
    }

    /// The same span as a std `Duration` holds it.
    pub fn from_std(d: &Duration) -> (r: Self)
        ensures
            r.spec_nanos() < 1_000_000_000,
    {
        TimeSpan { secs: duration_whole_secs(d), nanos: duration_subsec_nanos(d) }
    }
}

} // verus!
