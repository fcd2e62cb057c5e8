//! Lengths of time as the dialogs hold them: exact to the nanosecond, shown
//! and edited in whole milliseconds.
use vstd::prelude::*;

verus! {

/// A length of time in nanoseconds.
#[derive(Debug, Clone, Copy, PartialEq, Eq, Structural)]
pub struct TimeSpan {
    pub nanos: u128,
}

/// `ms` milliseconds.
pub open spec fn span_ms(ms: u64) -> TimeSpan {
    TimeSpan { nanos: (ms * 1_000_000) as u128 }
}

impl TimeSpan {
    /// The whole milliseconds of the span, the rest dropped.
    pub open spec fn millis(self) -> nat {
        (self.nanos / 1_000_000) as nat
    }

    /// `ms` milliseconds.
    pub fn from_millis(ms: u64) -> (r: TimeSpan)
        ensures
            r == span_ms(ms),
    {
        TimeSpan { nanos: ms as u128 * 1_000_000 }
    }

    /// `us` microseconds.
    pub fn from_micros(us: u64) -> (r: TimeSpan)
        ensures
            r.nanos == us * 1000,
    {
        TimeSpan { nanos: us as u128 * 1000 }
    }

    /// The whole milliseconds of the span.
    pub fn as_millis(&self) -> (r: u128)
        ensures
            r == self.millis(),
    {
        self.nanos / 1_000_000
    }
}

} // verus!
