//! Points and spans on the caller's monotonic clock, in nanoseconds.

use vstd::prelude::*;

verus! {

/// How many nanoseconds a millisecond has.
pub const NANOS_PER_MILLI: u128 = 1_000_000;

/// A span of time in nanoseconds.
#[derive(Clone, Copy, Debug, PartialEq, Eq, Structural)]
pub struct Span {
    pub nanos: u128,
}

/// A reading of the caller's monotonic clock, in nanoseconds since an origin that the
/// caller picks once and keeps.
#[derive(Clone, Copy, Debug, PartialEq, Eq, Structural)]
pub struct Timestamp {
    pub nanos: u128,
}

impl View for Timestamp {
    type V = int;

    open spec fn view(&self) -> int {
        self.nanos as int
    }
}

impl View for Span {
    type V = int;

    open spec fn view(&self) -> int {
        self.nanos as int
    }
}

impl Span {
    /// A span of so many nanoseconds.
    pub fn from_nanos(nanos: u128) -> (span: Span)
        ensures
            span@ == nanos,
    {
        Span { nanos }
    }

    /// A span of so many milliseconds.
    pub fn from_millis(millis: u64) -> (span: Span)
        ensures
            span@ == millis * NANOS_PER_MILLI,
    {
        let wide: u128 = millis as u128;
        Span { nanos: wide * NANOS_PER_MILLI }
    }

    /// Half of this span, rounded down.
    pub fn half(&self) -> (h: Span)
        ensures
            h@ == self@ / 2,
    {
        Span { nanos: self.nanos / 2 }
    }
}

impl Timestamp {
    /// The reading so many nanoseconds after the clock's origin.
    pub fn from_nanos(nanos: u128) -> (t: Timestamp)
        ensures
            t@ == nanos,
    {
        Timestamp { nanos }
    }

    /// The reading so many milliseconds after the clock's origin.
    pub fn from_millis(millis: u64) -> (t: Timestamp)
        ensures
            t@ == millis * NANOS_PER_MILLI,
    {
        let wide: u128 = millis as u128;
        Timestamp { nanos: wide * NANOS_PER_MILLI }
    }

    /// The reading `span` later; the clock's last reading if that is out of range.
    pub fn plus(&self, span: Span) -> (t: Timestamp)
        ensures
            t@ == if self@ + span@ <= u128::MAX {
                self@ + span@
            } else {
                u128::MAX as int
            },
    {
        if span.nanos <= u128::MAX - self.nanos {
            Timestamp { nanos: self.nanos + span.nanos }
        } else {
            Timestamp { nanos: u128::MAX }
        }
    }

    /// Whether more than `limit` has passed between `earlier` and this reading.
    pub fn is_later_than(&self, earlier: Timestamp, limit: Span) -> (late: bool)
        ensures
            late == (self@ - earlier@ > limit@),
    {
        self.nanos > earlier.nanos && self.nanos - earlier.nanos > limit.nanos
    }
}

} // verus!
