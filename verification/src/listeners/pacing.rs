//! Time as the listener sees it: spans in whole nanoseconds.

use vstd::prelude::*;

verus! {

/// Nanoseconds in one second.
pub const NANOS_PER_SEC: u128 = 1_000_000_000;

/// Nanoseconds in one millisecond.
pub const NANOS_PER_MILLI: u128 = 1_000_000;

/// A length of time, or a moment given as the time since a fixed origin.
#[derive(Clone, Copy, Debug, PartialEq, Eq, Structural)]
pub struct Span {
    pub nanos: u128,
}

impl Span {
    /// A span of `nanos` nanoseconds.
    pub fn from_nanos(nanos: u128) -> (span: Span)
        ensures
            span.nanos == nanos,
    {
        Span { nanos }
    }

    /// A span of `millis` milliseconds.
    pub fn from_millis(millis: u64) -> (span: Span)
        ensures
            span.nanos == millis * NANOS_PER_MILLI,
    {
        Span { nanos: millis as u128 * NANOS_PER_MILLI }
    }

    /// A span of `secs` seconds.
    pub fn from_secs(secs: u64) -> (span: Span)
        ensures
            span.nanos == secs * NANOS_PER_SEC,
    {
        Span { nanos: secs as u128 * NANOS_PER_SEC }
    }

    /// The whole seconds of the span.
    pub fn whole_secs(&self) -> (secs: u128)
        ensures
            secs == self.nanos / NANOS_PER_SEC,
    {
        self.nanos / NANOS_PER_SEC
    }

    /// What of the span is left over the whole seconds, in nanoseconds.
    pub fn subsec_nanos(&self) -> (nanos: u32)
        ensures
            nanos == self.nanos % NANOS_PER_SEC,
    {
        (self.nanos % NANOS_PER_SEC) as u32
    }

    /// The span in nanoseconds.
    pub fn as_nanos(&self) -> (nanos: u128)
        ensures
            nanos == self.nanos,
    {
        self.nanos
    }
}

/// Whether a tick at moment `at` keeps the pace: it is the first tick, or
/// at least `interval` has passed since the last tick that was honoured.
pub open spec fn tick_due(last: Option<Span>, interval: Span, at: Span) -> bool {
    match last {
        None => true,
        Some(prior) => at.nanos >= prior.nanos + interval.nanos,
    }
}

/// Decides whether a tick at moment `at` keeps the pace.
pub fn is_tick_due(last: Option<Span>, interval: Span, at: Span) -> (due: bool)
    ensures
        due == tick_due(last, interval, at),
{
    match last {
        None => true,
        Some(prior) => match prior.nanos.checked_add(interval.nanos) {
            Some(deadline) => at.nanos >= deadline,
            None => false,
        },
    }
}

} // verus!
