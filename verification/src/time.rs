//! Spans of time.
use vstd::prelude::*;

verus! {

/// A point in time of a monotonic clock.
#[verifier::external_type_specification]
#[verifier::external_body]
pub struct ExInstant(std::time::Instant);

/// A span of time: whole seconds and the nanoseconds beyond them.
#[derive(Debug, Clone, Copy, PartialEq, Eq, Structural)]
pub struct Span {
    /// Whole seconds.
    pub secs: u64,
    /// Nanoseconds beyond the whole seconds, fewer than a second has.
    pub nanos: u32,
}

impl Span {
    /// Whether the nanoseconds stay below a second.
    pub open spec fn wf(&self) -> bool {
        self.nanos < 1_000_000_000
    }

    /// The whole milliseconds in this span.
    pub open spec fn millis(&self) -> nat {
        (self.secs as nat) * 1000 + (self.nanos as nat) / 1_000_000
    }

    /// A span of whole seconds.
    pub fn from_secs(secs: u64) -> (r: Span)
        ensures
            r.wf(),
            r.secs == secs,
            r.nanos == 0,
            r.millis() == secs * 1000,
    {
        Span { secs, nanos: 0 }
    }

    /// The whole milliseconds in this span.
    pub fn as_millis(&self) -> (r: u128)
        ensures
            r == self.millis(),
    {
        (self.secs as u128) * 1000 + (self.nanos as u128) / 1_000_000
    }
}

/// The milliseconds of a span are the whole ones in its length: they last no longer than the span,
/// and one more would.
pub proof fn millis_are_whole_milliseconds(d: Span)
    ensures
        d.millis() * 1_000_000 <= d.secs * 1_000_000_000 + d.nanos,
        d.secs * 1_000_000_000 + d.nanos < (d.millis() + 1) * 1_000_000,
{
}

} // verus!
