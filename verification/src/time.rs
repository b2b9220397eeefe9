//! Chain-local time.
//!
//! A [`Timestamp`] is a whole number of seconds since the UNIX epoch plus the
//! nanoseconds into that second. Chain ordering is purely relative: a record
//! must not be stamped strictly earlier than its predecessor, and no external
//! clock is ever consulted.

use vstd::prelude::*;

verus! {

/// A moment on the chain's own time line.
#[derive(Clone, Copy, Debug, PartialEq, Eq, Structural)]
pub struct Timestamp {
    /// Whole seconds since the UNIX epoch (may be negative).
    pub secs: i64,
    /// Nanoseconds into that second; below one billion in a well-formed value.
    pub nanos: u32,
}

impl Timestamp {
    /// A well-formed timestamp keeps its sub-second part below one second.
    pub open spec fn wf(self) -> bool {
        self.nanos < 1_000_000_000
    }

    /// `self` is at or before `other`: lexicographic on (seconds, nanoseconds).
    pub open spec fn spec_le(self, other: Timestamp) -> bool {
        self.secs < other.secs || (self.secs == other.secs && self.nanos <= other.nanos)
    }

    /// Build a timestamp from its two components.
    pub fn new(secs: i64, nanos: u32) -> (r: Timestamp)
        requires
            nanos < 1_000_000_000,
        ensures
            r == (Timestamp { secs, nanos }),
            r.wf(),
    {
        Timestamp { secs, nanos }
    }

    /// Decide whether `self` is at or before `other`.
    pub fn le(&self, other: &Timestamp) -> (r: bool)
        ensures
            r == self.spec_le(*other),
    {
        self.secs < other.secs || (self.secs == other.secs && self.nanos <= other.nanos)
    }
}

} // verus!
