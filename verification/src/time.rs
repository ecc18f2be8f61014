//! Points in time as plain integers.

use vstd::prelude::*;

verus! {

/// How long a session opened at login stays valid: thirty days, in seconds.
pub const SESSION_LIFETIME_SECS: i64 = 2592000;

/// One billion: the number of nanoseconds in a second.
pub const NANOS_PER_SEC: u32 = 1000000000;

/// A point in time (UTC), as whole seconds since the Unix epoch and the
/// nanoseconds that follow them.
#[derive(Clone, Copy, Debug, PartialEq, Eq, Structural)]
pub struct Timestamp {
    pub secs: i64,
    pub nanos: u32,
}

impl Timestamp {
    /// `self` comes strictly before `other`: seconds first, then nanoseconds.
    pub open spec fn precedes(self, other: Timestamp) -> bool {
        self.secs < other.secs || (self.secs == other.secs && self.nanos < other.nanos)
    }

    /// Whether `self` comes strictly before `other`.
    pub fn is_before(&self, other: &Timestamp) -> (b: bool)
        ensures
            b == self.precedes(*other),
    {
        self.secs < other.secs || (self.secs == other.secs && self.nanos < other.nanos)
    }
}

/// The moment a session opened at `now` expires.
pub open spec fn expiry_of(now: Timestamp) -> Timestamp {
    Timestamp { secs: (now.secs + SESSION_LIFETIME_SECS) as i64, nanos: now.nanos }
}

/// The expiry of a session opened at `now`: thirty days later.
pub fn session_expiry(now: Timestamp) -> (t: Timestamp)
    requires
        now.secs <= i64::MAX - SESSION_LIFETIME_SECS,
    ensures
        t == expiry_of(now),
        t.secs == now.secs + SESSION_LIFETIME_SECS,
        t.nanos == now.nanos,
{
    Timestamp { secs: now.secs + SESSION_LIFETIME_SECS, nanos: now.nanos }
}

} // verus!
