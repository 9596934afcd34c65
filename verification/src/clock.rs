//! Instants without a time zone, read as UTC by convention.

use vstd::prelude::*;

verus! {

/// An instant: the whole seconds since 1970-01-01T00:00:00, and the
/// nanoseconds into that second.
#[derive(Clone, Copy, Debug, PartialEq, Eq, Structural)]
pub struct Timestamp {
    pub secs: i64,
    pub nanos: u32,
}

impl Timestamp {
    /// Whether `self` lies strictly before `other`.
    pub open spec fn before(self, other: Timestamp) -> bool {
        self.secs < other.secs || (self.secs == other.secs && self.nanos < other.nanos)
    }

    /// Decides [`Timestamp::before`].
    pub fn is_before(&self, other: &Timestamp) -> (r: bool)
        ensures
            r == self.before(*other),
    {
        self.secs < other.secs || (self.secs == other.secs && self.nanos < other.nanos)
    }
}

/// The current UTC instant, read with `chrono::Utc::now` and taken without its
/// time zone as the handlers store it.
///
/// Nothing is claimed of the instant returned: two calls may give the same
/// instant, or a later call an earlier one where the system clock was set
/// back. `chrono::Utc::now` panics where the system clock stands before 1970.
#[verifier::external_body]
pub(crate) fn now() -> Timestamp {
    let t = chrono::Utc::now().naive_utc().and_utc();
    Timestamp { secs: t.timestamp(), nanos: t.timestamp_subsec_nanos() }
}

} // verus!
