//! The timestamp carried by payload fields (expiry dates, schedule starts,
//! the central system's current time). The vocabulary never computes with a
//! timestamp: it stores one and hands it back, so the type is a plain value
//! fixed to UTC, leaving no local-time ambiguity. Collaborators that work in
//! a calendar representation convert at the boundary.

use vstd::prelude::*;

verus! {

/// An instant in time, as milliseconds since the Unix epoch, always read as
/// UTC.
#[derive(Clone, Copy, Debug, PartialEq, Eq, Structural)]
pub struct UtcTimestamp {
    pub millis_since_epoch: i64,
}

impl UtcTimestamp {
    /// Wraps a millisecond count unchanged.
    pub fn new(millis_since_epoch: i64) -> (r: UtcTimestamp)
        ensures
            r.millis_since_epoch == millis_since_epoch,
    {
        UtcTimestamp { millis_since_epoch }
    }
}

} // verus!
