//! Sources of logical time.

use vstd::prelude::*;

verus! {

/// Milliseconds since the Unix epoch.
pub type Moment = u64;

/// The instant that [`MockTime`] reports: 25 March 2024, 11:54:18.200 UTC.
pub const MOCK_NOW: Moment = 1_711_367_658_200;

/// A clock that stands still, for callers that check validity windows
/// against a known instant.
pub struct MockTime;

impl MockTime {
    /// The current time, which is always [`MOCK_NOW`].
    pub fn now() -> (moment: Moment)
        ensures
            moment == MOCK_NOW,
    {
        MOCK_NOW
    }
}

} // verus!
