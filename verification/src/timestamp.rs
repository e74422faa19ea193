use vstd::prelude::*;

verus! {

/// A point in time, counted in seconds relative to an epoch.
///
/// The core never reads a hidden global clock: callers construct a
/// `Timestamp` themselves (for issuance and expiration dates) and inject
/// "now" into validation, so every computation is deterministic and
/// replayable.
#[derive(Clone, Copy, Debug, PartialEq, Eq, Structural)]
pub struct Timestamp {
    pub seconds: i64,
}

impl Timestamp {
    pub fn from_seconds(seconds: i64) -> (r: Timestamp)
        ensures
            r.seconds == seconds,
    {
        Timestamp { seconds }
    }
}

} // verus!
