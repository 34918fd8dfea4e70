//! Time, as the robot uses it.

use std::time::Duration;
use vstd::prelude::*;

verus! {

/// The current time of the machine as RFC 3339 text: calls `chrono::Utc::now`
/// and `DateTime::to_rfc3339`. Nothing is claimed of the text, which differs from
/// call to call.
#[verifier::external_body]
pub(crate) fn utc_now() -> (r: String) {
    chrono::Utc::now().to_rfc3339()
}

/// The time span that `Duration::from_secs` makes of a number of seconds.
pub uninterp spec fn seconds_span(secs: u64) -> Duration;

/// Calls `Duration::from_secs`; the span depends on the number alone.
#[verifier::external_body]
pub(crate) fn seconds(secs: u64) -> (r: Duration)
    ensures
        r == seconds_span(secs),
{
    Duration::from_secs(secs)
}

} // verus!
