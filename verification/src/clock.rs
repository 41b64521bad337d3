//! The wall clock.

use vstd::prelude::*;

verus! {

/// The current time in UTC as RFC 3339 text.
///
/// Calls `chrono::Utc::now` and formats the result with
/// `DateTime::to_rfc3339`. Nothing is claimed of the text: it differs from
/// call to call, and its length depends on the year and on the fraction of
/// the second. `Utc::now` panics if the system clock is set before the Unix
/// epoch.
#[verifier::external_body]
pub(crate) fn now_rfc3339() -> (text: String) {
    chrono::Utc::now().to_rfc3339()
}

} // verus!
