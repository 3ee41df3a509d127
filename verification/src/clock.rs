//! The clock of the machine.

use vstd::prelude::*;

verus! {

/// The current time in UTC, written as RFC 3339: what `SystemTime::now` of
/// the standard library reads, turned into a `chrono::DateTime<Utc>` by its
/// `From<SystemTime>` and written out by `DateTime::to_rfc3339`. Two calls
/// may differ, so nothing is claimed of the text. A clock that stands before
/// 1970 is converted like any other.
#[verifier::external_body]
pub(crate) fn now_rfc3339() -> (now: String) {
    chrono::DateTime::<chrono::Utc>::from(std::time::SystemTime::now()).to_rfc3339()
}

} // verus!
