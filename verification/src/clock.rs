//! Trusted access to the wall clock.
//!
//! Timestamps are opaque to the logic: nothing anywhere depends on their
//! value, only on their presence, so the contracts here promise almost
//! nothing.

use vstd::prelude::*;

verus! {

/// Relies on `chrono::Utc::now` and `chrono::DateTime::to_rfc3339`: the
/// current time as an RFC 3339 string, which is never empty.
#[verifier::external_body]
pub(crate) fn now_rfc3339() -> (r: String)
    ensures
        r@.len() > 0,
{
    chrono::Utc::now().to_rfc3339()
}

/// Relies on `chrono::Utc::now` and `chrono::DateTime::timestamp`: the
/// current time as seconds since the Unix epoch.
#[verifier::external_body]
pub(crate) fn now_unix_seconds() -> (r: i64) {
    chrono::Utc::now().timestamp()
}

} // verus!
