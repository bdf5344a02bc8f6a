//! The two readings of the wall clock that the orchestrators use: an
//! RFC 3339 rendering for event ordering keys, and a Unix timestamp for
//! token lifetimes. Nothing is assumed about either value — the callers
//! state what holds whatever the clock returned.

use vstd::prelude::*;

verus! {

/// Relies on `chrono::Local::now().to_rfc3339()`: the current local time
/// as an RFC 3339 string. The value depends on the clock, so nothing is
/// assumed of it.
#[verifier::external_body]
pub(crate) fn now_rfc3339() -> String {
    chrono::Local::now().to_rfc3339()
}

/// Relies on `chrono::Utc::now().timestamp()`: the current time as whole
/// seconds since the Unix epoch. The value depends on the clock, so
/// nothing is assumed of it.
#[verifier::external_body]
pub(crate) fn now_unix() -> i64 {
    chrono::Utc::now().timestamp()
}

} // verus!
