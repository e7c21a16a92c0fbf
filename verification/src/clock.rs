//! The wall clock.
use vstd::prelude::*;

verus! {

/// Calls `chrono::Utc::now().timestamp()`: the current time in seconds since
/// the Unix epoch. Nothing is claimed of it: the clock may read anything.
#[verifier::external_body]
pub(crate) fn now_secs() -> (r: i64) {
    chrono::Utc::now().timestamp()
}

/// Calls `chrono::Utc::now().format("%Y-%m-%d")`: today's date in UTC as
/// text. Nothing is claimed of it: the clock may read anything.
#[verifier::external_body]
pub(crate) fn today_utc() -> (r: String) {
    chrono::Utc::now().format("%Y-%m-%d").to_string()
}

} // verus!
