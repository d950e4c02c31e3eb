//! The wall clock, read in milliseconds since the Unix epoch.
use vstd::prelude::*;

verus! {

/// Reads the system clock (`std::time::SystemTime::now`) and gives the
/// milliseconds elapsed since the Unix epoch; a clock set before the epoch
/// reads as 0. Nothing is stated of the value: it is whatever the clock says
/// at the moment of the call, and two calls may give any two values.
#[verifier::external_body]
pub fn now_millis() -> (r: u64) {
    match std::time::SystemTime::now().duration_since(std::time::UNIX_EPOCH) {
        Ok(d) => d.as_millis() as u64,
        Err(_) => 0,
    }
}

/// Reads the UTC clock through chrono (`Utc::now().timestamp_millis()`):
/// milliseconds since the Unix epoch. Nothing is stated of the value: it is
/// whatever the clock says at the moment of the call.
#[verifier::external_body]
pub fn utc_now_millis() -> (r: i64) {
    chrono::Utc::now().timestamp_millis()
}

/// The current UTC time as RFC 3339 text (`chrono::Utc::now().to_rfc3339()`).
/// Nothing is stated of it: it is whatever the clock says.
#[verifier::external_body]
pub fn utc_now_rfc3339() -> (r: String) {
    chrono::Utc::now().to_rfc3339()
}

} // verus!
