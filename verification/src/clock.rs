//! The one clock read the library makes: the current Unix time, used
//! by callers to set token expirations to now + TTL.

use vstd::prelude::*;

verus! {

/// Relies on `chrono::Utc::now` and `DateTime::timestamp`: seconds
/// since the Unix epoch. Nothing is promised of the value.
#[verifier::external_body]
fn now_unix_raw() -> i64 {
    chrono::Utc::now().timestamp()
}

/// The current Unix time in seconds, clamped below at the epoch.
pub fn unix_now() -> u64 {
    let t = now_unix_raw();
    if t < 0 {
        0
    } else {
        t as u64
    }
}

} // verus!
