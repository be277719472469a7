//! Wall-clock readings, taken on trust; everything computed from them is
//! verified for every possible reading.

use vstd::prelude::*;

verus! {

/// Relies on `chrono::Utc::now().timestamp_millis`: milliseconds since the
/// Unix epoch.  Nothing is assumed of the value.
#[verifier::external_body]
pub fn now_millis_raw() -> i64 {
    chrono::Utc::now().timestamp_millis()
}

/// Relies on `chrono`'s `%H:%M` formatting of the local time: two digits,
/// a colon, two digits, so five characters.
#[verifier::external_body]
pub fn now_hhmm() -> (r: String)
    ensures
        r@.len() == 5,
{
    chrono::Local::now().format("%H:%M").to_string()
}

/// The current clock reading clamped to an unsigned value.
pub fn now_millis() -> u64 {
    let ms = now_millis_raw();
    if ms < 0 {
        0
    } else {
        ms as u64
    }
}

} // verus!
