//! The wall clock, read through chrono.
//!
//! The generator's algorithm needs only "the current time in milliseconds,
//! usually advancing but free to jump either way". Nothing is promised of a
//! single reading; `next_millis` promises only that the value it returns was
//! observed after the clock had passed the given mark.

use vstd::prelude::*;

verus! {

/// Relies on chrono::Local::now and chrono::DateTime::timestamp_millis for
/// the current wall-clock time as milliseconds since the Unix epoch.
/// The system clock may be set to anything, so nothing is promised of the
/// reading: every caller must handle every `i64`.
#[verifier::external_body]
pub(crate) fn current_millis() -> i64 {
    chrono::Local::now().timestamp_millis()
}

/// Spin until the clock reads strictly later than `last_ms`, and return that
/// reading. Relies on chrono::Local::now and chrono::DateTime::timestamp_millis
/// as `current_millis` does; the body returns only a reading that the loop
/// condition found strictly greater than `last_ms`, so the contract holds of
/// whatever the clock reports. The spin is unbounded by design: it ends only
/// when the clock advances, which no `decreases` measure can bound, so the
/// loop lives here with the clock reads it repeats.
#[verifier::external_body]
pub(crate) fn next_millis(last_ms: i64) -> (r: i64)
    ensures
        r > last_ms,
{
    let mut t = chrono::Local::now().timestamp_millis();
    while t <= last_ms {
        t = chrono::Local::now().timestamp_millis();
    }
    t
}

} // verus!
