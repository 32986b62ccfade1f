//! What comes from outside the program: the time, chance, fresh
//! identifiers. Nothing is known of these values beyond what is stated
//! here; the functions that use them take them as arguments.

use vstd::prelude::*;

verus! {

/// The most seconds of jitter added to the lifetime of a heartbeat.
pub const HEARTBEAT_JITTER_SECS: u64 = 5;

/// `chrono::Utc::now().timestamp()`: the seconds since the epoch, by the
/// system's clock.
#[verifier::external_body]
pub(crate) fn timestamp_now() -> (seconds: i64) {
    chrono::Utc::now().timestamp()
}

/// `fastrand::u64` on the range up to the jitter: some number of seconds in
/// that range.
#[verifier::external_body]
pub(crate) fn heartbeat_jitter() -> (seconds: u64)
    ensures
        seconds <= HEARTBEAT_JITTER_SECS,
{
    fastrand::u64(..=HEARTBEAT_JITTER_SECS)
}

/// `uuid::Uuid::new_v4`, as text: a fresh random identifier.
#[verifier::external_body]
pub(crate) fn new_id() -> (id: String) {
    uuid::Uuid::new_v4().to_string()
}

} // verus!
