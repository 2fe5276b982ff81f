//! Wall-clock timestamps.

use chrono::{Local, Utc};
use vstd::prelude::*;

verus! {

/// An instant on the UTC time line: whole seconds since the Unix epoch and
/// the nanoseconds into that second.
#[derive(Clone, Copy, Debug, PartialEq, Eq, Structural)]
pub struct Timestamp {
    pub secs: i64,
    pub nanos: u32,
}

/// Reads the system clock through `chrono::Utc::now` and keeps the instant
/// as the pair that `DateTime::timestamp` and
/// `DateTime::timestamp_subsec_nanos` give. Nothing is promised of the
/// result: it differs from call to call. `Utc::now` panics where the system
/// clock stands before the Unix epoch.
#[verifier::external_body]
pub(crate) fn utc_now() -> Timestamp {
    let t = Utc::now();
    Timestamp { secs: t.timestamp(), nanos: t.timestamp_subsec_nanos() }
}

/// Reads the system clock through `chrono::Local::now` and keeps the instant
/// as the pair that `DateTime::timestamp` and
/// `DateTime::timestamp_subsec_nanos` give. Nothing is promised of the
/// result: it differs from call to call. `Local::now` panics where the system
/// clock stands before the Unix epoch.
#[verifier::external_body]
pub(crate) fn local_now() -> Timestamp {
    let t = Local::now();
    Timestamp { secs: t.timestamp(), nanos: t.timestamp_subsec_nanos() }
}

} // verus!
