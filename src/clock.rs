use vstd::prelude::*;

verus! {

/// A point in time: microseconds since 1970-01-01 00:00:00 UTC, the
/// precision of the store's timestamp columns.
#[derive(Clone, Copy, PartialEq, Eq, Structural, Debug, Hash)]
pub struct Timestamp {
    pub micros: i64,
}

/// Relies on `chrono::Utc::now` and `DateTime::timestamp_micros`: the
/// current time. Nothing is known of the value.
#[verifier::external_body]
fn now_micros() -> (r: i64) {
    chrono::Utc::now().timestamp_micros()
}

/// The current time.
pub fn current_timestamp() -> (r: Timestamp) {
    Timestamp { micros: now_micros() }
}

} // verus!
