use vstd::prelude::*;

verus! {

/// Relies on chrono's `Utc::now` and `DateTime::timestamp_millis`: the
/// current UTC wall-clock time, as milliseconds since the Unix epoch. The
/// clock is an outside fact, so nothing relates two calls and nothing is
/// promised about the value; callers state what holds of their result for
/// every stamp. `Utc::now` aborts if the system clock reads before the
/// epoch.
#[verifier::external_body]
pub(crate) fn now_utc_millis() -> (t: i64) {
    chrono::Utc::now().timestamp_millis()
}

} // verus!
