use vstd::prelude::*;
use crate::value::FeedValue;

verus! {

/// One queued broker operation. The verified core only decides; the
/// unverified edge performs each action against the broker in order.
#[derive(Debug, Clone)]
pub enum Action {
    /// Register a new output under `path`, seeded with `value`.
    Publish { path: String, value: FeedValue },
    /// Queue a new timestamp on the alert-timestamp output of the record
    /// bound to `sub_id`.
    UpdateTimestamp { sub_id: u64, stamp: i64 },
    /// Queue a new reading on the alert-temperature output of the record
    /// bound to `sub_id`.
    UpdateTemperature { sub_id: u64, reading: i64 },
    /// Send everything queued so far to the broker.
    Flush,
}

} // verus!
