use vstd::prelude::*;

verus! {

/// A value carried on the feed, reduced to a closed set of shapes: the
/// broker's dynamic value type as this pipeline reads and writes it.
///
/// Numeric readings are fixed point, in millionths of a degree, so that a
/// reading such as 75.0001 degrees is the exact integer 75_000_100.
/// Timestamps are milliseconds since the Unix epoch, UTC.
#[derive(Debug, Clone)]
pub enum FeedValue {
    Null,
    Number(i64),
    Text(String),
    Timestamp(i64),
}

/// An event delivered on a subscription.
#[derive(Debug, Clone)]
pub enum FeedEvent {
    /// The subscription dropped; the broker reconnects on its own, so this
    /// carries no data and changes no state.
    Unsubscribed,
    /// A new value was delivered for the subscribed path.
    Update(FeedValue),
}

/// The numeric reading a feed value carries, if any: only a `Number` is
/// numeric; every other shape is rejected.
pub open spec fn spec_numeric(v: FeedValue) -> Option<i64> {
    match v {
        FeedValue::Number(n) => Some(n),
        _ => None,
    }
}

/// Total conversion from a feed value to a numeric reading. A malformed
/// update (text, null, a timestamp) yields `None` and is thereby dropped
/// by the dispatcher rather than treated as an error.
pub fn cast_numeric(v: &FeedValue) -> (r: Option<i64>)
    ensures
        r == spec_numeric(*v),
{
    match v {
        FeedValue::Number(n) => Some(*n),
        _ => None,
    }
}

} // verus!
