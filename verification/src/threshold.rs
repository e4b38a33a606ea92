use vstd::prelude::*;
use crate::registry::AlertRecord;
use crate::value::{FeedEvent, FeedValue, cast_numeric, spec_numeric};

verus! {

/// The alert threshold, in millionths of a degree: a reading alerts only
/// when it is strictly above 75 degrees.
pub const THRESHOLD_MICROS: i64 = 75_000_000;

pub open spec fn spec_over_threshold(reading: i64) -> bool {
    reading > THRESHOLD_MICROS
}

/// Pure threshold decision: does this reading warrant an alert update?
/// Strict comparison, so a reading of exactly 75 degrees does not alert.
pub fn should_alert(reading: i64) -> (r: bool)
    ensures
        r == spec_over_threshold(reading),
{
    reading > THRESHOLD_MICROS
}

/// Whether an event carries a numeric reading that is over the threshold,
/// i.e. whether dispatching it updates the record it is addressed to.
pub open spec fn spec_event_alerts(ev: FeedEvent) -> bool {
    match ev {
        FeedEvent::Update(v) => match spec_numeric(v) {
            Some(n) => spec_over_threshold(n),
            None => false,
        },
        FeedEvent::Unsubscribed => false,
    }
}

/// What one event does to one alert record: an over-threshold numeric
/// reading stamps the record with the reading and the current time; every
/// other event — an unsubscription, a malformed value, an under-threshold
/// reading — leaves the record exactly as it was. Nothing ever lowers or
/// clears a recorded alert, so the last over-threshold reading is sticky.
pub open spec fn spec_apply_event(rec: AlertRecord, ev: FeedEvent, now: i64) -> AlertRecord {
    match ev {
        FeedEvent::Update(v) => match spec_numeric(v) {
            Some(n) => if spec_over_threshold(n) {
                AlertRecord { sub_id: rec.sub_id, timestamp: Some(now), temperature: Some(n) }
            } else {
                rec
            },
            None => rec,
        },
        FeedEvent::Unsubscribed => rec,
    }
}

/// Applies one event to one record in place.
pub fn process_event(rec: &mut AlertRecord, ev: &FeedEvent, now: i64) -> (updated: bool)
    ensures
        *final(rec) == spec_apply_event(*old(rec), *ev, now),
        updated == spec_event_alerts(*ev),
{
    match ev {
        FeedEvent::Update(v) => {
            match cast_numeric(v) {
                Some(n) => {
                    if should_alert(n) {
                        rec.timestamp = Some(now);
                        rec.temperature = Some(n);
                        true
                    } else {
                        false
                    }
                },
                None => false,
            }
        },
        FeedEvent::Unsubscribed => false,
    }
}

} // verus!
