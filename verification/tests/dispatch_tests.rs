use overtemp::actions::Action;
use overtemp::binder::bind_source;
use overtemp::dispatch::{process_batch, process_batch_now};
use overtemp::registry::{AlertRecord, SourceRegistry};
use overtemp::threshold::{process_event, should_alert, THRESHOLD_MICROS};
use overtemp::value::{cast_numeric, FeedEvent, FeedValue};

fn registry_with(hosts: &[(&str, u64)]) -> SourceRegistry {
    let mut reg = SourceRegistry::new();
    for (host, id) in hosts {
        bind_source(&mut reg, &String::from(*host), *id);
    }
    reg
}

#[test]
fn threshold_is_strict() {
    assert_eq!(THRESHOLD_MICROS, 75_000_000);
    assert!(!should_alert(75_000_000));
    assert!(should_alert(75_000_100));
    assert!(!should_alert(74_999_999));
    assert!(should_alert(75_000_001));
    let exactly = (75.0_f64 * 1e6) as i64;
    let just_over = (75.0001_f64 * 1e6) as i64;
    assert!(!should_alert(exactly));
    assert!(should_alert(just_over));
}

#[test]
fn exact_threshold_reading_does_not_update() {
    let mut rec = AlertRecord { sub_id: 3, timestamp: None, temperature: None };
    let ev = FeedEvent::Update(FeedValue::Number(75_000_000));
    assert!(!process_event(&mut rec, &ev, 50));
    assert_eq!(rec.timestamp, None);
    assert_eq!(rec.temperature, None);
    let ev = FeedEvent::Update(FeedValue::Number(75_000_100));
    assert!(process_event(&mut rec, &ev, 51));
    assert_eq!(rec.timestamp, Some(51));
    assert_eq!(rec.temperature, Some(75_000_100));
}

#[test]
fn overtemp_update_then_cooler_reading_is_sticky() {
    let mut reg = registry_with(&[("h1", 7)]);
    let batch = vec![(7u64, FeedEvent::Update(FeedValue::Number(80_000_000)))];
    let acts = process_batch(&mut reg, &batch, 1_234);
    let rec = reg.get_record(7).expect("record must exist");
    assert_eq!(rec.temperature, Some(80_000_000));
    assert_eq!(rec.timestamp, Some(1_234));
    assert_eq!(acts.len(), 3);
    assert!(matches!(acts[0], Action::UpdateTimestamp { sub_id: 7, stamp: 1_234 }));
    assert!(matches!(acts[1], Action::UpdateTemperature { sub_id: 7, reading: 80_000_000 }));
    assert!(matches!(acts[2], Action::Flush));

    let batch = vec![(7u64, FeedEvent::Update(FeedValue::Number(70_000_000)))];
    let acts = process_batch(&mut reg, &batch, 9_999);
    let rec = reg.get_record(7).expect("record must exist");
    assert_eq!(rec.temperature, Some(80_000_000));
    assert_eq!(rec.timestamp, Some(1_234));
    assert_eq!(acts.len(), 1);
    assert!(matches!(acts[0], Action::Flush));
}

#[test]
fn malformed_update_changes_nothing() {
    let mut reg = registry_with(&[("h1", 7)]);
    assert_eq!(cast_numeric(&FeedValue::Text(String::from("not-a-number"))), None);
    let batch = vec![
        (7u64, FeedEvent::Update(FeedValue::Text(String::from("not-a-number")))),
        (7u64, FeedEvent::Update(FeedValue::Null)),
        (7u64, FeedEvent::Update(FeedValue::Timestamp(77))),
    ];
    let acts = process_batch(&mut reg, &batch, 42);
    let rec = reg.get_record(7).expect("record must exist");
    assert_eq!(rec.timestamp, None);
    assert_eq!(rec.temperature, None);
    assert_eq!(acts.len(), 1);
    assert!(matches!(acts[0], Action::Flush));
}

#[test]
fn unsubscribed_event_changes_nothing() {
    let mut reg = registry_with(&[("h1", 7)]);
    let batch = vec![(7u64, FeedEvent::Unsubscribed)];
    let acts = process_batch(&mut reg, &batch, 42);
    let rec = reg.get_record(7).expect("record must survive unsubscription");
    assert_eq!(rec.timestamp, None);
    assert_eq!(rec.temperature, None);
    assert_eq!(acts.len(), 1);
    assert!(matches!(acts[0], Action::Flush));
}

#[test]
fn one_flush_per_batch_and_updates_only_for_batch_subscriptions() {
    let mut reg = registry_with(&[("h1", 1), ("h2", 2), ("h3", 3)]);
    let batch = vec![
        (1u64, FeedEvent::Update(FeedValue::Number(90_000_000))),
        (2u64, FeedEvent::Update(FeedValue::Number(60_000_000))),
        (1u64, FeedEvent::Update(FeedValue::Number(91_000_000))),
    ];
    let acts = process_batch(&mut reg, &batch, 500);
    let flushes = acts.iter().filter(|a| matches!(a, Action::Flush)).count();
    assert_eq!(flushes, 1);
    assert!(matches!(acts.last().unwrap(), Action::Flush));
    for a in &acts[..acts.len() - 1] {
        match a {
            Action::UpdateTimestamp { sub_id, .. } => assert!(*sub_id == 1 || *sub_id == 2),
            Action::UpdateTemperature { sub_id, .. } => assert!(*sub_id == 1 || *sub_id == 2),
            _ => panic!("only output updates may precede the flush"),
        }
    }
    // Two distinct subscriptions in the batch: at most two records changed,
    // and h3's record is untouched.
    let r1 = reg.get_record(1).unwrap();
    assert_eq!(r1.temperature, Some(91_000_000));
    assert_eq!(r1.timestamp, Some(500));
    let r2 = reg.get_record(2).unwrap();
    assert_eq!(r2.temperature, None);
    let r3 = reg.get_record(3).unwrap();
    assert_eq!(r3.timestamp, None);
    assert_eq!(r3.temperature, None);
}

#[test]
fn events_within_a_subscription_apply_in_order() {
    let mut reg = registry_with(&[("h1", 1)]);
    let batch = vec![
        (1u64, FeedEvent::Update(FeedValue::Number(90_000_000))),
        (1u64, FeedEvent::Update(FeedValue::Number(88_000_000))),
    ];
    process_batch(&mut reg, &batch, 7);
    let rec = reg.get_record(1).unwrap();
    assert_eq!(rec.temperature, Some(88_000_000));
}

#[test]
fn dispatch_at_wall_clock_stamps_records() {
    let mut reg = registry_with(&[("h1", 1)]);
    let batch = vec![(1u64, FeedEvent::Update(FeedValue::Number(80_000_000)))];
    let acts = process_batch_now(&mut reg, &batch);
    assert!(matches!(acts.last().unwrap(), Action::Flush));
    let rec = reg.get_record(1).unwrap();
    assert_eq!(rec.temperature, Some(80_000_000));
    assert!(rec.timestamp.is_some());
}

#[test]
fn empty_batch_still_flushes_once() {
    let mut reg = registry_with(&[("h1", 1)]);
    let batch: Vec<(u64, FeedEvent)> = Vec::new();
    let acts = process_batch(&mut reg, &batch, 0);
    assert_eq!(acts.len(), 1);
    assert!(matches!(acts[0], Action::Flush));
}

#[test]
fn missing_record_is_detectable_before_dispatch() {
    let reg = registry_with(&[("h1", 1)]);
    assert!(reg.has_record(1));
    assert!(!reg.has_record(2));
    assert!(reg.get_record(2).is_none());
}
