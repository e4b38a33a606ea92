use overtemp::actions::Action;
use overtemp::binder::bind_source;
use overtemp::discovery::discovery_step;
use overtemp::paths::{cpu_temp_path, extract_host, overtemp_path, overtemp_ts_path};
use overtemp::registry::SourceRegistry;
use overtemp::value::FeedValue;

#[test]
fn extract_host_second_segment() {
    assert_eq!(extract_host("/hw/h1/cpu-temp").as_deref(), Some("h1"));
    assert_eq!(extract_host("/hw/box-7/cpu-temp").as_deref(), Some("box-7"));
    assert_eq!(extract_host("hw/h1/x").as_deref(), Some("x"));
    assert_eq!(extract_host("/hw/h1").as_deref(), Some("h1"));
    assert_eq!(extract_host("/hw//cpu-temp").as_deref(), Some(""));
}

#[test]
fn extract_host_short_paths() {
    assert_eq!(extract_host(""), None);
    assert_eq!(extract_host("/hw"), None);
    assert_eq!(extract_host("hw"), None);
    assert_eq!(extract_host("/"), None);
}

#[test]
fn path_layout() {
    let h = String::from("h1");
    assert_eq!(cpu_temp_path(&h).as_str(), "/hw/h1/cpu-temp");
    assert_eq!(overtemp_ts_path(&h).as_str(), "/hw/h1/overtemp-ts");
    assert_eq!(overtemp_path(&h).as_str(), "/hw/h1/overtemp");
}

#[test]
fn input_path_round_trips_host() {
    let h = String::from("host-42");
    assert_eq!(extract_host(cpu_temp_path(&h).as_str()), Some(h));
}

#[test]
fn discovery_poll_registers_two_hosts() {
    let mut reg = SourceRegistry::new();
    let listing = ["/hw/h1/cpu-temp", "/hw/h2/cpu-temp"];
    let mut next_id: u64 = 1;
    let mut published: Vec<String> = Vec::new();
    for path in listing {
        match discovery_step(&reg, path) {
            Some(host) => {
                let acts = bind_source(&mut reg, &host, next_id);
                next_id += 1;
                assert_eq!(acts.len(), 2);
                for a in acts {
                    match a {
                        Action::Publish { path, value } => {
                            assert!(matches!(value, FeedValue::Null));
                            published.push(path);
                        }
                        _ => panic!("registration must only publish"),
                    }
                }
            }
            None => panic!("a fresh host must be selected"),
        }
    }
    assert_eq!(
        published,
        vec![
            String::from("/hw/h1/overtemp-ts"),
            String::from("/hw/h1/overtemp"),
            String::from("/hw/h2/overtemp-ts"),
            String::from("/hw/h2/overtemp"),
        ]
    );
    assert!(reg.is_known(&String::from("h1")));
    assert!(reg.is_known(&String::from("h2")));
    assert!(!reg.is_known(&String::from("h3")));
    assert!(reg.has_record(1));
    assert!(reg.has_record(2));
    let rec = reg.get_record(1).expect("record for h1's subscription");
    assert_eq!(rec.sub_id, 1);
    assert_eq!(rec.timestamp, None);
    assert_eq!(rec.temperature, None);
}

#[test]
fn known_host_is_never_reselected() {
    let mut reg = SourceRegistry::new();
    let host = discovery_step(&reg, "/hw/h1/cpu-temp").unwrap();
    bind_source(&mut reg, &host, 10);
    assert_eq!(discovery_step(&reg, "/hw/h1/cpu-temp"), None);
    let listing = ["/hw/h1/cpu-temp", "/hw/h1/cpu-temp", "/hw/h2/cpu-temp"];
    let mut registered: Vec<String> = Vec::new();
    let mut next_id: u64 = 11;
    for path in listing {
        if let Some(h) = discovery_step(&reg, path) {
            bind_source(&mut reg, &h, next_id);
            next_id += 1;
            registered.push(h);
        }
    }
    assert_eq!(registered, vec![String::from("h2")]);
}

#[test]
fn pathless_listing_entry_is_skipped() {
    let reg = SourceRegistry::new();
    assert_eq!(discovery_step(&reg, "/hw"), None);
    assert_eq!(discovery_step(&reg, "nonsense"), None);
}
