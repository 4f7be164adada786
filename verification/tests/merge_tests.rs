use plugin_host::config::ClusterConfig;
use plugin_host::domain::{AppState, SensorReading};
use plugin_host::error::HostError;
use plugin_host::orchestrator::{gather, monitor_reading, qualify, qualify_batch, tick, PollOutcome};
use plugin_host::plugin::Role;
use serde_json::{Number, Value};

fn climate(temperature: f64, humidity: f64) -> Value {
    let mut fields = serde_json::Map::new();
    fields.insert("temperature".to_string(), Value::from(temperature));
    fields.insert("humidity".to_string(), Value::from(humidity));
    Value::Object(fields)
}

fn reading(id: &str, at: u64, data: Value) -> SensorReading {
    SensorReading { sensor_id: id.to_string(), timestamp_ms: at, data }
}

fn cluster(role: &str, hub_url: &str, node_id: &str) -> ClusterConfig {
    ClusterConfig {
        role: role.to_string(),
        hub_url: hub_url.to_string(),
        node_id: node_id.to_string(),
    }
}

#[test]
fn merge_into_empty_state_then_same_sensor_again() {
    let mut state = AppState::default();
    assert_eq!(state.readings.len(), 0);
    assert_eq!(state.last_update, 0);

    state.merge(&vec![reading("dht22", 1000, climate(22.5, 45.0))], 1001);
    assert_eq!(state.readings.len(), 1);
    assert_eq!(state.readings[0].data, climate(22.5, 45.0));

    state.merge(&vec![reading("dht22", 2000, climate(23.0, 44.0))], 2001);
    assert_eq!(state.readings.len(), 1);
    assert_eq!(state.readings[0].sensor_id, "dht22");
    assert_eq!(state.readings[0].timestamp_ms, 2000);
    assert_eq!(state.readings[0].data, climate(23.0, 44.0));
    assert_eq!(state.last_update, 2001);
}

#[test]
fn peer_push_of_two_sensors_into_empty_hub() {
    let mut state = AppState::default();
    let batch = vec![
        reading("nodeA:dht22", 111, climate(20.0, 40.0)),
        reading("nodeA:bme680", 222, climate(21.0, 41.0)),
    ];
    state.merge(&batch, 999_999);
    assert_eq!(state.readings.len(), 2);
    let dht: Vec<_> = state.readings.iter().filter(|r| r.sensor_id == "nodeA:dht22").collect();
    let bme: Vec<_> = state.readings.iter().filter(|r| r.sensor_id == "nodeA:bme680").collect();
    assert_eq!(dht.len(), 1);
    assert_eq!(bme.len(), 1);
    assert_eq!(dht[0].data, climate(20.0, 40.0));
    assert_eq!(bme[0].data, climate(21.0, 41.0));
    assert_eq!(state.last_update, 999_999);
    assert_ne!(state.last_update, 111);
    assert_ne!(state.last_update, 222);
}

#[test]
fn two_merges_of_one_sensor_leave_one_entry_with_the_later_value() {
    let mut state = AppState::default();
    state.merge(&vec![reading("a", 1, Value::from(1)), reading("b", 1, Value::from(2))], 10);
    state.upsert(reading("a", 5, Value::from(50)));
    state.upsert(reading("a", 6, Value::from(60)));
    let hits: Vec<_> = state.readings.iter().filter(|r| r.sensor_id == "a").collect();
    assert_eq!(hits.len(), 1);
    assert_eq!(hits[0].timestamp_ms, 6);
    assert_eq!(hits[0].data, Value::from(60));
    assert_eq!(state.readings.len(), 2);
    // upsert leaves the time of the last merge alone
    assert_eq!(state.last_update, 10);
}

#[test]
fn merge_keeps_the_order_of_first_appearance() {
    let mut state = AppState::default();
    state.merge(
        &vec![
            reading("a", 1, Value::Null),
            reading("b", 2, Value::Null),
            reading("a", 3, Value::Bool(true)),
            reading("c", 4, Value::Null),
        ],
        7,
    );
    let ids: Vec<&str> = state.readings.iter().map(|r| r.sensor_id.as_str()).collect();
    assert_eq!(ids, vec!["a", "b", "c"]);
    assert_eq!(state.readings[0].timestamp_ms, 3);
    assert_eq!(state.readings[0].data, Value::Bool(true));
}

#[test]
fn merge_of_an_empty_batch_only_moves_the_time() {
    let mut state = AppState::default();
    state.merge(&vec![reading("a", 1, Value::Null)], 5);
    state.merge(&Vec::new(), 9);
    assert_eq!(state.readings.len(), 1);
    assert_eq!(state.last_update, 9);
}

#[test]
fn merging_different_sensors_in_either_order_holds_the_same_entries() {
    let mut one = AppState::default();
    one.upsert(reading("a", 1, Value::from(1)));
    one.upsert(reading("b", 2, Value::from(2)));
    let mut other = AppState::default();
    other.upsert(reading("b", 2, Value::from(2)));
    other.upsert(reading("a", 1, Value::from(1)));
    for id in ["a", "b", "c"] {
        let left = one.find(&id.to_string()).map(|i| one.readings[i].data.clone());
        let right = other.find(&id.to_string()).map(|i| other.readings[i].data.clone());
        assert_eq!(left, right);
    }
}

#[test]
fn find_gives_the_first_place_or_nothing() {
    let state = AppState {
        readings: vec![
            reading("x", 1, Value::Null),
            reading("y", 2, Value::Null),
            reading("x", 3, Value::Null),
        ],
        last_update: 0,
    };
    assert_eq!(state.find(&"x".to_string()), Some(0));
    assert_eq!(state.find(&"y".to_string()), Some(1));
    assert_eq!(state.find(&"z".to_string()), None);
}

#[test]
fn clone_of_a_reading_keeps_every_field() {
    let first = reading("dht22", 42, climate(1.5, 2.5));
    let copy = first.clone();
    assert_eq!(copy.sensor_id, "dht22");
    assert_eq!(copy.timestamp_ms, 42);
    assert_eq!(copy.data, climate(1.5, 2.5));
}

#[test]
fn qualify_puts_node_and_colon_first() {
    assert_eq!(qualify("pi4", "dht22"), "pi4:dht22");
    assert_eq!(qualify("", "x"), ":x");
    assert_eq!(qualify("node", ""), "node:");
}

#[test]
fn qualify_batch_changes_only_the_identifier() {
    let batch = vec![reading("dht22", 7, climate(1.0, 2.0)), reading("bme680", 8, Value::Null)];
    let out = qualify_batch("nodeA", &batch);
    assert_eq!(out.len(), 2);
    assert_eq!(out[0].sensor_id, "nodeA:dht22");
    assert_eq!(out[0].timestamp_ms, 7);
    assert_eq!(out[0].data, climate(1.0, 2.0));
    assert_eq!(out[1].sensor_id, "nodeA:bme680");
    assert_eq!(out[1].timestamp_ms, 8);
    // the input is left as it was
    assert_eq!(batch[0].sensor_id, "dht22");
}

#[test]
fn gather_skips_failed_polls_and_keeps_the_order() {
    let outcomes = vec![
        PollOutcome::Readings(vec![reading("dht22", 1, Value::Null)]),
        PollOutcome::Failed(HostError::Poll("trap".to_string())),
        PollOutcome::Readings(vec![
            reading("pi4-monitor", 2, Value::Null),
            reading("extra", 3, Value::Null),
        ]),
        PollOutcome::Readings(Vec::new()),
    ];
    let batch = gather(&outcomes);
    let ids: Vec<&str> = batch.iter().map(|r| r.sensor_id.as_str()).collect();
    assert_eq!(ids, vec!["dht22", "pi4-monitor", "extra"]);
    assert_eq!(gather(&Vec::new()).len(), 0);
}

#[test]
fn monitor_reading_is_filed_under_the_monitors_name() {
    let mut stats = serde_json::Map::new();
    stats.insert("uptime_seconds".to_string(), Value::Number(Number::from(3600u64)));
    let data = Value::Object(stats);
    let pi4 = monitor_reading(Role::Pi4Monitor, 5, data.clone()).unwrap();
    assert_eq!(pi4.sensor_id, "pi4-monitor");
    assert_eq!(pi4.timestamp_ms, 5);
    assert_eq!(pi4.data, data);
    let revpi = monitor_reading(Role::RevPiMonitor, 6, Value::Null).unwrap();
    assert_eq!(revpi.sensor_id, "revpi-monitor");
    assert!(monitor_reading(Role::PrimarySensor, 1, Value::Null).is_none());
    assert!(monitor_reading(Role::DashboardRenderer, 1, Value::Null).is_none());
}

#[test]
fn tick_of_a_spoke_merges_and_forwards() {
    let mut state = AppState::default();
    let polled = vec![reading("dht22", 10, climate(22.5, 45.0))];
    let report = tick(&mut state, &cluster("spoke", "http://hub:3000/push", "pi4"), &polled, 77);
    assert!(report.forward);
    assert_eq!(report.batch.len(), 1);
    assert_eq!(report.batch[0].sensor_id, "pi4:dht22");
    assert_eq!(state.readings.len(), 1);
    assert_eq!(state.readings[0].sensor_id, "pi4:dht22");
    assert_eq!(state.readings[0].data, climate(22.5, 45.0));
    assert_eq!(state.last_update, 77);
}

#[test]
fn tick_forwards_only_from_a_spoke_that_knows_its_hub() {
    let polled = vec![reading("dht22", 10, Value::Null)];
    let mut state = AppState::default();
    assert!(!tick(&mut state, &cluster("hub", "http://hub", "n"), &polled, 1).forward);
    assert!(!tick(&mut state, &cluster("standalone", "http://hub", "n"), &polled, 2).forward);
    assert!(!tick(&mut state, &cluster("spoke", "", "n"), &polled, 3).forward);
    assert!(!tick(&mut state, &cluster("Spoke", "http://hub", "n"), &polled, 4).forward);
    assert!(tick(&mut state, &cluster("spoke", "http://hub", "n"), &polled, 5).forward);
    assert_eq!(state.readings.len(), 1);
    assert_eq!(state.last_update, 5);
}

#[test]
fn tick_without_readings_leaves_the_state_alone() {
    let mut state = AppState::default();
    tick(&mut state, &cluster("spoke", "http://hub", "n"), &vec![reading("a", 1, Value::Null)], 5);
    let report = tick(&mut state, &cluster("spoke", "http://hub", "n"), &Vec::new(), 9);
    assert!(!report.forward);
    assert!(report.batch.is_empty());
    assert_eq!(state.readings.len(), 1);
    assert_eq!(state.last_update, 5);
}

#[test]
fn clone_of_the_state_keeps_readings_and_time() {
    let mut state = AppState::default();
    state.merge(&vec![reading("a", 1, climate(1.0, 2.0)), reading("b", 2, Value::Null)], 9);
    let copy = state.clone();
    assert_eq!(copy.last_update, 9);
    assert_eq!(copy.readings.len(), 2);
    assert_eq!(copy.readings[0].sensor_id, "a");
    assert_eq!(copy.readings[0].data, climate(1.0, 2.0));
    assert_eq!(copy.readings[1].sensor_id, "b");
    assert_eq!(copy.readings[1].timestamp_ms, 2);
    // the copy is its own
    state.upsert(reading("c", 3, Value::Null));
    assert_eq!(copy.readings.len(), 2);
    assert_eq!(state.readings.len(), 3);
}
