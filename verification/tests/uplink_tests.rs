//! Uplink buffering: FIFO order, the spill of the oldest record when the
//! buffer is full, the drain on link recovery, the startup prepend, and
//! the record framing.

use ems_control::uplink::{frame_record, MqttConfig, UplinkQueue};

#[test]
fn frame_record_joins_timestamp_and_payload() {
    let r = frame_record("2024-05-01T10:00:00Z", "{\"soc\":55}");
    assert_eq!(r, "2024-05-01T10:00:00Z:{\"soc\":55}");
}

#[test]
fn mqtt_config_defaults() {
    let c = MqttConfig::default();
    assert_eq!(c.broker, "localhost");
    assert_eq!(c.port, 1883);
    assert_eq!(c.client_id, "ems_client");
    assert_eq!(c.keep_alive_secs, 30);
    assert_eq!(c.max_inflight, 10);
}

#[test]
fn queue_keeps_arrival_order_below_capacity() {
    let mut q = UplinkQueue::new(3);
    assert_eq!(q.enqueue(String::from("a")), None);
    assert_eq!(q.enqueue(String::from("b")), None);
    assert_eq!(q.enqueue(String::from("c")), None);
    assert_eq!(q.len(), 3);
    assert_eq!(q.drain(), vec!["a", "b", "c"]);
    assert_eq!(q.len(), 0);
}

#[test]
fn full_queue_spills_its_oldest_record() {
    let mut q = UplinkQueue::new(2);
    assert_eq!(q.enqueue(String::from("a")), None);
    assert_eq!(q.enqueue(String::from("b")), None);
    assert_eq!(q.enqueue(String::from("c")), Some(String::from("a")));
    assert_eq!(q.enqueue(String::from("d")), Some(String::from("b")));
    assert_eq!(q.drain(), vec!["c", "d"]);
}

#[test]
fn zero_capacity_queue_spills_everything() {
    let mut q = UplinkQueue::new(0);
    assert_eq!(q.enqueue(String::from("a")), Some(String::from("a")));
    assert_eq!(q.len(), 0);
}

#[test]
fn recovered_records_go_to_the_front() {
    let mut q = UplinkQueue::new(10);
    q.enqueue(String::from("live-1"));
    q.enqueue(String::from("live-2"));
    q.prepend(vec![String::from("spill-1"), String::from("spill-2")]);
    assert_eq!(q.drain(), vec!["spill-1", "spill-2", "live-1", "live-2"]);
}

#[test]
fn drain_empties_and_keeps_capacity() {
    let mut q = UplinkQueue::new(2);
    q.enqueue(String::from("a"));
    let _ = q.drain();
    // Room for two again before anything spills.
    assert_eq!(q.enqueue(String::from("b")), None);
    assert_eq!(q.enqueue(String::from("c")), None);
    assert_eq!(q.enqueue(String::from("d")), Some(String::from("b")));
}
