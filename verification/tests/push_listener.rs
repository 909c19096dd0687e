use std::cell::RefCell;
use std::rc::Rc;

use wiz_lights_rs::DiscoveredBulb;
use wiz_lights_rs::Dispatch;
use wiz_lights_rs::DiscoveryCallback;
use wiz_lights_rs::Error;
use wiz_lights_rs::Ipv4;
use wiz_lights_rs::PushManager;
use wiz_lights_rs::StateCallback;
use wiz_lights_rs::generate_mac;
use wiz_lights_rs::push::SendPort;

struct NoopState;

impl StateCallback for NoopState {
    fn on_state(&self, _mac: &str, _params: &str) {}
}

struct NoopDiscovery;

impl DiscoveryCallback for NoopDiscovery {
    fn on_discover(&self, _bulb: DiscoveredBulb) {}
}

struct RecordingState {
    calls: Rc<RefCell<Vec<(String, String)>>>,
}

impl StateCallback for RecordingState {
    fn on_state(&self, mac: &str, params: &str) {
        self.calls.borrow_mut().push((mac.to_string(), params.to_string()));
    }
}

struct RecordingDiscovery {
    seen: Rc<RefCell<Vec<(Ipv4, String)>>>,
}

impl DiscoveryCallback for RecordingDiscovery {
    fn on_discover(&self, bulb: DiscoveredBulb) {
        self.seen.borrow_mut().push((bulb.ip, bulb.mac));
    }
}

struct RecordingSendPort {
    sent: Vec<(Ipv4, u16, String)>,
}

impl SendPort for RecordingSendPort {
    fn send_to(&mut self, ip: Ipv4, port: u16, message: &str) -> Result<(), Error> {
        self.sent.push((ip, port, message.to_string()));
        Ok(())
    }
}

#[test]
fn test_push_manager_new() {
    let manager: PushManager<NoopState, NoopDiscovery> = PushManager::new();
    assert!(!manager.is_running());
}

#[test]
fn test_subscribe_unsubscribe() {
    let mut manager: PushManager<NoopState, NoopDiscovery> = PushManager::new();
    manager.subscribe("AABBCCDDEEFF", NoopState);
    assert_eq!(manager.diagnostics(0).subscription_count, 1);
    manager.unsubscribe("AABBCCDDEEFF");
    assert_eq!(manager.diagnostics(0).subscription_count, 0);
}

#[test]
fn test_generate_mac() {
    let mac = generate_mac();
    assert_eq!(mac.len(), 12);
    assert!(mac.chars().all(|c| c.is_ascii_hexdigit()));
}

#[test]
fn sync_pilot_reaches_subscriber_case_insensitively() {
    let calls = Rc::new(RefCell::new(Vec::new()));
    let mut manager: PushManager<RecordingState, NoopDiscovery> = PushManager::new();
    manager.subscribe("AABBCCDDEEFF", RecordingState { calls: calls.clone() });

    let datagram =
        b"{\"method\":\"syncPilot\",\"params\":{\"mac\":\"aabbccddeeff\",\"state\":true,\"dimming\":42}}";
    let dispatch = manager.handle_datagram(datagram, Some(Ipv4::new(192, 168, 1, 5)), 1000);

    assert!(matches!(dispatch, Dispatch::State { .. }));
    let recorded = calls.borrow();
    assert_eq!(recorded.len(), 1);
    assert_eq!(recorded[0].0, "AABBCCDDEEFF");
    let params: serde_json::Value = serde_json::from_str(&recorded[0].1).unwrap();
    assert_eq!(params.get("mac").and_then(|m| m.as_str()), Some("aabbccddeeff"));
    assert_eq!(params.get("dimming").and_then(|d| d.as_u64()), Some(42));
}

#[test]
fn unsubscribed_identifier_reaches_nobody() {
    let calls = Rc::new(RefCell::new(Vec::new()));
    let mut manager: PushManager<RecordingState, NoopDiscovery> = PushManager::new();
    manager.subscribe("AABBCCDDEEFF", RecordingState { calls: calls.clone() });
    manager.unsubscribe("aabbccddeeff");

    let datagram = b"{\"method\":\"syncPilot\",\"params\":{\"mac\":\"aabbccddeeff\"}}";
    let dispatch = manager.handle_datagram(datagram, Some(Ipv4::new(192, 168, 1, 5)), 1000);

    assert!(matches!(dispatch, Dispatch::NoSubscriber));
    assert_eq!(calls.borrow().len(), 0);
}

#[test]
fn test_sentinel_skips_decoding_but_freshens_liveness() {
    let calls = Rc::new(RefCell::new(Vec::new()));
    let mut manager: PushManager<RecordingState, NoopDiscovery> = PushManager::new();
    manager.subscribe("AABBCCDDEEFF", RecordingState { calls: calls.clone() });

    assert!(manager.diagnostics(500).time_since_last_push_ms.is_none());
    let dispatch = manager.handle_datagram(b"test", Some(Ipv4::new(10, 0, 0, 9)), 400);
    assert!(matches!(dispatch, Dispatch::Probe));
    assert_eq!(calls.borrow().len(), 0);
    assert_eq!(manager.diagnostics(1000).time_since_last_push_ms, Some(600));
}

#[test]
fn first_beat_reaches_discovery_callback() {
    let seen = Rc::new(RefCell::new(Vec::new()));
    let mut manager: PushManager<NoopState, RecordingDiscovery> = PushManager::new();
    manager.set_discovery_callback(RecordingDiscovery { seen: seen.clone() });

    let datagram = b"{\"method\":\"firstBeat\",\"params\":{\"mac\":\"a1b2c3d4e5f6\"}}";
    let source = Ipv4::new(192, 168, 1, 77);
    let dispatch = manager.handle_datagram(datagram, Some(source), 5);

    assert!(matches!(dispatch, Dispatch::Discovery { .. }));
    let recorded = seen.borrow();
    assert_eq!(recorded.len(), 1);
    assert_eq!(recorded[0].0, source);
    assert_eq!(recorded[0].1, "A1B2C3D4E5F6");
}

#[test]
fn non_ipv4_source_is_ignored() {
    let calls = Rc::new(RefCell::new(Vec::new()));
    let mut manager: PushManager<RecordingState, NoopDiscovery> = PushManager::new();
    manager.subscribe("AABBCCDDEEFF", RecordingState { calls: calls.clone() });

    let datagram = b"{\"method\":\"syncPilot\",\"params\":{\"mac\":\"aabbccddeeff\"}}";
    let dispatch = manager.handle_datagram(datagram, None, 7);
    assert!(matches!(dispatch, Dispatch::Ignored));
    assert_eq!(calls.borrow().len(), 0);
}

#[test]
fn malformed_datagrams_are_ignored() {
    let mut manager: PushManager<NoopState, NoopDiscovery> = PushManager::new();
    let src = Some(Ipv4::new(10, 0, 0, 1));
    assert!(matches!(manager.handle_datagram(b"{not json", src, 1), Dispatch::Ignored));
    assert!(matches!(manager.handle_datagram(&[0xff, 0xfe, 0x80], src, 2), Dispatch::Ignored));
    assert!(matches!(
        manager.handle_datagram(b"{\"method\":\"syncPilot\"}", src, 3),
        Dispatch::Ignored
    ));
    assert!(matches!(
        manager.handle_datagram(b"{\"method\":\"whoKnows\",\"params\":{\"mac\":\"ab\"}}", src, 4),
        Dispatch::Ignored
    ));
}

#[test]
fn test_stop_is_idempotent() {
    let mut manager: PushManager<NoopState, NoopDiscovery> = PushManager::new();
    manager.start(Ipv4::new(192, 168, 1, 100));
    assert!(manager.diagnostics(0).running);
    manager.stop();
    assert!(!manager.diagnostics(0).running);
    manager.stop();
    assert!(!manager.diagnostics(0).running);
}

#[test]
fn test_register_bulb_before_start_fails() {
    let manager: PushManager<NoopState, NoopDiscovery> = PushManager::new();
    let mut port = RecordingSendPort { sent: Vec::new() };
    let result = manager.register_bulb(&mut port, Ipv4::new(192, 168, 1, 44));
    assert!(matches!(result, Err(Error::NotStarted)));
    assert!(port.sent.is_empty());
}

#[test]
fn register_bulb_after_start_sends_registration() {
    let mut manager: PushManager<NoopState, NoopDiscovery> = PushManager::new();
    manager.start(Ipv4::new(192, 168, 1, 100));
    let mut port = RecordingSendPort { sent: Vec::new() };
    manager.register_bulb(&mut port, Ipv4::new(192, 168, 1, 44)).unwrap();

    assert_eq!(port.sent.len(), 1);
    let (ip, port_no, message) = &port.sent[0];
    assert_eq!(*ip, Ipv4::new(192, 168, 1, 44));
    assert_eq!(*port_no, 38899);
    let value: serde_json::Value = serde_json::from_str(message).unwrap();
    assert_eq!(value.get("method").and_then(|m| m.as_str()), Some("registration"));
    let params = value.get("params").unwrap();
    assert_eq!(params.get("phoneIp").and_then(|p| p.as_str()), Some("192.168.1.100"));
    assert_eq!(params.get("register").and_then(|r| r.as_bool()), Some(true));
    let phone_mac = params.get("phoneMac").and_then(|m| m.as_str()).unwrap();
    assert_eq!(phone_mac.len(), 12);
    assert!(phone_mac.chars().all(|c| c.is_ascii_hexdigit()));
}

#[test]
fn start_while_running_changes_nothing() {
    let mut manager: PushManager<NoopState, NoopDiscovery> = PushManager::new();
    manager.start(Ipv4::new(10, 0, 0, 2));
    let first = manager.registration_message().unwrap().clone();
    manager.start(Ipv4::new(172, 16, 0, 1));
    assert_eq!(manager.registration_message().unwrap(), &first);
}

#[test]
fn subscribe_is_an_idempotent_upsert() {
    let mut manager: PushManager<NoopState, NoopDiscovery> = PushManager::new();
    manager.subscribe("aabbccddeeff", NoopState);
    manager.subscribe("AABBCCDDEEFF", NoopState);
    assert_eq!(manager.diagnostics(0).subscription_count, 1);
}

#[test]
fn socket_errors_become_diagnostics() {
    let mut manager: PushManager<NoopState, NoopDiscovery> = PushManager::new();
    assert!(manager.diagnostics(0).last_error.is_none());
    manager.note_error("recv failed");
    assert_eq!(manager.diagnostics(0).last_error.as_deref(), Some("recv failed"));
}
