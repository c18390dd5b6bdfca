use sensor_link::host::CharacteristicInfo;
use sensor_link::host::HostConfig;
use sensor_link::host::MetricsGauge;
use sensor_link::host::OpOutcome;
use sensor_link::host::PeripheralInfo;
use sensor_link::host::ReceiveOutcome;
use sensor_link::host::DiscoverOutcome;
use sensor_link::host::Session;
use sensor_link::host::SessionAction;
use sensor_link::host::SessionEnd;
use sensor_link::host::SessionPhase;
use sensor_link::host::select_characteristic;
use sensor_link::host::uuid_from_alias;
use sensor_link::text::str_contains;

fn config() -> HostConfig {
    HostConfig {
        name_filter: String::from("MicroBit"),
        target_uuid: uuid_from_alias(0xbabe),
        deadline_ms: 25_000,
        scan_dwell_ms: 2_000,
    }
}

#[test]
fn alias_expands_into_bluetooth_base_uuid() {
    assert_eq!(uuid_from_alias(0xbabe), 0x0000babe_0000_1000_8000_00805f9b34fb);
    // and agrees with the uuid crate's rendering of the same identity
    let u = uuid::Uuid::from_u128(uuid_from_alias(0xbabe));
    assert_eq!(u.to_string(), "0000babe-0000-1000-8000-00805f9b34fb");
}

#[test]
fn name_filter_is_substring_containment() {
    assert!(str_contains("MicroBit-7", "MicroBit"));
    assert!(str_contains("MicroBit", "MicroBit"));
    assert!(str_contains("xxMicroBitxx", "MicroBit"));
    assert!(!str_contains("OtherDevice", "MicroBit"));
    assert!(!str_contains("microbit", "MicroBit"));
    assert!(!str_contains("Micro", "MicroBit"));
    assert!(str_contains("anything", ""));
}

#[test]
fn matching_unconnected_peripheral_gets_a_bounded_connect() {
    // discovered as "MicroBit-7", not yet connected; the connect resolves
    // well inside the deadline, so the session proceeds to discovery
    let cfg = config();
    let p = PeripheralInfo { name: Some(String::from("MicroBit-7")), is_connected: false };
    let (mut s, a) = Session::start(&cfg, &p);
    assert_eq!(s.phase, SessionPhase::Connecting);
    assert_eq!(a, SessionAction::Connect);
    let (outcome, returned_ms) = sensor_link::deadline::resolve_bounded(cfg.deadline_ms, Some(1_000));
    assert_eq!(outcome, sensor_link::deadline::BoundedOutcome::Completed { elapsed_ms: 1_000 });
    assert!(returned_ms < cfg.deadline_ms);
    let a = s.on_connect(OpOutcome::Done);
    assert_eq!(s.phase, SessionPhase::Discovering);
    assert_eq!(a, SessionAction::DiscoverServices);
}

#[test]
fn non_matching_peripheral_is_skipped_without_connect() {
    let cfg = config();
    let p = PeripheralInfo { name: Some(String::from("OtherDevice")), is_connected: false };
    let (s, a) = Session::start(&cfg, &p);
    assert_eq!(s.phase, SessionPhase::Finished { end: SessionEnd::SkippedName });
    assert_eq!(a, SessionAction::MoveOn);
}

#[test]
fn nameless_peripheral_is_skipped() {
    let cfg = config();
    let p = PeripheralInfo { name: None, is_connected: false };
    let (s, a) = Session::start(&cfg, &p);
    assert_eq!(s.phase, SessionPhase::Finished { end: SessionEnd::SkippedName });
    assert_eq!(a, SessionAction::MoveOn);
}

#[test]
fn already_connected_peripheral_goes_straight_to_discovery() {
    let cfg = config();
    let p = PeripheralInfo { name: Some(String::from("MicroBit-7")), is_connected: true };
    let (s, a) = Session::start(&cfg, &p);
    assert_eq!(s.phase, SessionPhase::Discovering);
    assert_eq!(a, SessionAction::DiscoverServices);
}

#[test]
fn connect_past_deadline_skips_to_next_peripheral() {
    // the connect attempt exceeds the deadline: aborted, peripheral
    // skipped, the scan attempt proceeds
    let cfg = config();
    let p = PeripheralInfo { name: Some(String::from("MicroBit-7")), is_connected: false };
    let (mut s, _) = Session::start(&cfg, &p);
    let (outcome, returned_ms) = sensor_link::deadline::resolve_bounded(cfg.deadline_ms, Some(30_000));
    assert_eq!(outcome, sensor_link::deadline::BoundedOutcome::TimedOut);
    assert_eq!(returned_ms, cfg.deadline_ms);
    let a = s.on_connect(OpOutcome::TimedOut);
    assert_eq!(s.phase, SessionPhase::Finished { end: SessionEnd::SkippedConnect });
    assert_eq!(a, SessionAction::MoveOn);
}

#[test]
fn connect_rejection_also_skips() {
    let cfg = config();
    let p = PeripheralInfo { name: Some(String::from("MicroBit-7")), is_connected: false };
    let (mut s, _) = Session::start(&cfg, &p);
    let a = s.on_connect(OpOutcome::Failed);
    assert_eq!(s.phase, SessionPhase::Finished { end: SessionEnd::SkippedConnect });
    assert_eq!(a, SessionAction::MoveOn);
}

#[test]
fn subscribes_only_to_the_configured_identity() {
    let cfg = config();
    // a foreign characteristic advertising notify does not get subscribed
    let foreign = CharacteristicInfo { uuid: uuid_from_alias(0xcafe), can_notify: true };
    assert_eq!(select_characteristic(cfg.target_uuid, &vec![foreign]), None);
    // the configured identity without notify capability does not either
    let mute = CharacteristicInfo { uuid: cfg.target_uuid, can_notify: false };
    assert_eq!(select_characteristic(cfg.target_uuid, &vec![mute]), None);
    // the configured identity with notify is picked, skipping both
    let target = CharacteristicInfo { uuid: cfg.target_uuid, can_notify: true };
    assert_eq!(select_characteristic(cfg.target_uuid, &vec![foreign, mute, target]), Some(2));
    // of several candidates, the first in discovery order wins
    assert_eq!(select_characteristic(cfg.target_uuid, &vec![target, target]), Some(0));
}

#[test]
fn discovery_without_target_disconnects_without_subscribing() {
    let cfg = config();
    let p = PeripheralInfo { name: Some(String::from("MicroBit-7")), is_connected: true };
    let (mut s, _) = Session::start(&cfg, &p);
    let foreign = CharacteristicInfo { uuid: uuid_from_alias(0xcafe), can_notify: true };
    let a = s.on_discover(&cfg, DiscoverOutcome::Found(vec![foreign]));
    assert_eq!(s.phase, SessionPhase::Disconnecting { end: SessionEnd::NoCharacteristic });
    assert_eq!(a, SessionAction::Disconnect);
}

#[test]
fn notification_decodes_and_sets_the_gauge() {
    // payload [0x34, 0x12] decodes to 0x1234 == 4660; the gauge reads 4660.0
    let cfg = config();
    let p = PeripheralInfo { name: Some(String::from("MicroBit-7")), is_connected: false };
    let (mut s, _) = Session::start(&cfg, &p);
    s.on_connect(OpOutcome::Done);
    let target = CharacteristicInfo { uuid: cfg.target_uuid, can_notify: true };
    let a = s.on_discover(&cfg, DiscoverOutcome::Found(vec![target]));
    assert_eq!(a, SessionAction::Subscribe { uuid: cfg.target_uuid });
    let a = s.on_subscribe(OpOutcome::Done);
    assert_eq!(a, SessionAction::AwaitNotification);
    let a = s.on_receive(&cfg, ReceiveOutcome::Notified {
        uuid: cfg.target_uuid,
        payload: vec![0x34, 0x12],
    });
    assert_eq!(a, SessionAction::PublishMetric { value: 4660 });
    let mut gauge = MetricsGauge::new();
    if let SessionAction::PublishMetric { value } = a {
        gauge.set(value);
    }
    assert_eq!(gauge.value, 4660);
    assert_eq!(gauge.value as f64, 4660.0);
}

#[test]
fn malformed_payload_is_dropped_and_the_loop_continues() {
    let cfg = config();
    let p = PeripheralInfo { name: Some(String::from("MicroBit-7")), is_connected: true };
    let (mut s, _) = Session::start(&cfg, &p);
    let target = CharacteristicInfo { uuid: cfg.target_uuid, can_notify: true };
    s.on_discover(&cfg, DiscoverOutcome::Found(vec![target]));
    s.on_subscribe(OpOutcome::Done);
    let a = s.on_receive(&cfg, ReceiveOutcome::Notified {
        uuid: cfg.target_uuid,
        payload: vec![0x34],
    });
    assert_eq!(s.phase, SessionPhase::Receiving);
    assert_eq!(a, SessionAction::AwaitNotification);
}

#[test]
fn foreign_notification_is_not_decoded() {
    // a notification whose identity differs from the configured target
    // is dropped, not decoded
    let cfg = config();
    let p = PeripheralInfo { name: Some(String::from("MicroBit-7")), is_connected: true };
    let (mut s, _) = Session::start(&cfg, &p);
    let target = CharacteristicInfo { uuid: cfg.target_uuid, can_notify: true };
    s.on_discover(&cfg, DiscoverOutcome::Found(vec![target]));
    s.on_subscribe(OpOutcome::Done);
    let a = s.on_receive(&cfg, ReceiveOutcome::Notified {
        uuid: uuid_from_alias(0xcafe),
        payload: vec![0x34, 0x12],
    });
    assert_eq!(s.phase, SessionPhase::Receiving);
    assert_eq!(a, SessionAction::AwaitNotification);
}

#[test]
fn receive_timeout_is_the_clean_end_of_a_session() {
    let cfg = config();
    let p = PeripheralInfo { name: Some(String::from("MicroBit-7")), is_connected: true };
    let (mut s, _) = Session::start(&cfg, &p);
    let target = CharacteristicInfo { uuid: cfg.target_uuid, can_notify: true };
    s.on_discover(&cfg, DiscoverOutcome::Found(vec![target]));
    s.on_subscribe(OpOutcome::Done);
    let a = s.on_receive(&cfg, ReceiveOutcome::TimedOut);
    assert_eq!(s.phase, SessionPhase::Disconnecting { end: SessionEnd::Completed });
    assert_eq!(a, SessionAction::Disconnect);
    // the disconnect's own outcome makes no difference
    let a = s.on_disconnect(OpOutcome::TimedOut);
    assert_eq!(s.phase, SessionPhase::Finished { end: SessionEnd::Completed });
    assert_eq!(a, SessionAction::MoveOn);
}

#[test]
fn gauge_keeps_its_last_value_across_sessions() {
    let mut gauge = MetricsGauge::new();
    assert_eq!(gauge.value, 0);
    gauge.set(4660);
    gauge.set(7);
    // a session ending resets nothing: the gauge holds the last decode
    assert_eq!(gauge.value, 7);
}

#[test]
fn failed_subscribe_is_a_hard_error_for_this_peripheral_only() {
    let cfg = config();
    let p = PeripheralInfo { name: Some(String::from("MicroBit-7")), is_connected: true };
    let (mut s, _) = Session::start(&cfg, &p);
    let target = CharacteristicInfo { uuid: cfg.target_uuid, can_notify: true };
    s.on_discover(&cfg, DiscoverOutcome::Found(vec![target]));
    let a = s.on_subscribe(OpOutcome::TimedOut);
    assert_eq!(s.phase, SessionPhase::Disconnecting { end: SessionEnd::Failed });
    assert_eq!(a, SessionAction::Disconnect);
    let a = s.on_disconnect(OpOutcome::Done);
    assert_eq!(s.phase, SessionPhase::Finished { end: SessionEnd::Failed });
    assert_eq!(a, SessionAction::MoveOn);
}

#[test]
fn failed_discovery_disconnects() {
    let cfg = config();
    let p = PeripheralInfo { name: Some(String::from("MicroBit-7")), is_connected: true };
    let (mut s, _) = Session::start(&cfg, &p);
    let a = s.on_discover(&cfg, DiscoverOutcome::TimedOut);
    assert_eq!(s.phase, SessionPhase::Disconnecting { end: SessionEnd::Failed });
    assert_eq!(a, SessionAction::Disconnect);
}
