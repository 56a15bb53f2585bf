use tap_bridge::ble::central::{find_target, BLECentral, CentralPhase};
use tap_bridge::ble::{BLEComm, Device, Event, Outgoing, Task};
use tap_bridge::blep::ConnectionStatus;
use tap_bridge::error::Error;
use tap_bridge::message::Message;

const PEER: u128 = 0x42;

fn device(address: &str, ids: &[u128]) -> Device {
    Device { address: address.to_string(), service_data: ids.to_vec() }
}

fn scanning() -> BLECentral {
    let mut central = BLECentral::new(PEER);
    assert_eq!(central.connect(), Ok(Task::Discover { timeout_ms: 3000 }));
    assert_eq!(central.on(Event::DiscoverStarted(Ok(()))), Ok(Task::AwaitDevices));
    central
}

fn subscribing() -> BLECentral {
    let mut central = scanning();
    let found = central.on(Event::Devices(vec![device("AA:BB", &[PEER])]));
    assert_eq!(found, Ok(Task::Link { address: "AA:BB".to_string() }));
    assert_eq!(central.on(Event::Linked(Ok(()))), Ok(Task::Subscribe { uuid: PEER }));
    central
}

#[test]
fn a_new_initiator_is_idle() {
    let central = BLECentral::new(PEER);
    assert_eq!(central, BLECentral { uuid: PEER, phase: CentralPhase::Idle });
    assert!(!central.is_connected());
}

#[test]
fn connecting_starts_with_a_scan_of_three_seconds() {
    let mut central = BLECentral::new(PEER);
    assert_eq!(central.connect(), Ok(Task::Discover { timeout_ms: 3000 }));
    assert_eq!(central.phase, CentralPhase::Discovering);
}

#[test]
fn the_initiator_connects_step_by_step() {
    let mut central = subscribing();
    assert_eq!(central.phase, CentralPhase::Subscribing);
    assert!(!central.is_connected());
    let done = central.on(Event::Subscribed { outcome: Ok(()), connected: true });
    assert_eq!(done, Ok(Task::Forward));
    assert_eq!(central.phase, CentralPhase::Connected);
    assert!(central.is_connected());
}

#[test]
fn the_first_device_that_advertises_the_peer_is_the_target() {
    let devices = vec![
        device("00", &[]),
        device("01", &[1, 2, 3]),
        device("02", &[7, PEER]),
        device("03", &[PEER]),
    ];
    assert_eq!(find_target(&devices, PEER), Some(2));
    assert_eq!(find_target(&devices, 3), Some(1));
    assert_eq!(find_target(&devices, 9), None);
    assert_eq!(find_target(&Vec::new(), PEER), None);

    let mut central = scanning();
    assert_eq!(central.on(Event::Devices(devices)), Ok(Task::Link { address: "02".to_string() }));
    assert_eq!(central.phase, CentralPhase::Linking);
}

#[test]
fn a_scan_goes_on_while_the_peer_is_not_seen() {
    let mut central = scanning();
    assert_eq!(central.on(Event::Devices(vec![device("00", &[1])])), Ok(Task::AwaitDevices));
    assert_eq!(central.on(Event::Devices(Vec::new())), Ok(Task::AwaitDevices));
    assert_eq!(central.phase, CentralPhase::Scanning);
    assert_eq!(
        central.on(Event::Devices(vec![device("09", &[PEER])])),
        Ok(Task::Link { address: "09".to_string() })
    );
}

#[test]
fn a_refused_scan_is_reported() {
    let mut central = BLECentral::new(PEER);
    central.connect().unwrap();
    assert_eq!(
        central.on(Event::DiscoverStarted(Err("radio off".to_string()))),
        Err(Error::BleCentralDiscover("radio off".to_string()))
    );
    assert_eq!(central.phase, CentralPhase::Idle);
}

#[test]
fn a_scan_that_ends_without_the_peer_is_reported() {
    let mut central = scanning();
    assert_eq!(central.on(Event::ScanEnded), Err(Error::BleCentralDeviceNotFound));
    assert_eq!(central.phase, CentralPhase::Idle);
}

#[test]
fn a_failed_connection_is_reported() {
    let mut central = scanning();
    central.on(Event::Devices(vec![device("AA", &[PEER])])).unwrap();
    assert_eq!(
        central.on(Event::Linked(Err("timeout".to_string()))),
        Err(Error::BleCentralConnect("timeout".to_string()))
    );
    assert_eq!(central.phase, CentralPhase::Idle);
}

#[test]
fn a_failed_subscription_is_reported() {
    let mut central = subscribing();
    assert_eq!(
        central.on(Event::Subscribed { outcome: Err("no service".to_string()), connected: true }),
        Err(Error::BleCentralSubscribe("no service".to_string()))
    );
    assert_eq!(central.phase, CentralPhase::Idle);
}

#[test]
fn a_subscription_without_a_connection_means_that_the_peer_was_not_found() {
    let mut central = subscribing();
    assert_eq!(
        central.on(Event::Subscribed { outcome: Ok(()), connected: false }),
        Err(Error::BleCentralDeviceNotFound)
    );
    assert_eq!(central.phase, CentralPhase::Idle);
}

#[test]
fn an_event_out_of_turn_changes_nothing() {
    let mut idle = BLECentral::new(PEER);
    assert_eq!(idle.on(Event::ScanEnded), Ok(Task::Rest));
    assert_eq!(idle.on(Event::Devices(vec![device("AA", &[PEER])])), Ok(Task::Rest));
    assert_eq!(idle.on(Event::Linked(Err("x".to_string()))), Ok(Task::Rest));
    assert_eq!(idle, BLECentral::new(PEER));

    let mut central = scanning();
    assert_eq!(central.on(Event::Linked(Ok(()))), Ok(Task::Rest));
    assert_eq!(
        central.on(Event::Subscribed { outcome: Ok(()), connected: true }),
        Ok(Task::Rest)
    );
    assert_eq!(central.on(Event::DiscoverStarted(Ok(()))), Ok(Task::Rest));
    assert_eq!(central.phase, CentralPhase::Scanning);
}

#[test]
fn the_initiator_notices_that_the_peer_left() {
    let mut central = subscribing();
    central.on(Event::Subscribed { outcome: Ok(()), connected: true }).unwrap();
    assert_eq!(central.on(Event::StatusChanged(ConnectionStatus::Connected)), Ok(Task::Rest));
    assert!(central.is_connected());
    assert_eq!(central.on(Event::StatusChanged(ConnectionStatus::Disconnected)), Ok(Task::Rest));
    assert!(!central.is_connected());
    assert_eq!(central.phase, CentralPhase::Idle);
}

#[test]
fn the_initiator_may_start_over_after_a_failure() {
    let mut central = scanning();
    assert!(central.on(Event::ScanEnded).is_err());
    assert_eq!(central.connect(), Ok(Task::Discover { timeout_ms: 3000 }));
    assert_eq!(central.on(Event::DiscoverStarted(Ok(()))), Ok(Task::AwaitDevices));
}

#[test]
fn the_initiator_writes_the_wire_form_to_the_peer() {
    let central = BLECentral::new(PEER);
    assert_eq!(
        central.send(&Message::Disposable("hello".to_string())),
        Outgoing::Write { uuid: PEER, payload: b"{\"Disposable\":\"hello\"}".to_vec() }
    );
    assert_eq!(
        central.send(&Message::Empty),
        Outgoing::Write { uuid: PEER, payload: b"\"Empty\"".to_vec() }
    );
    assert_eq!(
        central.send(&Message::Seal("é".to_string())),
        Outgoing::Write { uuid: PEER, payload: "{\"Seal\":\"é\"}".as_bytes().to_vec() }
    );
}

#[test]
fn a_refused_write_is_reported() {
    assert_eq!(BLECentral::sent(Ok(())), Ok(()));
    assert_eq!(
        BLECentral::sent(Err("gone".to_string())),
        Err(Error::BleCenteralSendDataFailed("gone".to_string()))
    );
}
