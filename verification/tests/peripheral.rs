use tap_bridge::ble::peripheral::BLEPeripheral;
use tap_bridge::ble::{BLEComm, Event, Outgoing, Task};
use tap_bridge::blep::{
    advertised_identifier, unwrap_message, ConnectionStatus, RecvData, RequestPermission,
    SendRequest, SendResponse,
};
use tap_bridge::error::Error;
use tap_bridge::json::Json;
use tap_bridge::message::Message;

const LOCAL: u128 = 0x0102_0304_0506_0708_090a_0b0c_0d0e_0f10;

fn advertising() -> BLEPeripheral {
    let mut peripheral = BLEPeripheral::new();
    peripheral.setup(LOCAL);
    peripheral
}

#[test]
fn a_new_responder_does_not_advertise() {
    let peripheral = BLEPeripheral::new();
    assert_eq!(
        peripheral,
        BLEPeripheral {
            recv_msg_receiver: false,
            connect_watcher: None,
            is_advertize_start: false,
            awaiting: false,
        }
    );
    assert!(!peripheral.is_connected());
}

#[test]
fn connecting_before_advertising_is_an_error() {
    let mut peripheral = BLEPeripheral::new();
    assert_eq!(peripheral.connect(), Err(Error::ConnectBeforeSetup));
    assert_eq!(peripheral, BLEPeripheral::new());
}

#[test]
fn setup_advertises_under_the_hyphenated_identifier() {
    let mut peripheral = BLEPeripheral::new();
    assert_eq!(
        peripheral.setup(LOCAL),
        Task::Advertise { uuid: "01020304-0506-0708-090a-0b0c0d0e0f10".to_string() }
    );
    assert_eq!(
        peripheral,
        BLEPeripheral {
            recv_msg_receiver: true,
            connect_watcher: Some(ConnectionStatus::Disconnected),
            is_advertize_start: true,
            awaiting: false,
        }
    );
    assert_eq!(advertised_identifier(LOCAL), "01020304-0506-0708-090a-0b0c0d0e0f10");
}

#[test]
fn the_responder_waits_until_the_peer_is_there() {
    let mut peripheral = advertising();
    assert_eq!(peripheral.connect(), Ok(Task::AwaitPeer));
    assert!(peripheral.awaiting);
    assert!(!peripheral.is_connected());
    // A report that the peer is still away does not end the wait.
    assert_eq!(
        peripheral.on(Event::StatusChanged(ConnectionStatus::Disconnected)),
        Ok(Task::AwaitPeer)
    );
    assert!(peripheral.awaiting);
    assert_eq!(peripheral.on(Event::StatusChanged(ConnectionStatus::Connected)), Ok(Task::Forward));
    assert!(peripheral.is_connected());
    assert!(!peripheral.awaiting);
    assert!(!peripheral.recv_msg_receiver);
}

#[test]
fn a_peer_that_arrived_before_the_wait_is_not_missed() {
    let mut peripheral = advertising();
    assert_eq!(peripheral.on(Event::StatusChanged(ConnectionStatus::Connected)), Ok(Task::Rest));
    assert!(peripheral.is_connected());
    assert_eq!(peripheral.connect(), Ok(Task::Forward));
    assert!(!peripheral.recv_msg_receiver);
}

#[test]
fn the_stream_of_inbound_messages_is_handed_out_once() {
    let mut peripheral = advertising();
    peripheral.on(Event::StatusChanged(ConnectionStatus::Connected)).unwrap();
    assert_eq!(peripheral.connect(), Ok(Task::Forward));
    assert_eq!(peripheral.connect(), Err(Error::ConnectBeforeSetup));
    // Advertising anew brings a fresh stream.
    peripheral.setup(LOCAL);
    peripheral.on(Event::StatusChanged(ConnectionStatus::Connected)).unwrap();
    assert_eq!(peripheral.connect(), Ok(Task::Forward));
}

#[test]
fn the_responder_hears_of_nothing_before_it_advertises() {
    let mut peripheral = BLEPeripheral::new();
    assert_eq!(peripheral.on(Event::StatusChanged(ConnectionStatus::Connected)), Ok(Task::Rest));
    assert_eq!(peripheral, BLEPeripheral::new());
}

#[test]
fn the_responder_passes_over_the_events_of_a_scan() {
    let mut peripheral = advertising();
    let before = peripheral;
    assert_eq!(peripheral.on(Event::ScanEnded), Ok(Task::Rest));
    assert_eq!(peripheral.on(Event::Linked(Ok(()))), Ok(Task::Rest));
    assert_eq!(peripheral.on(Event::DiscoverStarted(Err("x".to_string()))), Ok(Task::Rest));
    assert_eq!(peripheral, before);
}

#[test]
fn the_responder_notices_that_the_peer_left() {
    let mut peripheral = advertising();
    peripheral.on(Event::StatusChanged(ConnectionStatus::Connected)).unwrap();
    assert!(peripheral.is_connected());
    peripheral.on(Event::StatusChanged(ConnectionStatus::Disconnected)).unwrap();
    assert!(!peripheral.is_connected());
}

#[test]
fn the_responder_notifies_the_peer_of_the_wire_form() {
    let peripheral = advertising();
    assert_eq!(
        peripheral.send(&Message::Seal("now".to_string())),
        Outgoing::Notify { request: SendRequest { message: "{\"Seal\":\"now\"}".to_string() } }
    );
    assert_eq!(
        peripheral.send(&Message::Empty),
        Outgoing::Notify { request: SendRequest { message: "\"Empty\"".to_string() } }
    );
}

#[test]
fn a_responder_that_does_not_advertise_has_nobody_to_notify() {
    let peripheral = BLEPeripheral::new();
    assert_eq!(peripheral.send(&Message::Seal("now".to_string())), Outgoing::Nothing);
}

#[test]
fn the_answer_to_a_notification_is_judged() {
    assert_eq!(BLEPeripheral::sent(Ok(SendResponse { success: true })), Ok(()));
    assert_eq!(
        BLEPeripheral::sent(Ok(SendResponse { success: false })),
        Err(Error::BlePeripheralSendFail("failed".to_string()))
    );
    assert_eq!(
        BLEPeripheral::sent(Err("plugin gone".to_string())),
        Err(Error::BlePeripheralSendFail("plugin gone".to_string()))
    );
}

#[test]
fn the_connection_status_is_read_from_the_platform() {
    assert_eq!(
        ConnectionStatus::decode(Some("{\"type\":\"Connected\"}")),
        Ok(ConnectionStatus::Connected)
    );
    assert_eq!(
        ConnectionStatus::decode(Some("{\"type\":\"Disconnected\",\"more\":1}")),
        Ok(ConnectionStatus::Disconnected)
    );
    assert_eq!(ConnectionStatus::decode(None), Ok(ConnectionStatus::Disconnected));
    assert_eq!(
        ConnectionStatus::decode(Some("{\"type\":\"Asleep\"}")),
        Err(Error::InvalidMessage("unknown connection status".to_string()))
    );
    assert_eq!(
        ConnectionStatus::decode(Some("\"Connected\"")),
        Err(Error::InvalidMessage("unknown connection status".to_string()))
    );
    let theirs = serde_json::from_str::<serde_json::Value>("Connected").unwrap_err().to_string();
    assert_eq!(ConnectionStatus::decode(Some("Connected")), Err(Error::InvalidMessage(theirs)));
    let doc = Json::Object(vec![("type".to_string(), Json::Text("Connected".to_string()))]);
    assert_eq!(ConnectionStatus::from_json(&doc), Some(ConnectionStatus::Connected));
    assert_eq!(ConnectionStatus::from_json(&Json::Null), None);
}

#[test]
fn a_message_from_the_platform_is_unwrapped() {
    assert_eq!(
        unwrap_message("{\"msg\":\"{\\\"Disposable\\\":\\\"hello\\\"}\"}"),
        Ok(Message::Disposable("hello".to_string()))
    );
    assert_eq!(unwrap_message("{\"msg\":\"\\\"Empty\\\"\"}"), Ok(Message::Empty));
    let doc = Json::Object(vec![("msg".to_string(), Json::Text("x".to_string()))]);
    assert_eq!(RecvData::from_json(&doc), Some(RecvData { msg: "x".to_string() }));
    assert_eq!(
        RecvData::decode("{\"msg\":\"\\\"Empty\\\"\",\"more\":1}"),
        Ok(RecvData { msg: "\"Empty\"".to_string() })
    );
    assert_eq!(
        RecvData::decode("{\"msg\":5}"),
        Err(Error::InvalidMessage("missing field `msg`".to_string()))
    );
    assert_eq!(RecvData::from_json(&Json::Array(Vec::new())), None);
}

#[test]
fn a_message_from_the_platform_that_cannot_be_unwrapped_is_reported() {
    assert_eq!(
        unwrap_message("{\"text\":\"x\"}"),
        Err(Error::InvalidMessage("missing field `msg`".to_string()))
    );
    assert_eq!(
        unwrap_message("{\"msg\":\"{\\\"Bogus\\\":1}\"}"),
        Err(Error::InvalidMessage("unknown message tag".to_string()))
    );
    let outer = serde_json::from_str::<serde_json::Value>("{").unwrap_err().to_string();
    assert_eq!(unwrap_message("{"), Err(Error::InvalidMessage(outer)));
    let inner = serde_json::from_str::<serde_json::Value>("oops").unwrap_err().to_string();
    assert_eq!(unwrap_message("{\"msg\":\"oops\"}"), Err(Error::InvalidMessage(inner)));
}

#[test]
fn the_permission_request_names_the_radio() {
    let request = RequestPermission { bluetooth: true };
    assert!(request.bluetooth);
}
