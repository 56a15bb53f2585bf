//! The session between two devices, and the two parts that a device can play
//! in it.
//!
//! Nothing here touches the radio. A function hands out the [`Task`] that the
//! caller owes the radio next, and the caller reports what the radio did as
//! an [`Event`].

pub mod central;
pub mod peripheral;

use vstd::prelude::*;
use crate::ble::central::{central_step, writes_message, BLECentral, CentralPhase, SCAN_TIMEOUT_MS};
use crate::ble::peripheral::{notifies_message, peripheral_step, BLEPeripheral};
use crate::blep::{ConnectionStatus, SendRequest};
use crate::error::Error;
use crate::ident::{fresh_identifier, hyphenated_text, lower_digits};
use crate::message::{received, Message, MessageView, Plans};
use crate::role::{lucky_text, role_of, select_role, Role};

verus! {

/// A nearby device as a scan reports it: where to reach it, and the
/// identifiers that it advertises.
#[derive(Debug, Clone, PartialEq, Eq)]
pub struct Device {
    pub address: String,
    pub service_data: Vec<u128>,
}

/// What the caller owes the radio next.
#[derive(Debug, Clone, PartialEq, Eq)]
pub enum Task {
    /// Nothing.
    Rest,
    /// Start a scan that ends after `timeout_ms` milliseconds, and report
    /// whether it started.
    Discover { timeout_ms: u64 },
    /// Report the devices that the scan finds next, or that the scan ended.
    AwaitDevices,
    /// Connect to the device at `address`, and report how that went.
    Link { address: String },
    /// Subscribe to the notifications under `uuid`, and report how that went
    /// and whether the radio still holds the connection.
    Subscribe { uuid: u128 },
    /// Advertise under the identifier written in `uuid`, and report every
    /// change of the connection status from then on.
    Advertise { uuid: String },
    /// Report the next change of the connection status.
    AwaitPeer,
    /// The peer is connected: hand over what it sends from now on.
    Forward,
}

/// What the radio did.
#[derive(Debug, PartialEq, Eq)]
pub enum Event {
    /// The scan started, or the radio refused it.
    DiscoverStarted(Result<(), String>),
    /// The scan found these devices.
    Devices(Vec<Device>),
    /// The scan ended.
    ScanEnded,
    /// The radio connected to the device, or failed to.
    Linked(Result<(), String>),
    /// The radio subscribed to the peer's notifications, or failed to; and
    /// whether it holds a connection now.
    Subscribed { outcome: Result<(), String>, connected: bool },
    /// The connection status changed.
    StatusChanged(ConnectionStatus),
}

/// What a send asks of the radio.
#[derive(Debug, Clone, PartialEq, Eq)]
pub enum Outgoing {
    /// Nothing is to be sent.
    Nothing,
    /// Nothing may be sent before the peer has been heard from: ask again
    /// after the next inbound message.
    Wait,
    /// Write `payload` to the characteristic `uuid` of the peer, without
    /// waiting for a response.
    Write { uuid: u128, payload: Vec<u8> },
    /// Hand `request` to the platform, which notifies the peer of its
    /// message.
    Notify { request: SendRequest },
}

/// Where a session stands.
#[derive(Debug, Clone, Copy, PartialEq, Eq, Structural)]
pub enum ConnectionState {
    /// No connection is being made.
    Idle,
    /// This device initiates and is connecting to the peer.
    RoleSelected,
    /// This device responds and waits for the peer to connect.
    AwaitingRemoteListener,
    /// The peer is connected.
    Connected,
    /// The peer was connected and is gone.
    Disconnected,
}

/// A session with what belongs to each of its states. The count of permits
/// exists only while a responding device is connected.
#[derive(Debug, Clone, Copy, PartialEq, Eq, Structural)]
pub enum Session {
    Idle,
    RoleSelected { central: BLECentral },
    AwaitingRemoteListener { peripheral: BLEPeripheral },
    /// Connected as the initiating device. `greeted` tells whether it has
    /// sent its first message, which shows the peer that it listens.
    Initiator { central: BLECentral, greeted: bool },
    /// Connected as the responding device. `permits` counts the inbound
    /// messages that no send has answered yet.
    Responder { peripheral: BLEPeripheral, permits: u64 },
    Disconnected,
}

/// A [`Session`] as mathematics: the permits are a natural number.
pub enum SessionView {
    Idle,
    RoleSelected { central: BLECentral },
    AwaitingRemoteListener { peripheral: BLEPeripheral },
    Initiator { central: BLECentral, greeted: bool },
    Responder { peripheral: BLEPeripheral, permits: nat },
    Disconnected,
}

impl View for Session {
    type V = SessionView;

    open spec fn view(&self) -> SessionView {
        match self {
            Session::Idle => SessionView::Idle,
            Session::RoleSelected { central } => SessionView::RoleSelected { central: *central },
            Session::AwaitingRemoteListener { peripheral } => SessionView::AwaitingRemoteListener {
                peripheral: *peripheral,
            },
            Session::Initiator { central, greeted } => SessionView::Initiator {
                central: *central,
                greeted: *greeted,
            },
            Session::Responder { peripheral, permits } => SessionView::Responder {
                peripheral: *peripheral,
                permits: *permits as nat,
            },
            Session::Disconnected => SessionView::Disconnected,
        }
    }
}

/// What an inbound message carries to the frontend.
#[derive(Debug, Clone, PartialEq, Eq)]
pub enum Payload {
    Text(String),
    Plans(Plans),
}

/// An event for the frontend: its name and what it carries.
#[derive(Debug, Clone, PartialEq, Eq)]
pub struct FrontendEvent {
    pub name: String,
    pub payload: Payload,
}

/// The one place where two tapped devices become a session: it knows this
/// device's identifier and the peer's, plays the part that the two
/// identifiers decide, holds the one message that waits to be sent, and
/// counts the permits of a responding device.
pub struct DeviceBridge {
    uuid: u128,
    next_msg: Option<Message>,
    last_uuid: Option<u128>,
    session: Session,
}

/// A [`DeviceBridge`] as mathematics.
pub struct BridgeView {
    /// This device's identifier.
    pub uuid: u128,
    /// The message that waits to be sent.
    pub next_msg: Option<MessageView>,
    /// The identifier of the peer, once one was tapped.
    pub last_uuid: Option<u128>,
    pub session: SessionView,
}

/// What a send does in a given state.
pub enum Sending {
    /// No peer is connected: the send is an error.
    Refused,
    /// The responding device holds no permit: the send is put off.
    Wait,
    /// The initiating device has nothing to say.
    Nothing,
    /// The message goes out.
    Transmit(MessageView),
}

impl View for DeviceBridge {
    type V = BridgeView;

    closed spec fn view(&self) -> BridgeView {
        BridgeView {
            uuid: self.uuid,
            next_msg: match self.next_msg {
                Some(message) => Some(message@),
                None => None,
            },
            last_uuid: self.last_uuid,
            session: self.session@,
        }
    }
}

/// The state that a session is in.
pub open spec fn state_of(session: SessionView) -> ConnectionState {
    match session {
        SessionView::Idle => ConnectionState::Idle,
        SessionView::RoleSelected { .. } => ConnectionState::RoleSelected,
        SessionView::AwaitingRemoteListener { .. } => ConnectionState::AwaitingRemoteListener,
        SessionView::Initiator { .. } => ConnectionState::Connected,
        SessionView::Responder { .. } => ConnectionState::Connected,
        SessionView::Disconnected => ConnectionState::Disconnected,
    }
}

/// Whether the peer is connected.
pub open spec fn connected(bridge: BridgeView) -> bool {
    state_of(bridge.session) == ConnectionState::Connected
}

/// The permits of a connected responding device: none in any other state.
pub open spec fn permits_of(bridge: BridgeView) -> Option<nat> {
    match bridge.session {
        SessionView::Responder { permits, .. } => Some(permits),
        _ => None,
    }
}

/// The role that the bridge plays towards the peer it has met: none before
/// it has met one, and none against its own identifier.
pub open spec fn role_in(bridge: BridgeView) -> Option<Role> {
    match bridge.last_uuid {
        Some(peer) => role_of(bridge.uuid, peer),
        None => None,
    }
}

/// A bridge that has met nobody yet.
pub open spec fn fresh(uuid: u128) -> BridgeView {
    BridgeView { uuid, next_msg: None, last_uuid: None, session: SessionView::Idle }
}

/// The text that is reported when a second, different peer is tapped.
pub open spec fn unsupport_text() -> Seq<char> {
    "暂不支持多次不同触碰"@
}

/// Whether `peer` is turned away because another peer was tapped before.
pub open spec fn turned_away(bridge: BridgeView, peer: u128) -> bool {
    bridge.last_uuid is Some && bridge.last_uuid != Some(peer)
}

/// The responding side as it stands right after it started to advertise and
/// to wait for the peer.
pub open spec fn advertising() -> BLEPeripheral {
    BLEPeripheral {
        recv_msg_receiver: true,
        connect_watcher: Some(ConnectionStatus::Disconnected),
        is_advertize_start: true,
        awaiting: true,
    }
}

/// The state after `connect(peer)`. A peer other than the one that was
/// tapped first changes nothing. Else the peer is remembered; a connected
/// session stays as it is; and any other session starts over in the role
/// that the two identifiers decide, unless they are equal.
pub open spec fn after_connect(bridge: BridgeView, peer: u128) -> BridgeView {
    if turned_away(bridge, peer) {
        bridge
    } else if connected(bridge) {
        BridgeView { last_uuid: Some(peer), ..bridge }
    } else {
        match role_of(bridge.uuid, peer) {
            None => BridgeView { last_uuid: Some(peer), ..bridge },
            Some(Role::Initiator) => BridgeView {
                last_uuid: Some(peer),
                session: SessionView::RoleSelected {
                    central: BLECentral { uuid: peer, phase: CentralPhase::Discovering },
                },
                ..bridge
            },
            Some(Role::Responder) => BridgeView {
                last_uuid: Some(peer),
                session: SessionView::AwaitingRemoteListener { peripheral: advertising() },
                ..bridge
            },
        }
    }
}

/// Whether `r` is the answer of `connect(peer)` in the state `bridge`.
pub open spec fn connect_answer(bridge: BridgeView, peer: u128, r: Result<Task, Error>) -> bool {
    if turned_away(bridge, peer) {
        r matches Err(Error::Unsupport(text)) && text@ == unsupport_text()
    } else if connected(bridge) {
        r == Ok::<Task, Error>(Task::Rest)
    } else {
        match role_of(bridge.uuid, peer) {
            None => r matches Err(Error::Lucky(text)) && text@ == lucky_text(),
            Some(Role::Initiator) => r == Ok::<Task, Error>(
                Task::Discover { timeout_ms: SCAN_TIMEOUT_MS },
            ),
            Some(Role::Responder) => r matches Ok(Task::Advertise { uuid }) && uuid@
                == hyphenated_text(bridge.uuid, lower_digits()),
        }
    }
}

/// The session and the answer that follow when a session learns of `event`.
/// While a connection is being made the event goes to the side that makes
/// it: `Forward` means that the peer is connected, with no message sent and
/// no permit held, and an error means that the session is idle again. While
/// the peer is connected the session only watches for the peer's leaving.
pub open spec fn session_step(session: SessionView, event: Event) -> (SessionView, Result<Task, Error>) {
    match session {
        SessionView::RoleSelected { central } => {
            let (next, answer) = central_step(central, event);
            match answer {
                Ok(Task::Forward) => (SessionView::Initiator { central: next, greeted: false }, answer),
                Ok(_) => (SessionView::RoleSelected { central: next }, answer),
                Err(_) => (SessionView::Idle, answer),
            }
        },
        SessionView::AwaitingRemoteListener { peripheral } => {
            let (next, answer) = peripheral_step(peripheral, event);
            match answer {
                Ok(Task::Forward) => (SessionView::Responder { peripheral: next, permits: 0 }, answer),
                Ok(_) => (SessionView::AwaitingRemoteListener { peripheral: next }, answer),
                Err(_) => (SessionView::Idle, answer),
            }
        },
        SessionView::Initiator { .. } | SessionView::Responder { .. } => match event {
            Event::StatusChanged(ConnectionStatus::Disconnected) => (
                SessionView::Disconnected,
                Ok(Task::Rest),
            ),
            _ => (session, Ok(Task::Rest)),
        },
        _ => (session, Ok(Task::Rest)),
    }
}

/// The state after an inbound payload: a well-formed message gives a
/// connected responding device one more permit, and nothing else changes.
pub open spec fn after_receive(bridge: BridgeView, payload: Seq<u8>) -> BridgeView {
    match bridge.session {
        SessionView::Responder { peripheral, permits } => if received(payload) is Ok {
            BridgeView { session: SessionView::Responder { peripheral, permits: permits + 1 }, ..bridge }
        } else {
            bridge
        },
        _ => bridge,
    }
}

/// The state after the inbound payloads `payloads`, taken one after the
/// other.
pub open spec fn after_receive_all(bridge: BridgeView, payloads: Seq<Seq<u8>>) -> BridgeView
    decreases payloads.len(),
{
    if payloads.len() == 0 {
        bridge
    } else {
        after_receive(after_receive_all(bridge, payloads.drop_last()), payloads.last())
    }
}

/// The name of the event that tells the frontend of `message`. The empty
/// message is not told.
pub open spec fn event_name(message: MessageView) -> Option<Seq<char>> {
    match message {
        MessageView::Disposable(_) => Some("recv-disposable-msg"@),
        MessageView::BackToBack(_) => Some("recv-back-to-back-msg"@),
        MessageView::Seal(_) => Some("recv-seal-msg"@),
        MessageView::PlanSync(_) => Some("recv-plan-sync"@),
        MessageView::Empty => None,
    }
}

/// Whether `payload` carries what `message` holds.
pub open spec fn carries(payload: Payload, message: MessageView) -> bool {
    match message {
        MessageView::Disposable(text) => payload matches Payload::Text(held) && held@ == text,
        MessageView::BackToBack(text) => payload matches Payload::Text(held) && held@ == text,
        MessageView::Seal(text) => payload matches Payload::Text(held) && held@ == text,
        MessageView::PlanSync(plans) => payload matches Payload::Plans(held) && held@ == plans,
        MessageView::Empty => false,
    }
}

/// Whether `event` is what the frontend is told of `message`: nothing of the
/// empty message, and else the event of its kind with its payload.
pub open spec fn tells(event: Option<FrontendEvent>, message: MessageView) -> bool {
    match event {
        None => message is Empty,
        Some(told) => event_name(message) == Some(told.name@) && carries(told.payload, message),
    }
}

/// Whether `r` is what forwarding the inbound payload `payload` gives: the
/// event of its message, or the complaint about it as `InvalidMessage`.
pub open spec fn forwards(r: Result<Option<FrontendEvent>, Error>, payload: Seq<u8>) -> bool {
    match r {
        Ok(event) => received(payload) matches Ok(message) && tells(event, message),
        Err(Error::InvalidMessage(text)) => received(payload) == Err::<MessageView, Seq<char>>(
            text@,
        ),
        Err(_) => false,
    }
}

/// The payloads of a batch, each as a sequence of bytes.
pub open spec fn payloads_of(inbound: Seq<Vec<u8>>) -> Seq<Seq<u8>> {
    inbound.map_values(|payload: Vec<u8>| payload@)
}

/// What a send does in the state `bridge`. A responding device sends only
/// against a permit, and then always: the empty message where none waits.
/// An initiating device needs no permit; it sends the waiting message, and
/// where none waits the empty one, once, as its greeting.
pub open spec fn outbound(bridge: BridgeView) -> Sending {
    match bridge.session {
        SessionView::Responder { permits, .. } => if permits == 0 {
            Sending::Wait
        } else {
            match bridge.next_msg {
                Some(message) => Sending::Transmit(message),
                None => Sending::Transmit(MessageView::Empty),
            }
        },
        SessionView::Initiator { greeted, .. } => match bridge.next_msg {
            Some(message) => Sending::Transmit(message),
            None => if greeted {
                Sending::Nothing
            } else {
                Sending::Transmit(MessageView::Empty)
            },
        },
        _ => Sending::Refused,
    }
}

/// The state after a send: where a message goes out, the slot is empty, a
/// responding device has one permit less and an initiating device has
/// greeted; else nothing changes.
pub open spec fn after_send(bridge: BridgeView) -> BridgeView {
    match outbound(bridge) {
        Sending::Transmit(_) => BridgeView {
            next_msg: None,
            session: match bridge.session {
                SessionView::Responder { peripheral, permits } => SessionView::Responder {
                    peripheral,
                    permits: (permits - 1) as nat,
                },
                SessionView::Initiator { central, .. } => SessionView::Initiator { central, greeted: true },
                other => other,
            },
            ..bridge
        },
        _ => bridge,
    }
}

/// Whether `r` is the answer of a send in the state `bridge`.
pub open spec fn send_answer(bridge: BridgeView, r: Result<Outgoing, Error>) -> bool {
    match outbound(bridge) {
        Sending::Refused => r == Err::<Outgoing, Error>(Error::SendBeforeConnect),
        Sending::Wait => r == Ok::<Outgoing, Error>(Outgoing::Wait),
        Sending::Nothing => r == Ok::<Outgoing, Error>(Outgoing::Nothing),
        Sending::Transmit(message) => match bridge.session {
            SessionView::Initiator { central, .. } => r matches Ok(outgoing) && writes_message(
                outgoing,
                central.uuid,
                message,
            ),
            SessionView::Responder { peripheral, .. } => r matches Ok(outgoing) && if peripheral.is_advertize_start {
                notifies_message(outgoing, message)
            } else {
                outgoing == Outgoing::Nothing
            },
            _ => false,
        },
    }
}

/// Tells the frontend of a message.
pub fn dispatch(message: Message) -> (r: Option<FrontendEvent>)
    ensures
        tells(r, message@),
{
    match message {
        Message::Disposable(text) => Some(
            FrontendEvent { name: "recv-disposable-msg".to_owned(), payload: Payload::Text(text) },
        ),
        Message::BackToBack(text) => Some(
            FrontendEvent { name: "recv-back-to-back-msg".to_owned(), payload: Payload::Text(text) },
        ),
        Message::Seal(text) => Some(
            FrontendEvent { name: "recv-seal-msg".to_owned(), payload: Payload::Text(text) },
        ),
        Message::PlanSync(plans) => Some(
            FrontendEvent { name: "recv-plan-sync".to_owned(), payload: Payload::Plans(plans) },
        ),
        Message::Empty => None,
    }
}

impl DeviceBridge {
    /// A bridge with a fresh random identifier.
    pub fn new() -> (r: DeviceBridge)
        ensures
            r@ == fresh(r@.uuid),
            (r@.uuid >> 76u128) & 0xf == 4,
            (r@.uuid >> 62u128) & 0x3 == 2,
    {
        DeviceBridge::with_uuid(fresh_identifier())
    }

    /// A bridge with the identifier `uuid`.
    pub fn with_uuid(uuid: u128) -> (r: DeviceBridge)
        ensures
            r@ == fresh(uuid),
    {
        DeviceBridge { uuid, next_msg: None, last_uuid: None, session: Session::Idle }
    }

    /// This device's identifier.
    pub fn uuid(&self) -> (r: u128)
        ensures
            r == self@.uuid,
    {
        self.uuid
    }

    /// The identifier of the peer, once one was tapped.
    pub fn peer(&self) -> (r: Option<u128>)
        ensures
            r == self@.last_uuid,
    {
        self.last_uuid
    }

    /// The role of this device towards the peer, which stays the same for as
    /// long as the two keep their identifiers.
    pub fn role(&self) -> (r: Option<Role>)
        ensures
            r == role_in(self@),
    {
        match self.last_uuid {
            Some(peer) => match select_role(self.uuid, peer) {
                Ok(role) => Some(role),
                Err(_) => None,
            },
            None => None,
        }
    }

    /// The message that waits to be sent.
    pub fn queued(&self) -> (r: Option<&Message>)
        ensures
            match r {
                Some(message) => self@.next_msg == Some(message@),
                None => self@.next_msg is None,
            },
    {
        self.next_msg.as_ref()
    }

    /// The state of the session.
    pub fn state(&self) -> (r: ConnectionState)
        ensures
            r == state_of(self@.session),
    {
        match self.session {
            Session::Idle => ConnectionState::Idle,
            Session::RoleSelected { .. } => ConnectionState::RoleSelected,
            Session::AwaitingRemoteListener { .. } => ConnectionState::AwaitingRemoteListener,
            Session::Initiator { .. } => ConnectionState::Connected,
            Session::Responder { .. } => ConnectionState::Connected,
            Session::Disconnected => ConnectionState::Disconnected,
        }
    }

    /// The permits that a connected responding device holds.
    pub fn permits(&self) -> (r: Option<u64>)
        ensures
            match r {
                Some(n) => permits_of(self@) == Some(n as nat),
                None => permits_of(self@) is None,
            },
    {
        match self.session {
            Session::Responder { permits, .. } => Some(permits),
            _ => None,
        }
    }

    /// Whether the peer is connected.
    pub fn is_connected(&self) -> (r: bool)
        ensures
            r == connected(self@),
    {
        match self.session {
            Session::Initiator { .. } => true,
            Session::Responder { .. } => true,
            _ => false,
        }
    }

    /// Meets the peer `uuid`. The larger of the two identifiers initiates and
    /// is owed a scan; the smaller responds and is owed an advertisement
    /// under this device's identifier. Equal identifiers are reported as
    /// `Lucky`, and a peer other than the first as `Unsupport`. While the
    /// peer is connected the call does nothing.
    pub fn connect(&mut self, uuid: u128) -> (r: Result<Task, Error>)
        ensures
            final(self)@ == after_connect(old(self)@, uuid),
            connect_answer(old(self)@, uuid, r),
    {
        match self.last_uuid {
            Some(last) => {
                if last != uuid {
                    return Err(Error::Unsupport("暂不支持多次不同触碰".to_owned()));
                }
            },
            None => {
                self.last_uuid = Some(uuid);
            },
        }
        if self.is_connected() {
            return Ok(Task::Rest);
        }
        match select_role(self.uuid, uuid) {
            Err(e) => Err(e),
            Ok(Role::Initiator) => {
                let mut central = BLECentral::new(uuid);
                let task = central.connect();
                self.session = Session::RoleSelected { central };
                task
            },
            Ok(Role::Responder) => {
                let mut peripheral = BLEPeripheral::new();
                let task = peripheral.setup(self.uuid);
                let _waiting = peripheral.connect();
                self.session = Session::AwaitingRemoteListener { peripheral };
                Ok(task)
            },
        }
    }

    /// Learns what the radio did and says what is owed next.
    pub fn on(&mut self, event: Event) -> (r: Result<Task, Error>)
        ensures
            final(self)@ == (BridgeView {
                session: session_step(old(self)@.session, event).0,
                ..old(self)@
            }),
            r == session_step(old(self)@.session, event).1,
    {
        match self.session {
            Session::RoleSelected { central } => {
                let mut central = central;
                let answer = central.on(event);
                self.session = match answer {
                    Ok(Task::Forward) => Session::Initiator { central, greeted: false },
                    Ok(_) => Session::RoleSelected { central },
                    Err(_) => Session::Idle,
                };
                answer
            },
            Session::AwaitingRemoteListener { peripheral } => {
                let mut peripheral = peripheral;
                let answer = peripheral.on(event);
                self.session = match answer {
                    Ok(Task::Forward) => Session::Responder { peripheral, permits: 0 },
                    Ok(_) => Session::AwaitingRemoteListener { peripheral },
                    Err(_) => Session::Idle,
                };
                answer
            },
            Session::Initiator { .. } | Session::Responder { .. } => {
                match event {
                    Event::StatusChanged(ConnectionStatus::Disconnected) => {
                        self.session = Session::Disconnected;
                    },
                    _ => {},
                }
                Ok(Task::Rest)
            },
            _ => Ok(Task::Rest),
        }
    }

    /// Takes one inbound payload. A well-formed message earns a responding
    /// device one permit and is told to the frontend, unless it is empty. A
    /// payload that is no message is reported as `InvalidMessage` and changes
    /// nothing, and so does any payload while no peer is connected, reported
    /// as `ReceiveBeforeConnect`.
    pub fn receive(&mut self, payload: &[u8]) -> (r: Result<Option<FrontendEvent>, Error>)
        requires
            permits_of(old(self)@) matches Some(n) ==> n < u64::MAX,
        ensures
            connected(old(self)@) ==> final(self)@ == after_receive(old(self)@, payload@) && forwards(
                r,
                payload@,
            ),
            !connected(old(self)@) ==> final(self)@ == old(self)@ && r == Err::<
                Option<FrontendEvent>,
                Error,
            >(Error::ReceiveBeforeConnect),
    {
        if !self.is_connected() {
            return Err(Error::ReceiveBeforeConnect);
        }
        match Message::decode(payload) {
            Err(e) => Err(e),
            Ok(message) => {
                match self.session {
                    Session::Responder { peripheral, permits } => {
                        self.session = Session::Responder { peripheral, permits: permits + 1 };
                    },
                    _ => {},
                }
                Ok(dispatch(message))
            },
        }
    }

    /// Forwards the inbound payloads that have arrived, in their order: one
    /// answer for each, as `receive` gives it. While no peer is connected
    /// there is nothing to forward from, which is reported as
    /// `ReceiveBeforeConnect`.
    pub fn set_emmiter(&mut self, inbound: &Vec<Vec<u8>>) -> (r: Result<
        Vec<Result<Option<FrontendEvent>, Error>>,
        Error,
    >)
        requires
            permits_of(old(self)@) matches Some(n) ==> n + inbound@.len() <= u64::MAX,
        ensures
            connected(old(self)@) ==> final(self)@ == after_receive_all(
                old(self)@,
                payloads_of(inbound@),
            ) && (r matches Ok(answers) && answers@.len() == inbound@.len() && forall|i: int|
                0 <= i < inbound@.len() ==> forwards(#[trigger] answers@[i], inbound@[i]@)),
            !connected(old(self)@) ==> final(self)@ == old(self)@ && r == Err::<
                Vec<Result<Option<FrontendEvent>, Error>>,
                Error,
            >(Error::ReceiveBeforeConnect),
    {
        if !self.is_connected() {
            return Err(Error::ReceiveBeforeConnect);
        }
        let mut answers: Vec<Result<Option<FrontendEvent>, Error>> = Vec::new();
        let mut i: usize = 0;
        while i < inbound.len()
            invariant
                i <= inbound@.len(),
                connected(old(self)@),
                connected(self@),
                self@ == after_receive_all(old(self)@, payloads_of(inbound@).take(i as int)),
                permits_of(old(self)@) matches Some(n) ==> n + inbound@.len() <= u64::MAX,
                permits_of(self@) matches Some(n) ==> (permits_of(old(self)@) matches Some(m) && n <= m
                    + i),
                answers@.len() == i,
                forall|k: int| 0 <= k < i ==> forwards(#[trigger] answers@[k], inbound@[k]@),
            decreases inbound@.len() - i,
        {
            proof {
                let all = payloads_of(inbound@);
                assert(all.take(i + 1).drop_last() =~= all.take(i as int));
                assert(all.take(i + 1).last() == inbound@[i as int]@);
            }
            let answer = self.receive(inbound[i].as_slice());
            answers.push(answer);
            i += 1;
        }
        proof {
            let all = payloads_of(inbound@);
            assert(all.take(inbound@.len() as int) =~= all);
        }
        Ok(answers)
    }

    /// Puts `msg` into the slot of the message that is sent next. The slot
    /// holds one message: while it is taken, `msg` is turned away with
    /// `LastMessageNotSend` and the waiting message stays.
    pub fn set_msg(&mut self, msg: Message) -> (r: Result<(), Error>)
        ensures
            old(self)@.next_msg is Some ==> final(self)@ == old(self)@ && r == Err::<(), Error>(
                Error::LastMessageNotSend,
            ),
            old(self)@.next_msg is None ==> final(self)@ == (BridgeView {
                next_msg: Some(msg@),
                ..old(self)@
            }) && r == Ok::<(), Error>(()),
    {
        if self.next_msg.is_some() {
            return Err(Error::LastMessageNotSend);
        }
        self.next_msg = Some(msg);
        Ok(())
    }

    /// Sends what is due. See [`outbound`] for what that is; the answer holds
    /// the wire form that the radio is to carry.
    pub fn send(&mut self) -> (r: Result<Outgoing, Error>)
        ensures
            final(self)@ == after_send(old(self)@),
            send_answer(old(self)@, r),
    {
        match self.session {
            Session::Responder { peripheral, permits } => {
                if permits == 0 {
                    return Ok(Outgoing::Wait);
                }
                let message = match self.next_msg.take() {
                    Some(message) => message,
                    None => Message::Empty,
                };
                self.session = Session::Responder { peripheral, permits: permits - 1 };
                Ok(peripheral.send(&message))
            },
            Session::Initiator { central, greeted } => {
                let message = match self.next_msg.take() {
                    Some(message) => message,
                    None => {
                        if greeted {
                            return Ok(Outgoing::Nothing);
                        }
                        Message::Empty
                    },
                };
                self.session = Session::Initiator { central, greeted: true };
                Ok(central.send(&message))
            },
            _ => Err(Error::SendBeforeConnect),
        }
    }
}

/// What both parts of a session offer: connecting, sending, and telling
/// whether the peer is connected.
pub trait BLEComm: Sized {
    /// Whether the peer is connected.
    spec fn connected(&self) -> bool;

    /// Whether a call of `connect` may lead from this state to `after` with
    /// the answer `r`.
    spec fn connecting(&self, after: &Self, r: Result<Task, Error>) -> bool;

    /// Whether `outgoing` is what sending `message` asks of the radio.
    spec fn sending(&self, message: Message, outgoing: Outgoing) -> bool;

    /// What the radio is to do with `message`.
    fn send(&self, message: &Message) -> (r: Outgoing)
        ensures
            self.sending(*message, r),
    ;

    /// Starts connecting, or goes on with it, and says what is owed next.
    fn connect(&mut self) -> (r: Result<Task, Error>)
        ensures
            old(self).connecting(final(self), r),
    ;

    fn is_connected(&self) -> (r: bool)
        ensures
            r == self.connected(),
    ;
}

} // verus!
