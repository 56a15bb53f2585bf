//! The responding part: advertises and waits for the peer.

use vstd::prelude::*;
use crate::ble::{BLEComm, Event, Outgoing, Task};
use crate::blep::{advertised_identifier, ConnectionStatus, SendRequest, SendResponse};
use crate::error::Error;
use crate::ident::{hyphenated_text, lower_digits};
use crate::message::{writes, wire_text, Message, MessageView};

verus! {

/// The responding side of a session.
#[derive(Debug, Clone, Copy, PartialEq, Eq, Structural)]
pub struct BLEPeripheral {
    /// Whether the stream of inbound messages is still to be handed out. It
    /// is there once the side advertises, and is handed out once.
    pub recv_msg_receiver: bool,
    /// The connection status that was reported last; none before the side
    /// advertises.
    pub connect_watcher: Option<ConnectionStatus>,
    /// Whether the side advertises.
    pub is_advertize_start: bool,
    /// Whether a `connect` waits for the peer.
    pub awaiting: bool,
}

/// The text that is reported when the platform sends a message and says that
/// it failed.
pub open spec fn failed_text() -> Seq<char> {
    "failed"@
}

/// Hands out the stream of inbound messages, which ends the wait of a
/// `connect`. A stream that is gone means that the side was not set up for
/// this connection.
pub open spec fn receiver_taken(peripheral: BLEPeripheral) -> (BLEPeripheral, Result<Task, Error>) {
    if peripheral.recv_msg_receiver {
        (
            BLEPeripheral { recv_msg_receiver: false, awaiting: false, ..peripheral },
            Ok(Task::Forward),
        )
    } else {
        (BLEPeripheral { awaiting: false, ..peripheral }, Err(Error::ConnectBeforeSetup))
    }
}

/// The state and the answer that follow a call of `connect`.
pub open spec fn peripheral_connect(peripheral: BLEPeripheral) -> (BLEPeripheral, Result<Task, Error>) {
    match peripheral.connect_watcher {
        None => (peripheral, Err(Error::ConnectBeforeSetup)),
        Some(ConnectionStatus::Disconnected) => (
            BLEPeripheral { awaiting: true, ..peripheral },
            Ok(Task::AwaitPeer),
        ),
        Some(ConnectionStatus::Connected) => receiver_taken(peripheral),
    }
}

/// The state and the answer that follow when the responding side learns of
/// `event`. Only a change of the connection status concerns it, and only
/// once it advertises: the status is kept, and a waiting `connect` ends when
/// the peer is there and goes on waiting while it is not.
pub open spec fn peripheral_step(peripheral: BLEPeripheral, event: Event) -> (
    BLEPeripheral,
    Result<Task, Error>,
) {
    match (peripheral.connect_watcher, event) {
        (Some(_), Event::StatusChanged(status)) => {
            let seen = BLEPeripheral { connect_watcher: Some(status), ..peripheral };
            if !peripheral.awaiting {
                (seen, Ok(Task::Rest))
            } else if status == ConnectionStatus::Connected {
                receiver_taken(seen)
            } else {
                (seen, Ok(Task::AwaitPeer))
            }
        },
        _ => (peripheral, Ok(Task::Rest)),
    }
}

/// Whether `outgoing` notifies the peer of one of the wire forms of
/// `message`.
pub open spec fn notifies_message(outgoing: Outgoing, message: MessageView) -> bool {
    outgoing matches Outgoing::Notify { request } && exists|order: Seq<u128>|
        writes(order, message) && request.message@ == #[trigger] wire_text(message, order)
}

impl BLEPeripheral {
    /// The responding side before it advertises.
    pub fn new() -> (r: BLEPeripheral)
        ensures
            r == (BLEPeripheral {
                recv_msg_receiver: false,
                connect_watcher: None,
                is_advertize_start: false,
                awaiting: false,
            }),
    {
        BLEPeripheral {
            recv_msg_receiver: false,
            connect_watcher: None,
            is_advertize_start: false,
            awaiting: false,
        }
    }

    /// Starts advertising under `uuid`: the side has a fresh stream of
    /// inbound messages and no peer yet. The task names the identifier in
    /// its lower-case hyphenated form.
    pub fn setup(&mut self, uuid: u128) -> (r: Task)
        ensures
            *final(self) == (BLEPeripheral {
                recv_msg_receiver: true,
                connect_watcher: Some(ConnectionStatus::Disconnected),
                is_advertize_start: true,
                awaiting: false,
            }),
            r matches Task::Advertise { uuid: text } && text@ == hyphenated_text(uuid, lower_digits()),
    {
        self.recv_msg_receiver = true;
        self.connect_watcher = Some(ConnectionStatus::Disconnected);
        self.is_advertize_start = true;
        self.awaiting = false;
        Task::Advertise { uuid: advertised_identifier(uuid) }
    }

    fn take_receiver(&mut self) -> (r: Result<Task, Error>)
        ensures
            (*final(self), r) == receiver_taken(*old(self)),
    {
        self.awaiting = false;
        if self.recv_msg_receiver {
            self.recv_msg_receiver = false;
            Ok(Task::Forward)
        } else {
            Err(Error::ConnectBeforeSetup)
        }
    }

    /// Learns what the radio did and says what is owed next.
    pub fn on(&mut self, event: Event) -> (r: Result<Task, Error>)
        ensures
            (*final(self), r) == peripheral_step(*old(self), event),
    {
        match (self.connect_watcher, event) {
            (Some(_), Event::StatusChanged(status)) => {
                self.connect_watcher = Some(status);
                if !self.awaiting {
                    Ok(Task::Rest)
                } else {
                    match status {
                        ConnectionStatus::Connected => self.take_receiver(),
                        ConnectionStatus::Disconnected => Ok(Task::AwaitPeer),
                    }
                }
            },
            _ => Ok(Task::Rest),
        }
    }

    /// What the platform's answer to a notification means. A refusal is
    /// reported as `BlePeripheralSendFail` with the platform's words, and an
    /// answer that tells of no success as `BlePeripheralSendFail` too.
    pub fn sent(outcome: Result<SendResponse, String>) -> (r: Result<(), Error>)
        ensures
            match outcome {
                Ok(response) => if response.success {
                    r == Ok::<(), Error>(())
                } else {
                    r matches Err(Error::BlePeripheralSendFail(why)) && why@ == failed_text()
                },
                Err(why) => r == Err::<(), Error>(Error::BlePeripheralSendFail(why)),
            },
    {
        match outcome {
            Err(why) => Err(Error::BlePeripheralSendFail(why)),
            Ok(response) => {
                if response.success {
                    Ok(())
                } else {
                    Err(Error::BlePeripheralSendFail("failed".to_owned()))
                }
            },
        }
    }
}

impl BLEComm for BLEPeripheral {
    open spec fn connected(&self) -> bool {
        self.connect_watcher == Some(ConnectionStatus::Connected)
    }

    open spec fn connecting(&self, after: &Self, r: Result<Task, Error>) -> bool {
        (*after, r) == peripheral_connect(*self)
    }

    open spec fn sending(&self, message: Message, outgoing: Outgoing) -> bool {
        if self.is_advertize_start {
            notifies_message(outgoing, message@)
        } else {
            outgoing == Outgoing::Nothing
        }
    }

    /// The wire form of `message`, of which the peer is to be notified. A
    /// side that does not advertise has nobody to notify.
    fn send(&self, message: &Message) -> (r: Outgoing) {
        if self.is_advertize_start {
            Outgoing::Notify { request: SendRequest { message: message.to_string() } }
        } else {
            Outgoing::Nothing
        }
    }

    /// Hands out the stream of inbound messages once the peer is there, and
    /// asks to wait for the peer until then. Before the side advertises
    /// there is nothing to connect to.
    fn connect(&mut self) -> (r: Result<Task, Error>) {
        match self.connect_watcher {
            None => Err(Error::ConnectBeforeSetup),
            Some(ConnectionStatus::Disconnected) => {
                self.awaiting = true;
                Ok(Task::AwaitPeer)
            },
            Some(ConnectionStatus::Connected) => self.take_receiver(),
        }
    }

    fn is_connected(&self) -> (r: bool) {
        match self.connect_watcher {
            Some(ConnectionStatus::Connected) => true,
            _ => false,
        }
    }
}

} // verus!
