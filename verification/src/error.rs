//! The conditions that a session reports to its caller.

use vstd::prelude::*;

verus! {

/// Everything that can go wrong in a session. Errors are values: no function
/// of this crate panics.
#[derive(Debug, PartialEq, Eq)]
pub enum Error {
    /// The radio refused to start scanning.
    BleCentralDiscover(String),
    /// The radio did not connect to the peer that was found.
    BleCentralConnect(String),
    /// The radio did not subscribe to the peer's notifications.
    BleCentralSubscribe(String),
    /// No nearby device advertised the peer's identifier.
    BleCentralDeviceNotFound,
    /// The initiating side could not write a message to the peer.
    BleCenteralSendDataFailed(String),
    /// A message is already waiting to be sent.
    LastMessageNotSend,
    /// A send was asked for while no peer was connected.
    SendBeforeConnect,
    /// An inbound message was handed over while no peer was connected.
    ReceiveBeforeConnect,
    /// The advertising side was asked to connect before it advertised.
    ConnectBeforeSetup,
    /// The advertising side could not notify the peer.
    BlePeripheralSendFail(String),
    /// The platform refused the radio permission.
    RequestBlueTooth(String),
    /// The tap reader could not be started.
    InitNfc(String),
    /// Both devices hold the same identifier, so neither can lead.
    Lucky(String),
    /// The store refused a write.
    Store(String),
    /// A stored value could not be read back.
    Load(String),
    /// A second, different peer was tapped during a session.
    Unsupport(String),
    /// An inbound payload is not a message.
    InvalidMessage(String),
    /// A tap did not carry an identifier.
    InvalidCard,
}

} // verus!
