//! What the advertising side of the radio exchanges with the platform.

use vstd::prelude::*;
use vstd::string::StringSliceAdditionalSpecFns;
use vstd::utf8::encode_utf8;
use crate::error::Error;
use crate::ident::{hyphenated_lower, hyphenated_text, lower_digits};
use crate::json::{parse, parsed_json, reads, text_member, text_member_of, Json};
use crate::message::{received, reports, Message, MessageView};

verus! {

/// Whether a peer is connected to the advertising side.
#[derive(Debug, Clone, Copy, PartialEq, Eq, Structural)]
pub enum ConnectionStatus {
    Connected,
    Disconnected,
}

/// The request for the radio permission.
#[derive(Debug, Clone, Copy, PartialEq, Eq, Structural)]
pub struct RequestPermission {
    pub bluetooth: bool,
}

/// A message handed to the platform for sending.
#[derive(Debug, Clone, PartialEq, Eq)]
pub struct SendRequest {
    pub message: String,
}

/// The platform's answer to a [`SendRequest`].
#[derive(Debug, Clone, Copy, PartialEq, Eq, Structural)]
pub struct SendResponse {
    pub success: bool,
}

/// A message as the platform hands it in: the wire form of the message,
/// wrapped once more.
#[derive(Debug, Clone, PartialEq, Eq)]
pub struct RecvData {
    pub msg: String,
}

/// The status that a document stands for: an object whose `type` is
/// `Connected` or `Disconnected`.
pub open spec fn status_of(doc: Json) -> Option<ConnectionStatus> {
    match doc {
        Json::Object(members) => match text_member_of(members@, "type"@) {
            Some(kind) => if kind == "Connected"@ {
                Some(ConnectionStatus::Connected)
            } else if kind == "Disconnected"@ {
                Some(ConnectionStatus::Disconnected)
            } else {
                None
            },
            None => None,
        },
        _ => None,
    }
}

/// The wrapped message that a document stands for: an object with the string
/// `msg`.
pub open spec fn recv_data_of(doc: Json) -> Option<Seq<char>> {
    match doc {
        Json::Object(members) => text_member_of(members@, "msg"@),
        _ => None,
    }
}

/// The complaint about a document that wraps no message.
pub open spec fn no_message_text() -> Seq<char> {
    "missing field `msg`"@
}

/// The complaint about a document that tells no connection status.
pub open spec fn no_status_text() -> Seq<char> {
    "unknown connection status"@
}

impl ConnectionStatus {
    /// Reads a status from a document.
    pub fn from_json(doc: &Json) -> (r: Option<ConnectionStatus>)
        ensures
            r == status_of(*doc),
    {
        match doc {
            Json::Object(members) => match text_member(members, "type") {
                Some(kind) => {
                    if reads(&kind, "Connected") {
                        Some(ConnectionStatus::Connected)
                    } else if reads(&kind, "Disconnected") {
                        Some(ConnectionStatus::Disconnected)
                    } else {
                        None
                    }
                },
                None => None,
            },
            _ => None,
        }
    }

    /// Reads the status that the platform reports. A report without a body
    /// means that the peer is gone; a body that tells no status is reported
    /// as `InvalidMessage`.
    pub fn decode(body: Option<&str>) -> (r: Result<ConnectionStatus, Error>)
        ensures
            match body {
                None => r == Ok::<ConnectionStatus, Error>(ConnectionStatus::Disconnected),
                Some(text) => match parsed_json(encode_utf8(text@)) {
                    Ok(doc) => match status_of(doc) {
                        Some(status) => r == Ok::<ConnectionStatus, Error>(status),
                        None => r matches Err(Error::InvalidMessage(why)) && why@
                            == no_status_text(),
                    },
                    Err(complaint) => r matches Err(Error::InvalidMessage(why)) && why@
                        == complaint,
                },
            },
    {
        match body {
            None => Ok(ConnectionStatus::Disconnected),
            Some(text) => match parse(text.as_bytes()) {
                Ok(doc) => match ConnectionStatus::from_json(&doc) {
                    Some(status) => Ok(status),
                    None => Err(Error::InvalidMessage("unknown connection status".to_owned())),
                },
                Err(complaint) => Err(Error::InvalidMessage(complaint)),
            },
        }
    }
}

impl RecvData {
    /// Reads a wrapped message from a document.
    pub fn from_json(doc: &Json) -> (r: Option<RecvData>)
        ensures
            match r {
                Some(data) => recv_data_of(*doc) == Some(data.msg@),
                None => recv_data_of(*doc) is None,
            },
    {
        match doc {
            Json::Object(members) => match text_member(members, "msg") {
                Some(msg) => Some(RecvData { msg }),
                None => None,
            },
            _ => None,
        }
    }

    /// Reads a wrapped message from the body that the platform hands in. A
    /// body that wraps no message is reported as `InvalidMessage`.
    pub fn decode(body: &str) -> (r: Result<RecvData, Error>)
        ensures
            match r {
                Ok(data) => wrapped(encode_utf8(body@)) == Ok::<Seq<char>, Seq<char>>(data.msg@),
                Err(Error::InvalidMessage(why)) => wrapped(encode_utf8(body@)) == Err::<
                    Seq<char>,
                    Seq<char>,
                >(why@),
                Err(_) => false,
            },
    {
        match parse(body.as_bytes()) {
            Ok(doc) => match RecvData::from_json(&doc) {
                Some(data) => Ok(data),
                None => Err(Error::InvalidMessage("missing field `msg`".to_owned())),
            },
            Err(complaint) => Err(Error::InvalidMessage(complaint)),
        }
    }
}

/// The wrapped message that the platform hands in with `body`, or the
/// complaint about the body.
pub open spec fn wrapped(body: Seq<u8>) -> Result<Seq<char>, Seq<char>> {
    match parsed_json(body) {
        Ok(doc) => match recv_data_of(doc) {
            Some(msg) => Ok(msg),
            None => Err(no_message_text()),
        },
        Err(complaint) => Err(complaint),
    }
}

/// What arrives with a body that the platform hands in: the message inside
/// its wrapping, or the complaint about either layer.
pub open spec fn unwrapped(body: Seq<u8>) -> Result<MessageView, Seq<char>> {
    match wrapped(body) {
        Ok(msg) => received(encode_utf8(msg)),
        Err(complaint) => Err(complaint),
    }
}

/// Unwraps the message that the platform hands in on the advertising side.
pub fn unwrap_message(body: &str) -> (r: Result<Message, Error>)
    ensures
        reports(r, unwrapped(encode_utf8(body@))),
{
    match RecvData::decode(body) {
        Ok(data) => Message::decode(data.msg.as_str().as_bytes()),
        Err(e) => Err(e),
    }
}

/// The text under which a device advertises its identifier: lower-case and
/// hyphenated.
pub fn advertised_identifier(uuid: u128) -> (text: String)
    ensures
        text@ == hyphenated_text(uuid, lower_digits()),
{
    hyphenated_lower(uuid)
}

} // verus!
