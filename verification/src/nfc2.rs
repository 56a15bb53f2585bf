//! What the tap reader exchanges with the platform.

use vstd::prelude::*;
use vstd::string::StringSliceAdditionalSpecFns;
use vstd::utf8::encode_utf8;
use crate::error::Error;
use crate::ident::{parsed_identifier, read_identifier, simple_text, simple_upper, upper_digits};
use crate::json::{parse, parsed_json, text_member, text_member_of, Json};

verus! {

/// What a tap yields: the text of the peer's identifier.
#[derive(Debug, Clone, PartialEq, Eq)]
pub struct UuidResponse {
    pub value: String,
}

/// The identifier that this device presents when it is tapped.
#[derive(Debug, Clone, PartialEq, Eq)]
pub struct HceRequest {
    pub uuid: String,
}

/// A complaint of the tap reader: its code and what belongs to it.
#[derive(Debug, Clone, PartialEq, Eq)]
pub struct NfcErrorResponse {
    pub code: String,
    pub data: String,
}

/// The complaint about a body that is a JSON text and not of the expected
/// shape.
pub open spec fn shape_text() -> Seq<char> {
    "unexpected shape"@
}

/// The text of the identifier that a document hands over: its string
/// `value`.
pub open spec fn tap_value_of(doc: Json) -> Option<Seq<char>> {
    match doc {
        Json::Object(members) => text_member_of(members@, "value"@),
        _ => None,
    }
}

/// The code and the data of the complaint that a document hands over: its
/// strings `code` and `data`.
pub open spec fn nfc_error_of(doc: Json) -> Option<(Seq<char>, Seq<char>)> {
    match doc {
        Json::Object(members) => match (
            text_member_of(members@, "code"@),
            text_member_of(members@, "data"@),
        ) {
            (Some(code), Some(data)) => Some((code, data)),
            _ => None,
        },
        _ => None,
    }
}

/// The text of the identifier that a tap hands over with `body`: the empty
/// text where the tap has no body, and else what the body's document holds.
pub open spec fn tap_value(body: Option<Seq<char>>) -> Result<Seq<char>, Seq<char>> {
    match body {
        None => Ok(Seq::empty()),
        Some(text) => match parsed_json(encode_utf8(text)) {
            Ok(doc) => match tap_value_of(doc) {
                Some(value) => Ok(value),
                None => Err(shape_text()),
            },
            Err(complaint) => Err(complaint),
        },
    }
}

impl Default for UuidResponse {
    fn default() -> (r: UuidResponse)
        ensures
            r.value@ == Seq::<char>::empty(),
    {
        UuidResponse { value: String::new() }
    }
}

impl Default for NfcErrorResponse {
    fn default() -> (r: NfcErrorResponse)
        ensures
            r.code@ == Seq::<char>::empty(),
            r.data@ == Seq::<char>::empty(),
    {
        NfcErrorResponse { code: String::new(), data: String::new() }
    }
}

impl UuidResponse {
    /// Reads what a tap yields from a document.
    pub fn from_json(doc: &Json) -> (r: Option<UuidResponse>)
        ensures
            match r {
                Some(response) => tap_value_of(*doc) == Some(response.value@),
                None => tap_value_of(*doc) is None,
            },
    {
        match doc {
            Json::Object(members) => match text_member(members, "value") {
                Some(value) => Some(UuidResponse { value }),
                None => None,
            },
            _ => None,
        }
    }

    /// Reads what a tap yields from the body that the platform hands in. A
    /// tap without a body yields the empty text; a body of another shape is
    /// reported as `InvalidMessage`.
    pub fn decode(body: Option<&str>) -> (r: Result<UuidResponse, Error>)
        ensures
            match r {
                Ok(response) => tap_value(
                    match body {
                        Some(text) => Some(text@),
                        None => None,
                    },
                ) == Ok::<Seq<char>, Seq<char>>(response.value@),
                Err(Error::InvalidMessage(why)) => tap_value(
                    match body {
                        Some(text) => Some(text@),
                        None => None,
                    },
                ) == Err::<Seq<char>, Seq<char>>(why@),
                Err(_) => false,
            },
    {
        match body {
            None => Ok(UuidResponse::default()),
            Some(text) => match parse(text.as_bytes()) {
                Ok(doc) => match UuidResponse::from_json(&doc) {
                    Some(response) => Ok(response),
                    None => Err(Error::InvalidMessage("unexpected shape".to_owned())),
                },
                Err(complaint) => Err(Error::InvalidMessage(complaint)),
            },
        }
    }

    /// The identifier that the tap handed over. A text that is no identifier
    /// is reported as `InvalidCard`.
    pub fn identifier(&self) -> (r: Result<u128, Error>)
        ensures
            r == match parsed_identifier(self.value@) {
                Some(id) => Ok::<u128, Error>(id),
                None => Err::<u128, Error>(Error::InvalidCard),
            },
    {
        match read_identifier(self.value.as_str()) {
            Some(id) => Ok(id),
            None => Err(Error::InvalidCard),
        }
    }
}

impl NfcErrorResponse {
    /// Reads a complaint of the tap reader from a document.
    pub fn from_json(doc: &Json) -> (r: Option<NfcErrorResponse>)
        ensures
            match r {
                Some(response) => nfc_error_of(*doc) == Some((response.code@, response.data@)),
                None => nfc_error_of(*doc) is None,
            },
    {
        match doc {
            Json::Object(members) => {
                let code = text_member(members, "code");
                let data = text_member(members, "data");
                match (code, data) {
                    (Some(code), Some(data)) => Some(NfcErrorResponse { code, data }),
                    _ => None,
                }
            },
            _ => None,
        }
    }

    /// Reads a complaint of the tap reader from the body that the platform
    /// hands in. A complaint without a body is empty; a body of another shape
    /// is reported as `InvalidMessage`.
    pub fn decode(body: Option<&str>) -> (r: Result<NfcErrorResponse, Error>)
        ensures
            match body {
                None => r matches Ok(response) && response.code@ == Seq::<char>::empty()
                    && response.data@ == Seq::<char>::empty(),
                Some(text) => match parsed_json(encode_utf8(text@)) {
                    Ok(doc) => match nfc_error_of(doc) {
                        Some(held) => r matches Ok(response) && (response.code@, response.data@)
                            == held,
                        None => r matches Err(Error::InvalidMessage(why)) && why@ == shape_text(),
                    },
                    Err(complaint) => r matches Err(Error::InvalidMessage(why)) && why@
                        == complaint,
                },
            },
    {
        match body {
            None => Ok(NfcErrorResponse::default()),
            Some(text) => match parse(text.as_bytes()) {
                Ok(doc) => match NfcErrorResponse::from_json(&doc) {
                    Some(response) => Ok(response),
                    None => Err(Error::InvalidMessage("unexpected shape".to_owned())),
                },
                Err(complaint) => Err(Error::InvalidMessage(complaint)),
            },
        }
    }
}

/// The text under which this device presents `uuid` to a tap: in upper case
/// and without hyphens.
pub fn presented_identifier(uuid: u128) -> (text: String)
    ensures
        text@ == simple_text(uuid, upper_digits()),
{
    simple_upper(uuid)
}

/// The peer's identifier as a tap hands it over with `body`.
pub fn tapped_identifier(body: Option<&str>) -> (r: Result<u128, Error>)
    ensures
        match tap_value(
            match body {
                Some(text) => Some(text@),
                None => None,
            },
        ) {
            Ok(value) => r == match parsed_identifier(value) {
                Some(id) => Ok::<u128, Error>(id),
                None => Err::<u128, Error>(Error::InvalidCard),
            },
            Err(complaint) => r matches Err(Error::InvalidMessage(why)) && why@ == complaint,
        },
{
    match UuidResponse::decode(body) {
        Ok(response) => response.identifier(),
        Err(e) => Err(e),
    }
}

} // verus!
