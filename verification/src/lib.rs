//! Pairing of two devices that were tapped together, and the flow-controlled
//! exchange of short messages between them over a low-power radio link.
//!
//! The crate holds the decisions of a session: which of the two devices
//! initiates, how the connection proceeds, when a message may be sent, and how
//! messages are framed on the wire. The radio itself is driven by the caller,
//! who performs the tasks that the session hands out and reports back what
//! happened.

pub mod ble;
pub mod blep;
pub mod error;
pub mod ident;
pub mod json;
pub mod laws;
pub mod message;
pub mod models;
pub mod nfc2;
pub mod role;
