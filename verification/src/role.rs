//! Which of two devices leads a session.

use vstd::prelude::*;
use crate::error::Error;

verus! {

/// The part a device plays in a session.
#[derive(Debug, Clone, Copy, PartialEq, Eq, Structural)]
pub enum Role {
    /// Scans for the peer and connects to it.
    Initiator,
    /// Advertises and waits for the peer.
    Responder,
}

/// The role of the device that holds `local` when it meets the device that
/// holds `peer`: the larger identifier initiates. Two equal identifiers give
/// no role.
pub open spec fn role_of(local: u128, peer: u128) -> Option<Role> {
    if local > peer {
        Some(Role::Initiator)
    } else if local < peer {
        Some(Role::Responder)
    } else {
        None
    }
}

/// The text that is reported when both devices hold the same identifier.
pub open spec fn lucky_text() -> Seq<char> {
    "How lucky you are! There is only 1e-36 possibility to get the same uuid!"@
}

/// Chooses the role of this device from the two identifiers alone, so that
/// the two devices need not negotiate.
pub fn select_role(local: u128, peer: u128) -> (r: Result<Role, Error>)
    ensures
        match r {
            Ok(role) => role_of(local, peer) == Some(role),
            Err(e) => local == peer && (e matches Error::Lucky(text) && text@ == lucky_text()),
        },
{
    if local > peer {
        Ok(Role::Initiator)
    } else if local < peer {
        Ok(Role::Responder)
    } else {
        Err(Error::Lucky(
            "How lucky you are! There is only 1e-36 possibility to get the same uuid!".to_owned(),
        ))
    }
}

/// Two devices with different identifiers always take different roles, and a
/// device never takes a role against its own identifier.
pub proof fn law_roles_complement(a: u128, b: u128)
    ensures
        a != b ==> (role_of(a, b) == Some(Role::Initiator) && role_of(b, a) == Some(Role::Responder))
            || (role_of(a, b) == Some(Role::Responder) && role_of(b, a) == Some(Role::Initiator)),
        role_of(a, a) is None,
{
}

} // verus!
