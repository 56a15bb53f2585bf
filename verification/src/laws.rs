//! What holds of a session whatever its state and whatever arrives.

use vstd::prelude::*;
use crate::ble::{
    after_connect, after_receive, after_receive_all, after_send, connect_answer, connected,
    outbound, permits_of, role_in, send_answer, session_step, turned_away, BridgeView, Event,
    Outgoing, Sending, Task,
};
use crate::error::Error;
use crate::message::received;

verus! {

/// Meeting the connected peer once more changes nothing and succeeds: the
/// session is not negotiated again.
pub proof fn law_connect_again(bridge: BridgeView, peer: u128, r: Result<Task, Error>)
    requires
        connected(bridge),
        bridge.last_uuid == Some(peer),
        connect_answer(bridge, peer, r),
    ensures
        after_connect(bridge, peer) == bridge,
        r == Ok::<Task, Error>(Task::Rest),
{
}

/// The role of a device towards its peer is decided once: meeting the same
/// peer again, whatever the radio reports, and every inbound message and
/// every send leave it as it is.
pub proof fn law_role_is_kept(bridge: BridgeView, peer: u128, event: Event, payload: Seq<u8>)
    requires
        bridge.last_uuid == Some(peer),
    ensures
        !turned_away(bridge, peer),
        role_in(after_connect(bridge, peer)) == role_in(bridge),
        role_in(BridgeView { session: session_step(bridge.session, event).0, ..bridge })
            == role_in(bridge),
        role_in(after_receive(bridge, payload)) == role_in(bridge),
        role_in(after_send(bridge)) == role_in(bridge),
{
}

/// A responding device without a permit neither sends nor fails: the send
/// waits and changes nothing.
pub proof fn law_send_waits_for_permit(bridge: BridgeView, r: Result<Outgoing, Error>)
    requires
        permits_of(bridge) == Some(0nat),
        send_answer(bridge, r),
    ensures
        outbound(bridge) == Sending::Wait,
        after_send(bridge) == bridge,
        r == Ok::<Outgoing, Error>(Outgoing::Wait),
{
}

/// Each well-formed inbound message earns a responding device exactly one
/// permit, and each send that goes out spends exactly one: a send goes out
/// if and only if a permit is held.
pub proof fn law_permits_count(bridge: BridgeView, payload: Seq<u8>)
    requires
        permits_of(bridge) is Some,
    ensures
        permits_of(after_receive(bridge, payload)) == Some(
            if received(payload) is Ok {
                permits_of(bridge)->0 + 1
            } else {
                permits_of(bridge)->0
            },
        ),
        outbound(bridge) is Transmit <==> permits_of(bridge)->0 > 0,
        outbound(bridge) is Transmit ==> permits_of(after_send(bridge)) == Some(
            (permits_of(bridge)->0 - 1) as nat,
        ),
        !(outbound(bridge) is Transmit) ==> after_send(bridge) == bridge,
{
}

/// After exactly one well-formed inbound message, exactly one send of a
/// responding device that held no permit goes out: the first does, and the
/// second waits.
pub proof fn law_one_message_one_send(bridge: BridgeView, payload: Seq<u8>)
    requires
        permits_of(bridge) == Some(0nat),
        received(payload) is Ok,
    ensures
        outbound(after_receive(bridge, payload)) is Transmit,
        outbound(after_send(after_receive(bridge, payload))) == Sending::Wait,
{
}

/// Taking two batches of inbound payloads one after the other is taking
/// them as one batch: forwarding keeps the order of arrival.
pub proof fn law_receive_in_order(bridge: BridgeView, first: Seq<Seq<u8>>, second: Seq<Seq<u8>>)
    ensures
        after_receive_all(bridge, first + second) == after_receive_all(
            after_receive_all(bridge, first),
            second,
        ),
    decreases second.len(),
{
    if second.len() == 0 {
        assert(first + second =~= first);
    } else {
        law_receive_in_order(bridge, first, second.drop_last());
        assert((first + second).drop_last() =~= first + second.drop_last());
        assert((first + second).last() == second.last());
    }
}

} // verus!
