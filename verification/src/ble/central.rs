//! The initiating part: scans for the peer, connects and subscribes.

use vstd::prelude::*;
use vstd::string::*;
use vstd::utf8::encode_utf8;
use crate::ble::{BLEComm, Device, Event, Outgoing, Task};
use crate::blep::ConnectionStatus;
use crate::error::Error;
use crate::message::{writes, wire_text, Message, MessageView};

verus! {

/// How far the initiating side has come.
#[derive(Debug, Clone, Copy, PartialEq, Eq, Structural)]
pub enum CentralPhase {
    /// Not connecting.
    Idle,
    /// Asked the radio to scan.
    Discovering,
    /// Scanning for the peer.
    Scanning,
    /// Connecting to the peer.
    Linking,
    /// Subscribing to the peer's notifications.
    Subscribing,
    /// Connected and subscribed.
    Connected,
}

/// The initiating side of a session with the peer `uuid`.
#[derive(Debug, Clone, Copy, PartialEq, Eq, Structural)]
pub struct BLECentral {
    /// The peer's identifier, under which it advertises and is written to.
    pub uuid: u128,
    pub phase: CentralPhase,
}

/// The time that a scan is given, in milliseconds.
pub const SCAN_TIMEOUT_MS: u64 = 3000;

/// Whether `device` advertises `uuid`.
pub open spec fn advertises(device: Device, uuid: u128) -> bool {
    device.service_data@.contains(uuid)
}

/// The place of the first of `devices` that advertises `uuid`.
pub open spec fn first_match(devices: Seq<Device>, uuid: u128) -> Option<int>
    decreases devices.len(),
{
    if devices.len() == 0 {
        None
    } else {
        match first_match(devices.drop_last(), uuid) {
            Some(i) => Some(i),
            None => if advertises(devices.last(), uuid) {
                Some(devices.len() - 1)
            } else {
                None
            },
        }
    }
}

/// `first_match` finds a device that advertises `uuid`, no device before it
/// does, and it finds none only where none does.
pub proof fn lemma_first_match(devices: Seq<Device>, uuid: u128)
    ensures
        match first_match(devices, uuid) {
            Some(i) => 0 <= i < devices.len() && advertises(devices[i], uuid) && forall|j: int|
                0 <= j < i ==> !advertises(#[trigger] devices[j], uuid),
            None => forall|j: int| 0 <= j < devices.len() ==> !advertises(#[trigger] devices[j], uuid),
        },
    decreases devices.len(),
{
    if devices.len() > 0 {
        lemma_first_match(devices.drop_last(), uuid);
        assert(forall|j: int| 0 <= j < devices.len() - 1 ==> devices.drop_last()[j] == devices[j]);
    }
}

/// The state and the answer that follow when the initiating side `central`
/// learns of `event`. An event that the phase does not wait for changes
/// nothing and asks for nothing.
pub open spec fn central_step(central: BLECentral, event: Event) -> (BLECentral, Result<Task, Error>) {
    let idle = BLECentral { uuid: central.uuid, phase: CentralPhase::Idle };
    match (central.phase, event) {
        (CentralPhase::Discovering, Event::DiscoverStarted(Ok(_))) => (
            BLECentral { uuid: central.uuid, phase: CentralPhase::Scanning },
            Ok(Task::AwaitDevices),
        ),
        (CentralPhase::Discovering, Event::DiscoverStarted(Err(why))) => (
            idle,
            Err(Error::BleCentralDiscover(why)),
        ),
        (CentralPhase::Scanning, Event::Devices(devices)) => match first_match(
            devices@,
            central.uuid,
        ) {
            Some(i) => (
                BLECentral { uuid: central.uuid, phase: CentralPhase::Linking },
                Ok(Task::Link { address: devices@[i].address }),
            ),
            None => (central, Ok(Task::AwaitDevices)),
        },
        (CentralPhase::Scanning, Event::ScanEnded) => (idle, Err(Error::BleCentralDeviceNotFound)),
        (CentralPhase::Linking, Event::Linked(Ok(_))) => (
            BLECentral { uuid: central.uuid, phase: CentralPhase::Subscribing },
            Ok(Task::Subscribe { uuid: central.uuid }),
        ),
        (CentralPhase::Linking, Event::Linked(Err(why))) => (idle, Err(Error::BleCentralConnect(why))),
        (CentralPhase::Subscribing, Event::Subscribed { outcome: Ok(_), connected }) => if connected {
            (BLECentral { uuid: central.uuid, phase: CentralPhase::Connected }, Ok(Task::Forward))
        } else {
            (idle, Err(Error::BleCentralDeviceNotFound))
        },
        (CentralPhase::Subscribing, Event::Subscribed { outcome: Err(why), connected }) => (
            idle,
            Err(Error::BleCentralSubscribe(why)),
        ),
        (CentralPhase::Connected, Event::StatusChanged(ConnectionStatus::Disconnected)) => (
            idle,
            Ok(Task::Rest),
        ),
        _ => (central, Ok(Task::Rest)),
    }
}

/// Whether `outgoing` writes one of the wire forms of `message` to `uuid`.
pub open spec fn writes_message(outgoing: Outgoing, uuid: u128, message: MessageView) -> bool {
    outgoing matches Outgoing::Write { uuid: to, payload } && to == uuid && exists|order: Seq<u128>|
        writes(order, message) && payload@ == encode_utf8(#[trigger] wire_text(message, order))
}

/// Finds the first of `devices` that advertises `uuid`.
pub fn find_target(devices: &Vec<Device>, uuid: u128) -> (r: Option<usize>)
    ensures
        match r {
            Some(i) => first_match(devices@, uuid) == Some(i as int),
            None => first_match(devices@, uuid) is None,
        },
{
    let mut i: usize = 0;
    while i < devices.len()
        invariant
            i <= devices.len(),
            first_match(devices@.take(i as int), uuid) is None,
        decreases devices.len() - i,
    {
        proof {
            assert(devices@.take(i + 1).drop_last() =~= devices@.take(i as int));
        }
        let ids = &devices[i].service_data;
        let mut k: usize = 0;
        let mut found = false;
        while k < ids.len()
            invariant
                k <= ids.len(),
                found == ids@.take(k as int).contains(uuid),
            decreases ids.len() - k,
        {
            if ids[k] == uuid {
                found = true;
            }
            proof {
                let before = ids@.take(k as int);
                let after = ids@.take(k + 1);
                assert(after =~= before.push(ids@[k as int]));
                if before.contains(uuid) {
                    let w = choose|w: int| 0 <= w < before.len() && before[w] == uuid;
                    assert(after[w] == uuid);
                }
                if ids@[k as int] == uuid {
                    assert(after[k as int] == uuid);
                }
            }
            k += 1;
        }
        proof {
            assert(ids@.take(ids@.len() as int) =~= ids@);
        }
        if found {
            proof {
                lemma_found_here(devices@, uuid, i as int);
            }
            return Some(i);
        }
        i += 1;
    }
    proof {
        assert(devices@.take(devices@.len() as int) =~= devices@);
    }
    None
}

/// Where no device before place `i` advertises `uuid` and the one at `i`
/// does, `i` is the first match.
proof fn lemma_found_here(devices: Seq<Device>, uuid: u128, i: int)
    requires
        0 <= i < devices.len(),
        first_match(devices.take(i), uuid) is None,
        advertises(devices[i], uuid),
    ensures
        first_match(devices, uuid) == Some(i),
    decreases devices.len(),
{
    if i == devices.len() - 1 {
        assert(devices.drop_last() =~= devices.take(i));
    } else {
        assert(devices.drop_last().take(i) =~= devices.take(i));
        lemma_found_here(devices.drop_last(), uuid, i);
    }
}

impl BLECentral {
    /// The initiating side for the peer `uuid`, before it connects.
    pub fn new(uuid: u128) -> (r: BLECentral)
        ensures
            r == (BLECentral { uuid, phase: CentralPhase::Idle }),
    {
        BLECentral { uuid, phase: CentralPhase::Idle }
    }

    /// Learns what the radio did and says what is owed next. The scan is
    /// searched for the first device that advertises the peer's identifier;
    /// a scan that ends without one, and a subscription that leaves no
    /// connection, mean that the peer was not found. After a failure the
    /// side is idle again.
    pub fn on(&mut self, event: Event) -> (r: Result<Task, Error>)
        ensures
            (*final(self), r) == central_step(*old(self), event),
    {
        let uuid = self.uuid;
        match (self.phase, event) {
            (CentralPhase::Discovering, Event::DiscoverStarted(Ok(_))) => {
                self.phase = CentralPhase::Scanning;
                Ok(Task::AwaitDevices)
            },
            (CentralPhase::Discovering, Event::DiscoverStarted(Err(why))) => {
                self.phase = CentralPhase::Idle;
                Err(Error::BleCentralDiscover(why))
            },
            (CentralPhase::Scanning, Event::Devices(devices)) => match find_target(&devices, uuid) {
                Some(i) => {
                    proof {
                        lemma_first_match(devices@, uuid);
                    }
                    self.phase = CentralPhase::Linking;
                    Ok(Task::Link { address: devices[i].address.clone() })
                },
                None => Ok(Task::AwaitDevices),
            },
            (CentralPhase::Scanning, Event::ScanEnded) => {
                self.phase = CentralPhase::Idle;
                Err(Error::BleCentralDeviceNotFound)
            },
            (CentralPhase::Linking, Event::Linked(Ok(_))) => {
                self.phase = CentralPhase::Subscribing;
                Ok(Task::Subscribe { uuid })
            },
            (CentralPhase::Linking, Event::Linked(Err(why))) => {
                self.phase = CentralPhase::Idle;
                Err(Error::BleCentralConnect(why))
            },
            (CentralPhase::Subscribing, Event::Subscribed { outcome: Ok(_), connected }) => {
                if connected {
                    self.phase = CentralPhase::Connected;
                    Ok(Task::Forward)
                } else {
                    self.phase = CentralPhase::Idle;
                    Err(Error::BleCentralDeviceNotFound)
                }
            },
            (CentralPhase::Subscribing, Event::Subscribed { outcome: Err(why), connected }) => {
                self.phase = CentralPhase::Idle;
                Err(Error::BleCentralSubscribe(why))
            },
            (CentralPhase::Connected, Event::StatusChanged(ConnectionStatus::Disconnected)) => {
                self.phase = CentralPhase::Idle;
                Ok(Task::Rest)
            },
            _ => Ok(Task::Rest),
        }
    }

    /// What the radio's answer to a write means: a refusal is reported as
    /// `BleCenteralSendDataFailed` with the radio's words.
    pub fn sent(outcome: Result<(), String>) -> (r: Result<(), Error>)
        ensures
            r == match outcome {
                Ok(_) => Ok::<(), Error>(()),
                Err(why) => Err::<(), Error>(Error::BleCenteralSendDataFailed(why)),
            },
    {
        match outcome {
            Ok(_) => Ok(()),
            Err(why) => Err(Error::BleCenteralSendDataFailed(why)),
        }
    }
}

impl BLEComm for BLECentral {
    open spec fn connected(&self) -> bool {
        self.phase == CentralPhase::Connected
    }

    open spec fn connecting(&self, after: &Self, r: Result<Task, Error>) -> bool {
        *after == (BLECentral { uuid: self.uuid, phase: CentralPhase::Discovering }) && r == Ok::<
            Task,
            Error,
        >(Task::Discover { timeout_ms: SCAN_TIMEOUT_MS })
    }

    open spec fn sending(&self, message: Message, outgoing: Outgoing) -> bool {
        writes_message(outgoing, self.uuid, message@)
    }

    /// The wire form of `message`, to be written to the peer.
    fn send(&self, message: &Message) -> (r: Outgoing) {
        let text = message.to_string();
        Outgoing::Write { uuid: self.uuid, payload: text.as_str().as_bytes_vec() }
    }

    /// Starts over: the first thing owed is a scan of three seconds.
    fn connect(&mut self) -> (r: Result<Task, Error>) {
        self.phase = CentralPhase::Discovering;
        Ok(Task::Discover { timeout_ms: SCAN_TIMEOUT_MS })
    }

    fn is_connected(&self) -> (r: bool) {
        match self.phase {
            CentralPhase::Connected => true,
            _ => false,
        }
    }
}

} // verus!
