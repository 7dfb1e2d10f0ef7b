//! Which traffic is Photon traffic, and on which interface to listen for it.

use super::text::{lowercase, lowercase_of, occurs_in, text_contains};
use crate::photon::layer::PACKET_HEADER_SIZE;
use vstd::prelude::*;

verus! {

/// The flags of a Photon packet are below this.
pub const FLAGS_LIMIT: u8 = 10;

/// The command count of a Photon packet is below this, and not zero.
pub const COMMAND_COUNT_LIMIT: u8 = 20;

/// Whether a payload has the signature of a Photon packet: it is long enough
/// for the header, and the header's flags and command count are plausible.
pub open spec fn looks_like_photon(payload: Seq<u8>) -> bool {
    &&& payload.len() >= PACKET_HEADER_SIZE
    &&& payload[2] < FLAGS_LIMIT
    &&& 0 < payload[3] < COMMAND_COUNT_LIMIT
}

/// Whether a payload has the signature of a Photon packet.
pub fn is_photon_packet(data: &[u8]) -> (plausible: bool)
    ensures
        plausible == looks_like_photon(data@),
{
    if data.len() < PACKET_HEADER_SIZE {
        return false;
    }
    let flags = data[2];
    let command_count = data[3];
    flags < FLAGS_LIMIT && command_count > 0 && command_count < COMMAND_COUNT_LIMIT
}

/// What the choice of an interface reads of a capture device.
#[derive(Debug, Clone)]
pub struct NetworkInterface {
    pub name: String,
    pub description: Option<String>,
}

/// The description of an interface, empty where it has none.
pub open spec fn description_of(interface: NetworkInterface) -> Seq<char> {
    match interface.description {
        Some(description) => description@,
        None => Seq::empty(),
    }
}

/// Whether an interface is a loopback interface by its name or its
/// description.
pub open spec fn is_loopback(interface: NetworkInterface) -> bool {
    ||| occurs_in("loop"@, interface.name@)
    ||| occurs_in("loopback"@, lowercase_of(description_of(interface)))
}

/// Whether an interface is a loopback interface.
pub fn interface_is_loopback(interface: &NetworkInterface) -> (loopback: bool)
    ensures
        loopback == is_loopback(*interface),
{
    if text_contains(interface.name.as_str(), "loop") {
        return true;
    }
    let lowered = match &interface.description {
        Some(description) => lowercase(description.as_str()),
        None => lowercase(""),
    };
    proof {
        reveal_strlit("");
        assert(""@ =~= Seq::<char>::empty());
    }
    text_contains(lowered.as_str(), "loopback")
}

/// The position of the interface to listen on where none was asked for: the
/// first that is not a loopback interface, or the first of all where all are.
/// There is one unless the list is empty.
pub fn find_default_interface(interfaces: &Vec<NetworkInterface>) -> (found: Option<usize>)
    ensures
        found is Some <==> interfaces@.len() > 0,
        found matches Some(at) ==> at < interfaces@.len(),
        found matches Some(at) ==> (forall|before: int|
            0 <= before < at ==> is_loopback(#[trigger] interfaces@[before])),
        found matches Some(at) ==> !is_loopback(interfaces@[at as int]) || (at == 0 && forall|
            any: int,
        |
            0 <= any < interfaces@.len() ==> is_loopback(#[trigger] interfaces@[any])),
{
    let mut at: usize = 0;
    while at < interfaces.len()
        invariant
            at <= interfaces@.len(),
            forall|before: int| 0 <= before < at ==> is_loopback(#[trigger] interfaces@[before]),
        decreases interfaces@.len() - at,
    {
        if !interface_is_loopback(&interfaces[at]) {
            return Some(at);
        }
        at = at + 1;
    }
    if interfaces.len() > 0 {
        Some(0)
    } else {
        None
    }
}

} // verus!
