//! What can be wrong with a unit of wire data.

use vstd::prelude::*;

verus! {

/// Why a packet, a command or a fragment could not be decoded. Each is
/// recovered from by skipping the offending unit.
#[derive(Debug, Clone, Copy, PartialEq, Eq, Structural)]
pub enum ProtocolError {
    /// The packet is shorter than the fixed packet header.
    PacketTooSmall,
    /// The command holds fewer than two bytes.
    MalformedCommand,
    /// The fragment body is shorter than the fragment header.
    FragmentTooShort,
}

} // verus!
