//! The packet decoder: the fixed packet header, then the frames that follow
//! it, each a command, a fragment of one, or something to skip.

use super::command::{decoded_command, CommandView, PhotonCommand};
use super::error::ProtocolError;
use super::fragment_buffer::{FragmentBuffer, FragmentBufferView};
use super::wire::{le_u16, le_u32, read_u16_le, read_u32_le};
use vstd::prelude::*;
use vstd::slice::slice_to_vec;

verus! {

/// The length of the packet header.
pub const PACKET_HEADER_SIZE: usize = 12;

/// The length of the header that starts the body of a fragment.
pub const FRAGMENT_HEADER_SIZE: usize = 16;

/// What kind of frame a type tag announces.
#[derive(Debug, Clone, Copy, PartialEq, Eq, Structural)]
pub enum PhotonCommandType {
    /// A whole command, sent unreliably.
    Unreliable,
    /// A whole command, sent reliably.
    Reliable,
    /// One fragment of a reliable command.
    ReliableFragment,
    /// Any other tag, kept as it was read.
    Unknown(u8),
}

/// The kind that a type tag stands for.
pub open spec fn command_type_of(tag: u8) -> PhotonCommandType {
    if tag == 0 {
        PhotonCommandType::Unreliable
    } else if tag == 1 {
        PhotonCommandType::Reliable
    } else if tag == 2 {
        PhotonCommandType::ReliableFragment
    } else {
        PhotonCommandType::Unknown(tag)
    }
}

impl From<u8> for PhotonCommandType {
    fn from(value: u8) -> (kind: Self) {
        match value {
            0 => PhotonCommandType::Unreliable,
            1 => PhotonCommandType::Reliable,
            2 => PhotonCommandType::ReliableFragment,
            _ => PhotonCommandType::Unknown(value),
        }
    }
}

impl vstd::std_specs::convert::FromSpecImpl<u8> for PhotonCommandType {
    open spec fn obeys_from_spec() -> bool {
        true
    }

    open spec fn from_spec(value: u8) -> Self {
        command_type_of(value)
    }
}

/// The fields of the packet header that the decoder reads.
#[derive(Debug, Clone, Copy, PartialEq, Eq, Structural)]
pub struct PacketHeader {
    pub peer_id: u16,
    pub flags: u8,
    pub command_count: u8,
}

/// The header that the first bytes of a packet hold.
pub open spec fn packet_header(packet: Seq<u8>) -> PacketHeader
    recommends
        packet.len() >= PACKET_HEADER_SIZE,
{
    PacketHeader {
        peer_id: le_u16(packet.subrange(0, 2)) as u16,
        flags: packet[2],
        command_count: packet[3],
    }
}

impl PacketHeader {
    /// Reads the header of a packet.
    pub fn parse(data: &[u8]) -> (result: Result<PacketHeader, ProtocolError>)
        ensures
            result is Ok <==> data@.len() >= PACKET_HEADER_SIZE,
            result matches Err(e) ==> e == ProtocolError::PacketTooSmall,
            result matches Ok(header) ==> header == packet_header(data@),
    {
        if data.len() < PACKET_HEADER_SIZE {
            return Err(ProtocolError::PacketTooSmall);
        }
        let peer_id = read_u16_le(&data[0..2]);
        Ok(PacketHeader { peer_id, flags: data[2], command_count: data[3] })
    }
}

/// The header that starts the body of a fragment.
#[derive(Debug, Clone, Copy, PartialEq, Eq, Structural)]
pub struct FragmentHeader {
    pub fragment_id: u32,
    pub fragment_count: u32,
    pub fragment_number: u32,
    pub total_size: u32,
}

/// The header that the first bytes of a fragment body hold.
pub open spec fn fragment_header(body: Seq<u8>) -> FragmentHeader
    recommends
        body.len() >= FRAGMENT_HEADER_SIZE,
{
    FragmentHeader {
        fragment_id: le_u32(body.subrange(0, 4)) as u32,
        fragment_count: le_u32(body.subrange(4, 8)) as u32,
        fragment_number: le_u32(body.subrange(8, 12)) as u32,
        total_size: le_u32(body.subrange(12, 16)) as u32,
    }
}

impl FragmentHeader {
    /// Reads the header of a fragment body.
    pub fn parse(body: &[u8]) -> (result: Result<FragmentHeader, ProtocolError>)
        ensures
            result is Ok <==> body@.len() >= FRAGMENT_HEADER_SIZE,
            result matches Err(e) ==> e == ProtocolError::FragmentTooShort,
            result matches Ok(header) ==> header == fragment_header(body@),
    {
        if body.len() < FRAGMENT_HEADER_SIZE {
            return Err(ProtocolError::FragmentTooShort);
        }
        Ok(
            FragmentHeader {
                fragment_id: read_u32_le(&body[0..4]),
                fragment_count: read_u32_le(&body[4..8]),
                fragment_number: read_u32_le(&body[8..12]),
                total_size: read_u32_le(&body[12..16]),
            },
        )
    }
}

/// What decoding yields: the commands, in the order of their frames, and the
/// fragment buffer as it is left.
#[verifier::ext_equal]
pub struct Decoded {
    pub commands: Seq<CommandView>,
    pub buffer: FragmentBufferView,
}

/// The views of a list of commands.
pub open spec fn command_views(commands: Seq<PhotonCommand>) -> Seq<CommandView> {
    commands.map_values(|command: PhotonCommand| command@)
}

/// The commands that a command body yields: the command it holds, or none
/// where it is too short to hold one.
pub open spec fn body_commands(body: Seq<u8>) -> Seq<CommandView> {
    if body.len() >= 2 {
        seq![decoded_command(body)]
    } else {
        Seq::empty()
    }
}

/// What the body of a fragment frame yields. A body too short for the
/// fragment header changes nothing. Otherwise the payload goes into the
/// buffer, and if that completes the set, the set leaves the buffer and its
/// data is decoded as a command body.
pub open spec fn fragment_step(body: Seq<u8>, buffer: FragmentBufferView) -> Decoded {
    if body.len() < FRAGMENT_HEADER_SIZE {
        Decoded { commands: Seq::empty(), buffer }
    } else {
        let header = fragment_header(body);
        let added = buffer.with_fragment(
            header.fragment_id,
            header.fragment_count,
            header.fragment_number,
            header.total_size,
            body.subrange(FRAGMENT_HEADER_SIZE as int, body.len() as int),
        );
        Decoded {
            commands: match added.completed(header.fragment_id) {
                Some(data) => body_commands(data),
                None => Seq::empty(),
            },
            buffer: added.after_completion(header.fragment_id),
        }
    }
}

/// What one frame yields, by its type tag.
pub open spec fn frame_step(tag: u8, body: Seq<u8>, buffer: FragmentBufferView) -> Decoded {
    match command_type_of(tag) {
        PhotonCommandType::Unreliable => Decoded { commands: body_commands(body), buffer },
        PhotonCommandType::Reliable => Decoded { commands: body_commands(body), buffer },
        PhotonCommandType::ReliableFragment => fragment_step(body, buffer),
        PhotonCommandType::Unknown(_) => Decoded { commands: Seq::empty(), buffer },
    }
}

/// Whether a whole frame (type tag, length, body) stands at `at`.
pub open spec fn frame_fits(packet: Seq<u8>, at: int) -> bool {
    &&& 0 <= at
    &&& at + 2 <= packet.len()
    &&& at + 2 + packet[at + 1] <= packet.len()
}

/// Where the frame at `at` ends.
pub open spec fn frame_end(packet: Seq<u8>, at: int) -> int {
    at + 2 + packet[at + 1]
}

/// The body of the frame at `at`.
pub open spec fn frame_body(packet: Seq<u8>, at: int) -> Seq<u8> {
    packet.subrange(at + 2, frame_end(packet, at))
}

/// What up to `frames` frames from `at` on yield. Decoding stops at the first
/// frame that does not fit.
pub open spec fn decode_frames(
    packet: Seq<u8>,
    at: int,
    frames: nat,
    buffer: FragmentBufferView,
) -> Decoded
    decreases frames,
{
    if frames == 0 || !frame_fits(packet, at) {
        Decoded { commands: Seq::empty(), buffer }
    } else {
        let first = frame_step(packet[at], frame_body(packet, at), buffer);
        let rest = decode_frames(
            packet,
            frame_end(packet, at),
            (frames - 1) as nat,
            first.buffer,
        );
        Decoded { commands: first.commands + rest.commands, buffer: rest.buffer }
    }
}

/// What a packet yields: as many frames as its header counts, read from the
/// end of the header on.
pub open spec fn decoded_packet(packet: Seq<u8>, buffer: FragmentBufferView) -> Decoded
    recommends
        packet.len() >= PACKET_HEADER_SIZE,
{
    decode_frames(
        packet,
        PACKET_HEADER_SIZE as int,
        packet_header(packet).command_count as nat,
        buffer,
    )
}

/// The packet decoder. It owns the fragments that wait for their set to
/// complete, from one packet to the next.
pub struct PhotonLayer {
    fragment_buffer: FragmentBuffer,
}

impl View for PhotonLayer {
    type V = FragmentBufferView;

    closed spec fn view(&self) -> FragmentBufferView {
        self.fragment_buffer@
    }
}

impl PhotonLayer {
    /// A decoder that holds no fragments.
    pub fn new() -> (layer: Self)
        ensures
            layer@ == (FragmentBufferView { sets: Map::empty(), clock: 0 }),
    {
        PhotonLayer { fragment_buffer: FragmentBuffer::new() }
    }

    /// Drops the fragments of sets that have gone stale.
    pub fn clean_old_entries(&mut self)
        ensures
            final(self)@ == old(self)@.without_stale(),
    {
        self.fragment_buffer.clean_old_entries();
    }

    /// Decodes the commands of a packet. A packet shorter than the header is
    /// refused; anything wrong after the header only ends or shortens the
    /// list of commands.
    pub fn process_packet(&mut self, data: &[u8]) -> (result: Result<
        Vec<PhotonCommand>,
        ProtocolError,
    >)
        ensures
            result is Ok <==> data@.len() >= PACKET_HEADER_SIZE,
            result matches Err(e) ==> e == ProtocolError::PacketTooSmall,
            result is Err ==> final(self)@ == old(self)@,
            result matches Ok(commands) ==> {
                &&& command_views(commands@) == decoded_packet(data@, old(self)@).commands
                &&& final(self)@ == decoded_packet(data@, old(self)@).buffer
            },
            result matches Ok(commands) ==> (data@[3] == 0 ==> commands@.len() == 0),
            result is Ok && data@[3] == 0 ==> final(self)@ == old(self)@,
    {
        let header = match PacketHeader::parse(data) {
            Ok(header) => header,
            Err(e) => {
                return Err(e);
            },
        };
        let mut offset: usize = PACKET_HEADER_SIZE;
        let mut remaining: u8 = header.command_count;
        let mut commands: Vec<PhotonCommand> = Vec::new();
        while remaining > 0 && data.len() - offset >= 2 && data[offset + 1] as usize <= data.len()
            - offset - 2
            invariant
                PACKET_HEADER_SIZE <= offset <= data@.len(),
                decoded_packet(data@, old(self)@) == (Decoded {
                    commands: command_views(commands@) + decode_frames(
                        data@,
                        offset as int,
                        remaining as nat,
                        self@,
                    ).commands,
                    buffer: decode_frames(data@, offset as int, remaining as nat, self@).buffer,
                }),
            decreases remaining,
        {
            let command_type = PhotonCommandType::from(data[offset]);
            let command_length = data[offset + 1] as usize;
            let body = &data[offset + 2..offset + 2 + command_length];
            match command_type {
                PhotonCommandType::Unreliable | PhotonCommandType::Reliable => {
                    if let Ok(command) = PhotonCommand::parse(body) {
                        commands.push(command);
                    }
                },
                PhotonCommandType::ReliableFragment => {
                    if let Ok(fragment) = FragmentHeader::parse(body) {
                        let payload = slice_to_vec(&body[FRAGMENT_HEADER_SIZE..body.len()]);
                        self.fragment_buffer.add_fragment(
                            fragment.fragment_id,
                            fragment.fragment_count,
                            fragment.fragment_number,
                            fragment.total_size,
                            payload,
                        );
                        if let Some(complete_data) = self.fragment_buffer.get_complete_data(
                            fragment.fragment_id,
                        ) {
                            if let Ok(command) = PhotonCommand::parse(complete_data.as_slice()) {
                                commands.push(command);
                            }
                        }
                    }
                },
                PhotonCommandType::Unknown(_) => {},
            }
            offset += 2 + command_length;
            remaining -= 1;
        }
        Ok(commands)
    }
}

} // verus!
