//! One Photon command: an operation code, an optional channel and a flat map
//! of parameters, and the decoder that reads one from its bytes.

use super::error::ProtocolError;
use super::span::span_bytes;
use super::wire::{le_i32, read_i32_le};
use crate::utils::text::text_from_utf8;
use bytes::Bytes;
use core::ops::Deref;
use std::collections::HashMap;
use vstd::prelude::*;
use vstd::utf8::{decode_utf8, valid_utf8};

verus! {

/// A decoded command.
#[derive(Debug, Clone)]
pub struct PhotonCommand {
    /// Which operation the command carries.
    pub operation_code: u8,
    /// The parameters, each a span of bytes under its key.
    pub parameters: HashMap<u8, Bytes>,
    /// The channel, where the command names one.
    pub channel_id: Option<u8>,
}

/// What a command is, as plain values.
#[verifier::ext_equal]
pub struct CommandView {
    pub operation_code: u8,
    pub channel_id: Option<u8>,
    pub parameters: Map<u8, Seq<u8>>,
}

/// The bytes under each key of a parameter table.
pub open spec fn parameter_bytes(table: Map<u8, Bytes>) -> Map<u8, Seq<u8>> {
    table.map_values(|span: Bytes| span_bytes(span))
}

impl View for PhotonCommand {
    type V = CommandView;

    open spec fn view(&self) -> CommandView {
        CommandView {
            operation_code: self.operation_code,
            channel_id: self.channel_id,
            parameters: parameter_bytes(self.parameters@),
        }
    }
}

/// The channel that a command's second byte names: its low seven bits where
/// the high bit is set, none otherwise.
pub open spec fn channel_of(byte: u8) -> Option<u8> {
    if byte & 0x80 != 0 {
        Some(byte & 0x7f)
    } else {
        None
    }
}

/// Whether a whole parameter record (key, length, value) stands at `at`.
pub open spec fn record_fits(body: Seq<u8>, at: int) -> bool {
    &&& 0 <= at
    &&& at + 1 < body.len()
    &&& at + 2 + body[at + 1] <= body.len()
}

/// Where the record at `at` ends.
pub open spec fn record_end(body: Seq<u8>, at: int) -> int {
    at + 2 + body[at + 1]
}

/// The parameters read from `at` on, added to those `found` so far. The scan
/// stops at the first record that does not fit; a later record under a key
/// replaces an earlier one.
pub open spec fn scan_parameters(body: Seq<u8>, at: int, found: Map<u8, Seq<u8>>) -> Map<
    u8,
    Seq<u8>,
>
    decreases body.len() - at,
{
    if record_fits(body, at) {
        scan_parameters(
            body,
            record_end(body, at),
            found.insert(body[at], body.subrange(at + 2, record_end(body, at))),
        )
    } else {
        found
    }
}

/// The command that the bytes of a command body hold.
pub open spec fn decoded_command(body: Seq<u8>) -> CommandView
    recommends
        body.len() >= 2,
{
    CommandView {
        operation_code: body[0],
        channel_id: channel_of(body[1]),
        parameters: scan_parameters(body, 2, Map::empty()),
    }
}

/// Whether whole parameter records fill the body from `at` to its end.
pub open spec fn records_fill(body: Seq<u8>, at: int) -> bool
    decreases body.len() - at,
{
    at == body.len() || (record_fits(body, at) && records_fill(body, record_end(body, at)))
}

/// The scan does not look past the records that fill a body: bytes that
/// follow them and hold no whole record change nothing.
proof fn lemma_scan_stops_at_truncation(
    head: Seq<u8>,
    tail: Seq<u8>,
    at: int,
    found: Map<u8, Seq<u8>>,
)
    requires
        0 <= at,
        records_fill(head, at),
        !record_fits(tail, 0),
    ensures
        scan_parameters(head + tail, at, found) == scan_parameters(head, at, found),
    decreases head.len() - at,
{
    let body = head + tail;
    if at < head.len() {
        // The record at `at` is the same in both, and so is what follows it.
        let end = record_end(head, at);
        assert(body.subrange(at + 2, end) =~= head.subrange(at + 2, end));
        lemma_scan_stops_at_truncation(
            head,
            tail,
            end,
            found.insert(head[at], head.subrange(at + 2, end)),
        );
    } else {
        // At the end of the records, what follows is the start of `tail`,
        // which holds no whole record.
        assert(record_fits(body, at) ==> record_fits(tail, 0));
    }
}

/// A truncated parameter record is dropped and nothing else: where whole
/// records fill a command body and bytes that hold no whole record follow
/// it, the command decoded from both is the command decoded from the body
/// alone.
pub proof fn lemma_truncated_record_is_dropped(head: Seq<u8>, tail: Seq<u8>)
    requires
        head.len() >= 2,
        records_fill(head, 2),
        !record_fits(tail, 0),
    ensures
        decoded_command(head + tail) == decoded_command(head),
{
    lemma_scan_stops_at_truncation(head, tail, 2, Map::empty());
}

/// What `get_int` reads under `key`: the first four bytes as a little-endian
/// signed integer, 0 for a shorter value, nothing for an absent key.
pub open spec fn int_parameter(parameters: Map<u8, Seq<u8>>, key: u8) -> Option<int> {
    if !parameters.contains_key(key) {
        None
    } else if parameters[key].len() >= 4 {
        Some(le_i32(parameters[key]))
    } else {
        Some(0)
    }
}

/// What `get_string` reads under `key`: the text that the value encodes in
/// UTF-8, nothing for an absent key or a value that is not UTF-8.
pub open spec fn string_parameter(parameters: Map<u8, Seq<u8>>, key: u8) -> Option<Seq<char>> {
    if parameters.contains_key(key) && valid_utf8(parameters[key]) {
        Some(decode_utf8(parameters[key]))
    } else {
        None
    }
}

impl PhotonCommand {
    /// A command without parameters.
    pub fn new(operation_code: u8, channel_id: Option<u8>) -> (command: Self)
        ensures
            command@ == (CommandView {
                operation_code,
                channel_id,
                parameters: Map::empty(),
            }),
    {
        let command = PhotonCommand { operation_code, parameters: HashMap::new(), channel_id };
        command
    }

    /// Puts `value` under `key`, in place of what stood there.
    pub fn add_parameter(&mut self, key: u8, value: Bytes)
        ensures
            final(self)@ == (CommandView {
                parameters: old(self)@.parameters.insert(key, span_bytes(value)),
                ..old(self)@
            }),
    {
        self.parameters.insert(key, value);
    }

    /// The parameter under `key` as an integer: the first four bytes of the
    /// value, least significant first. A value of fewer than four bytes is
    /// read as 0, an absent key as nothing.
    pub fn get_int(&self, key: u8) -> (value: Option<i32>)
        ensures
            value is Some <==> int_parameter(self@.parameters, key) is Some,
            value matches Some(v) ==> int_parameter(self@.parameters, key) == Some(v as int),
            !self@.parameters.contains_key(key) ==> value is None,
            self@.parameters.contains_key(key) && self@.parameters[key].len() < 4 ==> value
                == Some(0i32),
    {
        match self.parameters.get(&key) {
            Some(span) => {
                if span.len() >= 4 {
                    Some(read_i32_le(span.deref()))
                } else {
                    Some(0)
                }
            },
            None => None,
        }
    }

    /// The parameter under `key` as text: the value read as UTF-8. A value
    /// that is not UTF-8 is read as nothing, like an absent key.
    pub fn get_string(&self, key: u8) -> (value: Option<String>)
        ensures
            value is Some <==> string_parameter(self@.parameters, key) is Some,
            value matches Some(s) ==> string_parameter(self@.parameters, key) == Some(s@),
    {
        match self.parameters.get(&key) {
            Some(span) => text_from_utf8(vstd::slice::slice_to_vec(span.deref())),
            None => None,
        }
    }

    /// The parameter under `key` as it was received.
    pub fn get_bytes(&self, key: u8) -> (value: Option<&Bytes>)
        ensures
            value is Some <==> self@.parameters.contains_key(key),
            value matches Some(span) ==> self.parameters@.contains_key(key) && *span
                == self.parameters@[key] && span_bytes(*span) == self@.parameters[key],
    {
        self.parameters.get(&key)
    }

    /// Decodes the command that `data` holds: the operation code, the channel
    /// byte, then parameter records up to the first that does not fit.
    pub fn parse(data: &[u8]) -> (result: Result<Self, ProtocolError>)
        ensures
            result is Ok <==> data@.len() >= 2,
            result matches Err(e) ==> e == ProtocolError::MalformedCommand,
            result matches Ok(command) ==> command@ == decoded_command(data@),
    {
        if data.len() < 2 {
            return Err(ProtocolError::MalformedCommand);
        }
        let operation_code = data[0];
        let channel_id = if (data[1] & 0x80) != 0 {
            Some(data[1] & 0x7f)
        } else {
            None
        };
        let mut command = Self::new(operation_code, channel_id);
        let mut index: usize = 2;
        while data.len() - index >= 2 && data[index + 1] as usize <= data.len() - index - 2
            invariant
                2 <= index <= data@.len(),
                command.operation_code == operation_code,
                command.channel_id == channel_id,
                scan_parameters(data@, index as int, command@.parameters) == scan_parameters(
                    data@,
                    2,
                    Map::empty(),
                ),
            decreases data@.len() - index,
        {
            let key = data[index];
            let length = data[index + 1] as usize;
            let value = Bytes::copy_from_slice(&data[index + 2..index + 2 + length]);
            command.add_parameter(key, value);
            index += 2 + length;
        }
        Ok(command)
    }
}

} // verus!
