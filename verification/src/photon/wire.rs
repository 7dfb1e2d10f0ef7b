//! Little-endian integers as they stand on the wire.

use byteorder::{ByteOrder, LittleEndian};
use vstd::prelude::*;

verus! {

/// The unsigned 16-bit integer stored least significant byte first in the
/// first two bytes of `bytes`.
pub open spec fn le_u16(bytes: Seq<u8>) -> int
    recommends
        bytes.len() >= 2,
{
    bytes[0] as int + 0x100 * (bytes[1] as int)
}

/// The unsigned 32-bit integer stored least significant byte first in the
/// first four bytes of `bytes`.
pub open spec fn le_u32(bytes: Seq<u8>) -> int
    recommends
        bytes.len() >= 4,
{
    bytes[0] as int + 0x100 * (bytes[1] as int) + 0x1_0000 * (bytes[2] as int) + 0x100_0000 * (
    bytes[3] as int)
}

/// The signed 32-bit integer whose two's complement representation is stored
/// least significant byte first in the first four bytes of `bytes`.
pub open spec fn le_i32(bytes: Seq<u8>) -> int
    recommends
        bytes.len() >= 4,
{
    if le_u32(bytes) < 0x8000_0000 {
        le_u32(bytes)
    } else {
        le_u32(bytes) - 0x1_0000_0000
    }
}

/// Calls `byteorder::LittleEndian::read_u16`, which reads the first two bytes
/// of the buffer as a little-endian integer and panics on a shorter buffer.
#[verifier::external_body]
pub(crate) fn read_u16_le(buf: &[u8]) -> (value: u16)
    requires
        buf@.len() >= 2,
    ensures
        value as int == le_u16(buf@),
{
    LittleEndian::read_u16(buf)
}

/// Calls `byteorder::LittleEndian::read_u32`, which reads the first four bytes
/// of the buffer as a little-endian integer and panics on a shorter buffer.
#[verifier::external_body]
pub(crate) fn read_u32_le(buf: &[u8]) -> (value: u32)
    requires
        buf@.len() >= 4,
    ensures
        value as int == le_u32(buf@),
{
    LittleEndian::read_u32(buf)
}

/// Calls `byteorder::LittleEndian::read_i32`, which reads the first four bytes
/// of the buffer as a little-endian two's complement integer and panics on a
/// shorter buffer.
#[verifier::external_body]
pub(crate) fn read_i32_le(buf: &[u8]) -> (value: i32)
    requires
        buf@.len() >= 4,
    ensures
        value as int == le_i32(buf@),
{
    LittleEndian::read_i32(buf)
}

} // verus!
