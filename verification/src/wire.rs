//! Little-endian integers in a byte sequence.

use vstd::prelude::*;

verus! {

/// The 16-bit value stored little-endian at `bytes[at]` and `bytes[at + 1]`.
pub open spec fn u16_le(bytes: Seq<u8>, at: int) -> int {
    bytes[at] + 256 * bytes[at + 1]
}

/// The 32-bit value stored little-endian at `bytes[at]` to `bytes[at + 3]`.
pub open spec fn u32_le(bytes: Seq<u8>, at: int) -> int {
    bytes[at] + 256 * bytes[at + 1] + 65536 * bytes[at + 2] + 16777216 * bytes[at + 3]
}

/// Reads the little-endian 16-bit value that starts at `buf[at]`.
pub fn u16_at(buf: &[u8], at: usize) -> (value: u16)
    requires
        at + 2 <= buf.len(),
    ensures
        value == u16_le(buf@, at as int),
{
    let lo: u16 = buf[at] as u16;
    let hi: u16 = buf[at + 1] as u16;
    lo + 256 * hi
}

/// Reads the little-endian 32-bit value that starts at `buf[at]`.
pub fn u32_at(buf: &[u8], at: usize) -> (value: u32)
    requires
        at + 4 <= buf.len(),
    ensures
        value == u32_le(buf@, at as int),
{
    let b0: u32 = buf[at] as u32;
    let b1: u32 = buf[at + 1] as u32;
    let b2: u32 = buf[at + 2] as u32;
    let b3: u32 = buf[at + 3] as u32;
    b0 + 256 * b1 + 65536 * b2 + 16777216 * b3
}

/// Decodes a four-byte little-endian length field.
pub fn read_u32(buf: &[u8]) -> (value: u32)
    requires
        buf.len() == 4,
    ensures
        value == u32_le(buf@, 0),
{
    u32_at(buf, 0)
}

} // verus!
