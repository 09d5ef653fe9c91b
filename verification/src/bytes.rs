//! Little-endian integers in a byte sequence.

use vstd::prelude::*;

verus! {

/// The unsigned 32-bit integer whose little-endian bytes stand at
/// `at .. at + 4` in `bytes`.
pub open spec fn le_u32(bytes: Seq<u8>, at: int) -> int
    recommends
        0 <= at,
        at + 4 <= bytes.len(),
{
    bytes[at] as int + 0x100 * (bytes[at + 1] as int) + 0x1_0000 * (bytes[at + 2] as int)
        + 0x100_0000 * (bytes[at + 3] as int)
}

/// The unsigned 64-bit integer whose little-endian bytes stand at
/// `at .. at + 8` in `bytes`.
pub open spec fn le_u64(bytes: Seq<u8>, at: int) -> int
    recommends
        0 <= at,
        at + 8 <= bytes.len(),
{
    le_u32(bytes, at) + 0x1_0000_0000 * le_u32(bytes, at + 4)
}

/// Reads the little-endian `u32` at offset `at`.
pub fn read_u32_le(bytes: &[u8], at: usize) -> (r: u32)
    requires
        at + 4 <= bytes@.len(),
    ensures
        r == le_u32(bytes@, at as int),
{
    let b0: u32 = bytes[at] as u32;
    let b1: u32 = bytes[at + 1] as u32;
    let b2: u32 = bytes[at + 2] as u32;
    let b3: u32 = bytes[at + 3] as u32;
    b0 + 0x100 * b1 + 0x1_0000 * b2 + 0x100_0000 * b3
}

/// Reads the little-endian `u64` at offset `at`.
pub fn read_u64_le(bytes: &[u8], at: usize) -> (r: u64)
    requires
        at + 8 <= bytes@.len(),
    ensures
        r == le_u64(bytes@, at as int),
{
    assert(bytes@.len() == bytes.len());
    let low: u64 = read_u32_le(bytes, at) as u64;
    let high: u64 = read_u32_le(bytes, at + 4) as u64;
    low + 0x1_0000_0000 * high
}

} // verus!
