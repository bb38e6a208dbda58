//! Fixed-width little-endian integer decoding and encoding.
//!
//! Header fields are stored as little-endian `u32` values at fixed offsets;
//! these helpers state that byte-level layout once and prove the round trip.

use vstd::prelude::*;

verus! {

/// The little-endian `u32` held by the four bytes of `b` starting at `off`.
pub open spec fn le_u32_at(b: Seq<u8>, off: int) -> u32
    recommends
        0 <= off,
        off + 4 <= b.len(),
{
    (b[off] as u32) | ((b[off + 1] as u32) << 8) | ((b[off + 2] as u32) << 16) | ((b[off
        + 3] as u32) << 24)
}

/// The four little-endian bytes of `x`, least significant first.
pub open spec fn u32_le_bytes(x: u32) -> Seq<u8> {
    seq![
        (x & 0xff) as u8,
        ((x >> 8) & 0xff) as u8,
        ((x >> 16) & 0xff) as u8,
        ((x >> 24) & 0xff) as u8,
    ]
}

/// Recomposing the four little-endian bytes of `x` gives back `x`.
pub proof fn lemma_u32_le_round_trip(x: u32)
    ensures
        le_u32_at(u32_le_bytes(x), 0) == x,
{
    assert(((x & 0xff) as u8 as u32) | ((((x >> 8) & 0xff) as u8 as u32) << 8) | ((((x >> 16)
        & 0xff) as u8 as u32) << 16) | ((((x >> 24) & 0xff) as u8 as u32) << 24) == x)
        by (bit_vector);
}

/// Reads the little-endian `u32` at offset `off` of `data`.
pub fn read_u32_le(data: &[u8], off: usize) -> (r: u32)
    requires
        off + 4 <= data@.len(),
    ensures
        r == le_u32_at(data@, off as int),
{
    let b0 = data[off] as u32;
    let b1 = data[off + 1] as u32;
    let b2 = data[off + 2] as u32;
    let b3 = data[off + 3] as u32;
    b0 | (b1 << 8) | (b2 << 16) | (b3 << 24)
}

/// The little-endian byte of `x` with significance `j` (0 is the lowest).
pub fn u32_le_byte(x: u32, j: usize) -> (r: u8)
    requires
        j < 4,
    ensures
        r == u32_le_bytes(x)[j as int],
{
    match j {
        0 => (x & 0xff) as u8,
        1 => ((x >> 8) & 0xff) as u8,
        2 => ((x >> 16) & 0xff) as u8,
        _ => ((x >> 24) & 0xff) as u8,
    }
}

} // verus!
