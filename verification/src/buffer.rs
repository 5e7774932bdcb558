//! Bounds-checked reads over a borrowed frame, and network byte order.
//!
//! Every field the engine inspects is fetched through one of the `read_*`
//! functions below: each succeeds and returns the requested bytes if and only
//! if the whole field lies inside the buffer, so no caller can reach past the
//! end of a frame. Multi-byte wire fields arrive in network byte order
//! (big-endian); `read_u16` and `read_u32` return the raw word exactly as a
//! little-endian host loads it from the wire, and `be16` / `be32` convert such
//! a word to its host-order value before any comparison.

use vstd::prelude::*;

verus! {

/// The 16-bit word a little-endian host loads from the two wire bytes
/// `b0, b1` (lower address first): `b0` becomes the least significant byte.
pub open spec fn word16_le(b0: u8, b1: u8) -> u16 {
    (b0 + 256 * b1) as u16
}

/// The host-order value of a 16-bit field whose wire bytes are `b0, b1`
/// (lower address first): network byte order puts the most significant
/// byte first.
pub open spec fn word16_be(b0: u8, b1: u8) -> u16 {
    (256 * b0 + b1) as u16
}

/// The 32-bit word a little-endian host loads from the four wire bytes
/// `b0..b3` (lower address first).
pub open spec fn word32_le(b0: u8, b1: u8, b2: u8, b3: u8) -> u32 {
    (b0 + 0x100 * b1 + 0x1_0000 * b2 + 0x100_0000 * b3) as u32
}

/// The host-order value of a 32-bit network-byte-order field with wire
/// bytes `b0..b3` (lower address first).
pub open spec fn word32_be(b0: u8, b1: u8, b2: u8, b3: u8) -> u32 {
    (0x100_0000 * b0 + 0x1_0000 * b1 + 0x100 * b2 + b3) as u32
}

/// `swap16(x)` exchanges the two bytes of `x`: the value of `from_be` on a
/// little-endian host.
pub open spec fn swap16(x: u16) -> u16 {
    ((x % 256) * 256 + x / 256) as u16
}

/// `swap32(x)` reverses the four bytes of `x`.
pub open spec fn swap32(x: u32) -> u32 {
    ((x % 0x100) * 0x100_0000 + (x / 0x100 % 0x100) * 0x1_0000 + (x / 0x1_0000 % 0x100) * 0x100
        + x / 0x100_0000) as u32
}

/// Swapping the bytes of the word loaded little-endian from the wire yields
/// the field's network-byte-order (big-endian) value.
pub broadcast proof fn lemma_swap16_reads_network_order(b0: u8, b1: u8)
    ensures
        #[trigger] swap16(word16_le(b0, b1)) == word16_be(b0, b1),
{
    assert(swap16(word16_le(b0, b1)) == word16_be(b0, b1)) by (bit_vector);
}

/// Reversing the bytes of the word loaded little-endian from the wire yields
/// the field's network-byte-order (big-endian) value.
pub broadcast proof fn lemma_swap32_reads_network_order(b0: u8, b1: u8, b2: u8, b3: u8)
    ensures
        #[trigger] swap32(word32_le(b0, b1, b2, b3)) == word32_be(b0, b1, b2, b3),
{
    assert(swap32(word32_le(b0, b1, b2, b3)) == word32_be(b0, b1, b2, b3)) by (bit_vector);
}

/// Convert a 16-bit value loaded verbatim from the wire to host order on a
/// little-endian machine: swap its two bytes.
pub fn be16(x: u16) -> (r: u16)
    ensures
        r == swap16(x),
{
    (x % 256) * 256 + x / 256
}

/// Convert a 32-bit value loaded verbatim from the wire to host order on a
/// little-endian machine: reverse its four bytes.
pub fn be32(x: u32) -> (r: u32)
    ensures
        r == swap32(x),
{
    (x % 0x100) * 0x100_0000 + (x / 0x100 % 0x100) * 0x1_0000 + (x / 0x1_0000 % 0x100) * 0x100
        + x / 0x100_0000
}

/// Read the byte at `off`; succeeds exactly when the byte is inside the
/// buffer.
pub fn read_u8(frame: &[u8], off: usize) -> (r: Option<u8>)
    ensures
        r is Some <==> off < frame@.len(),
        r matches Some(v) ==> v == frame@[off as int],
{
    if off < frame.len() {
        Some(frame[off])
    } else {
        None
    }
}

/// Read the 16-bit word at `off` as a little-endian host loads it; succeeds
/// exactly when both bytes are inside the buffer. The result is still in
/// network byte order: pass it through `be16` before comparing it.
pub fn read_u16(frame: &[u8], off: usize) -> (r: Option<u16>)
    ensures
        r is Some <==> off + 2 <= frame@.len(),
        r matches Some(v) ==> v == word16_le(frame@[off as int], frame@[off + 1]),
{
    if frame.len() >= 2 && off <= frame.len() - 2 {
        Some(frame[off] as u16 + 256 * (frame[off + 1] as u16))
    } else {
        None
    }
}

/// Read the 32-bit word at `off` as a little-endian host loads it; succeeds
/// exactly when all four bytes are inside the buffer.
pub fn read_u32(frame: &[u8], off: usize) -> (r: Option<u32>)
    ensures
        r is Some <==> off + 4 <= frame@.len(),
        r matches Some(v) ==> v == word32_le(
            frame@[off as int],
            frame@[off + 1],
            frame@[off + 2],
            frame@[off + 3],
        ),
{
    if frame.len() >= 4 && off <= frame.len() - 4 {
        Some(
            frame[off] as u32 + 0x100 * (frame[off + 1] as u32) + 0x1_0000 * (frame[off + 2] as u32)
                + 0x100_0000 * (frame[off + 3] as u32),
        )
    } else {
        None
    }
}

} // verus!
