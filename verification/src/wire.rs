//! Little-endian byte-level encoding helpers.
//!
//! Several multi-byte fields of the extended report sit at odd offsets, so
//! every command and report is laid out byte by byte instead of relying on
//! in-memory struct layout.  These helpers define what one 16- or 32-bit
//! field looks like on the wire and prove that encoding and decoding are
//! inverses.

use vstd::prelude::*;

verus! {

/// The low byte of a 16-bit little-endian field.
pub open spec fn le16_lo(x: u16) -> u8 {
    (x & 0xFF) as u8
}

/// The high byte of a 16-bit little-endian field.
pub open spec fn le16_hi(x: u16) -> u8 {
    ((x >> 8) & 0xFF) as u8
}

/// The 16-bit value two little-endian bytes stand for.
pub open spec fn u16_from_le(lo: u8, hi: u8) -> u16 {
    (lo as u16) | ((hi as u16) << 8)
}

/// The four bytes of a 32-bit little-endian field, lowest first.
pub open spec fn le32_byte(x: u32, i: int) -> u8 {
    ((x >> (8 * i)) & 0xFF) as u8
}

/// The 32-bit value four little-endian bytes stand for.
pub open spec fn u32_from_le(b0: u8, b1: u8, b2: u8, b3: u8) -> u32 {
    (b0 as u32) | ((b1 as u32) << 8) | ((b2 as u32) << 16) | ((b3 as u32) << 24)
}

/// Encoding a 16-bit value and reading the two bytes back is the identity.
pub proof fn lemma_le16_round_trip(x: u16)
    ensures
        u16_from_le(le16_lo(x), le16_hi(x)) == x,
{
    assert(((x & 0xFF) as u8) as u16 | ((((x >> 8) & 0xFF) as u8) as u16) << 8 == x)
        by (bit_vector);
}

/// Encoding a 32-bit value and reading the four bytes back is the identity.
pub proof fn lemma_le32_round_trip(x: u32)
    ensures
        u32_from_le(le32_byte(x, 0), le32_byte(x, 1), le32_byte(x, 2), le32_byte(x, 3)) == x,
{
    assert((((x >> 0) & 0xFF) as u8) as u32 | ((((x >> 8) & 0xFF) as u8) as u32) << 8 | ((((x
        >> 16) & 0xFF) as u8) as u32) << 16 | ((((x >> 24) & 0xFF) as u8) as u32) << 24 == x)
        by (bit_vector);
}

/// Casting a signed 16-bit value through its unsigned bit pattern and back
/// is the identity.
pub proof fn lemma_i16_cast_round_trip(x: i16)
    ensures
        (x as u16) as i16 == x,
{
    assert((x as u16) as i16 == x) by (bit_vector);
}

/// Append one byte.
pub fn push_u8(buf: &mut Vec<u8>, x: u8)
    ensures
        final(buf)@ == old(buf)@.push(x),
{
    buf.push(x);
}

/// Append a 16-bit field, low byte first.
pub fn push_le16(buf: &mut Vec<u8>, x: u16)
    ensures
        final(buf)@ == old(buf)@.push(le16_lo(x)).push(le16_hi(x)),
{
    buf.push((x & 0xFF) as u8);
    buf.push(((x >> 8) & 0xFF) as u8);
}

/// Append a signed 16-bit field as its two's-complement bit pattern, low
/// byte first.
pub fn push_le_i16(buf: &mut Vec<u8>, x: i16)
    ensures
        final(buf)@ == old(buf)@.push(le16_lo(x as u16)).push(le16_hi(x as u16)),
{
    let u: u16 = x as u16;
    buf.push((u & 0xFF) as u8);
    buf.push(((u >> 8) & 0xFF) as u8);
}

/// Append a 32-bit field, lowest byte first.
pub fn push_le32(buf: &mut Vec<u8>, x: u32)
    ensures
        final(buf)@ == old(buf)@.push(le32_byte(x, 0)).push(le32_byte(x, 1)).push(
            le32_byte(x, 2),
        ).push(le32_byte(x, 3)),
{
    buf.push((x & 0xFF) as u8);
    buf.push(((x >> 8) & 0xFF) as u8);
    buf.push(((x >> 16) & 0xFF) as u8);
    buf.push(((x >> 24) & 0xFF) as u8);
    proof {
        assert((x & 0xFF) as u8 == ((x >> 0) & 0xFF) as u8) by (bit_vector);
    }
}

/// Read a 16-bit little-endian field at offset `i`.
pub fn read_le16(b: &[u8], i: usize) -> (r: u16)
    requires
        i + 2 <= b@.len(),
    ensures
        r == u16_from_le(b@[i as int], b@[i + 1]),
{
    let lo = b[i];
    let hi = b[i + 1];
    (lo as u16) | ((hi as u16) << 8)
}

/// Read a signed 16-bit little-endian field at offset `i`.
pub fn read_le_i16(b: &[u8], i: usize) -> (r: i16)
    requires
        i + 2 <= b@.len(),
    ensures
        r == u16_from_le(b@[i as int], b@[i + 1]) as i16,
{
    read_le16(b, i) as i16
}

/// Read a 32-bit little-endian field at offset `i`.
pub fn read_le32(b: &[u8], i: usize) -> (r: u32)
    requires
        i + 4 <= b@.len(),
    ensures
        r == u32_from_le(b@[i as int], b@[i + 1], b@[i + 2], b@[i + 3]),
{
    let b0 = b[i];
    let b1 = b[i + 1];
    let b2 = b[i + 2];
    let b3 = b[i + 3];
    (b0 as u32) | ((b1 as u32) << 8) | ((b2 as u32) << 16) | ((b3 as u32) << 24)
}

} // verus!
