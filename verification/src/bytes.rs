//! Little-endian packing of bytes and half-words into `u32` values, as the
//! instruction's operand and displacement fields are read and written.

use vstd::prelude::*;

verus! {

/// The value of two bytes, least significant first.
pub open spec fn u16_from_le(b0: u8, b1: u8) -> u16 {
    (b0 + b1 * 0x100) as u16
}

/// The value of four bytes, least significant first.
pub open spec fn u32_from_le(b0: u8, b1: u8, b2: u8, b3: u8) -> u32 {
    (b0 + b1 * 0x100 + b2 * 0x1_0000 + b3 * 0x100_0000) as u32
}

/// The four bytes of `x`, least significant first.
pub open spec fn u32_le_bytes(x: u32) -> Seq<u8> {
    seq![
        (x % 0x100) as u8,
        ((x / 0x100) % 0x100) as u8,
        ((x / 0x1_0000) % 0x100) as u8,
        (x / 0x100_0000) as u8,
    ]
}

/// The two 16-bit halves of `x`, the low half first.
pub open spec fn u32_le_halves(x: u32) -> Seq<u16> {
    seq![(x % 0x1_0000) as u16, (x / 0x1_0000) as u16]
}

/// The value of two 16-bit halves, the low half first.
pub open spec fn u32_from_halves(lo: u16, hi: u16) -> u32 {
    (lo + hi * 0x1_0000) as u32
}

/// A byte sign-extended to 32 bits.
pub open spec fn sign_extend8(b: u8) -> u32 {
    if b < 0x80 {
        b as u32
    } else {
        (b + 0xFFFF_FF00) as u32
    }
}

/// Read u16 little-endian
pub fn read_u16_le(bytes: &[u8], pos: usize) -> (r: u16)
    requires
        pos + 2 <= bytes@.len(),
    ensures
        r == u16_from_le(bytes@[pos as int], bytes@[pos + 1]),
{
    let b0 = bytes[pos];
    let b1 = bytes[pos + 1];
    assert((b0 as u16) | ((b1 as u16) << 8) == (b0 + b1 * 0x100) as u16) by (bit_vector);
    (b0 as u16) | ((b1 as u16) << 8)
}

/// Read u32 little-endian
pub fn read_u32_le(bytes: &[u8], pos: usize) -> (r: u32)
    requires
        pos + 4 <= bytes@.len(),
    ensures
        r == u32_from_le(bytes@[pos as int], bytes@[pos + 1], bytes@[pos + 2], bytes@[pos + 3]),
{
    let b0 = bytes[pos];
    let b1 = bytes[pos + 1];
    let b2 = bytes[pos + 2];
    let b3 = bytes[pos + 3];
    assert((b0 as u32) | ((b1 as u32) << 8) | ((b2 as u32) << 16) | ((b3 as u32) << 24) == (b0
        + b1 * 0x100 + b2 * 0x1_0000 + b3 * 0x100_0000) as u32) by (bit_vector);
    (b0 as u32) | ((b1 as u32) << 8) | ((b2 as u32) << 16) | ((b3 as u32) << 24)
}

/// Sign-extend a byte to 32 bits.
pub fn sign_extend_byte(b: u8) -> (r: u32)
    ensures
        r == sign_extend8(b),
{
    if b < 0x80 {
        b as u32
    } else {
        b as u32 + 0xFFFF_FF00
    }
}

/// The bytes of a `u32`, least significant first.
pub fn u32_to_le_bytes(x: u32) -> (r: [u8; 4])
    ensures
        r@ == u32_le_bytes(x),
{
    assert((x & 0xFF) == x % 0x100 && ((x >> 8) & 0xFF) == (x / 0x100) % 0x100 && ((x >> 16)
        & 0xFF) == (x / 0x1_0000) % 0x100 && (x >> 24) == x / 0x100_0000) by (bit_vector);
    let r = [(x & 0xFF) as u8, ((x >> 8) & 0xFF) as u8, ((x >> 16) & 0xFF) as u8, (x >> 24) as u8];
    assert(r@ =~= u32_le_bytes(x));
    r
}

/// The `u32` whose bytes, least significant first, are `b`.
pub fn u32_from_le_bytes(b: [u8; 4]) -> (r: u32)
    ensures
        r == u32_from_le(b@[0], b@[1], b@[2], b@[3]),
{
    let (b0, b1, b2, b3) = (b[0], b[1], b[2], b[3]);
    assert((b0 as u32) | ((b1 as u32) << 8) | ((b2 as u32) << 16) | ((b3 as u32) << 24) == (b0
        + b1 * 0x100 + b2 * 0x1_0000 + b3 * 0x100_0000) as u32) by (bit_vector);
    (b0 as u32) | ((b1 as u32) << 8) | ((b2 as u32) << 16) | ((b3 as u32) << 24)
}

/// The 16-bit halves of a `u32`, the low half first.
pub fn u32_to_le_halves(x: u32) -> (r: [u16; 2])
    ensures
        r@ == u32_le_halves(x),
{
    assert((x & 0xFFFF) == x % 0x1_0000 && (x >> 16) == x / 0x1_0000) by (bit_vector);
    let r = [(x & 0xFFFF) as u16, (x >> 16) as u16];
    assert(r@ =~= u32_le_halves(x));
    r
}

/// The `u32` whose 16-bit halves, the low half first, are `h`.
pub fn u32_from_le_halves(h: [u16; 2]) -> (r: u32)
    ensures
        r == u32_from_halves(h@[0], h@[1]),
{
    let (lo, hi) = (h[0], h[1]);
    assert((lo as u32) | ((hi as u32) << 16) == (lo + hi * 0x1_0000) as u32) by (bit_vector);
    (lo as u32) | ((hi as u32) << 16)
}

/// Splitting a value into bytes and joining them gives the value back.
pub proof fn lemma_le_bytes_roundtrip(x: u32)
    ensures
        u32_from_le(
            u32_le_bytes(x)[0],
            u32_le_bytes(x)[1],
            u32_le_bytes(x)[2],
            u32_le_bytes(x)[3],
        ) == x,
{
    assert(((x % 0x100) as u8 + ((x / 0x100) % 0x100) as u8 * 0x100 + ((x / 0x1_0000) % 0x100) as u8
        * 0x1_0000 + (x / 0x100_0000) as u8 * 0x100_0000) as u32 == x) by (bit_vector);
}

/// Joining four bytes into a value and splitting it gives the bytes back.
pub proof fn lemma_from_le_roundtrip(b0: u8, b1: u8, b2: u8, b3: u8)
    ensures
        u32_le_bytes(u32_from_le(b0, b1, b2, b3)) == seq![b0, b1, b2, b3],
{
    let x = u32_from_le(b0, b1, b2, b3);
    assert(x == (b0 + b1 * 0x100 + b2 * 0x1_0000 + b3 * 0x100_0000) as u32);
    assert((b0 + b1 * 0x100 + b2 * 0x1_0000 + b3 * 0x100_0000) as u32 % 0x100 == b0) by (bit_vector);
    assert(((b0 + b1 * 0x100 + b2 * 0x1_0000 + b3 * 0x100_0000) as u32 / 0x100) % 0x100 == b1)
        by (bit_vector);
    assert(((b0 + b1 * 0x100 + b2 * 0x1_0000 + b3 * 0x100_0000) as u32 / 0x1_0000) % 0x100 == b2)
        by (bit_vector);
    assert((b0 + b1 * 0x100 + b2 * 0x1_0000 + b3 * 0x100_0000) as u32 / 0x100_0000 == b3)
        by (bit_vector);
    assert(u32_le_bytes(x) =~= seq![b0, b1, b2, b3]);
}

/// Splitting a value into halves and joining them gives the value back.
pub proof fn lemma_le_halves_roundtrip(x: u32)
    ensures
        u32_from_halves(u32_le_halves(x)[0], u32_le_halves(x)[1]) == x,
{
    assert(((x % 0x1_0000) as u16 + (x / 0x1_0000) as u16 * 0x1_0000) as u32 == x) by (bit_vector);
}

/// Joining two halves into a value and splitting it gives the halves back.
pub proof fn lemma_from_halves_roundtrip(lo: u16, hi: u16)
    ensures
        u32_le_halves(u32_from_halves(lo, hi)) == seq![lo, hi],
{
    assert((lo + hi * 0x1_0000) as u32 % 0x1_0000 == lo) by (bit_vector);
    assert((lo + hi * 0x1_0000) as u32 / 0x1_0000 == hi) by (bit_vector);
    assert(u32_le_halves(u32_from_halves(lo, hi)) =~= seq![lo, hi]);
}

} // verus!

verus! {

/// The little-endian 16-bit value at `pos` of `w`.
pub open spec fn le16_at(w: Seq<u8>, pos: int) -> u16 {
    u16_from_le(w[pos], w[pos + 1])
}

/// The little-endian 32-bit value at `pos` of `w`.
pub open spec fn le32_at(w: Seq<u8>, pos: int) -> u32 {
    u32_from_le(w[pos], w[pos + 1], w[pos + 2], w[pos + 3])
}

} // verus!
