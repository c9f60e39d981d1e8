//! Little-endian byte decoding and encoding helpers shared by the transport
//! and the protocol engine.

use vstd::prelude::*;

verus! {

/// The 16-bit value stored little-endian in the bytes `lo`, `hi`.
pub open spec fn spec_u16_of_le(lo: u8, hi: u8) -> u16 {
    ((hi as u16) << 8) | (lo as u16)
}

/// The 32-bit value stored little-endian in the bytes `b0` .. `b3`.
pub open spec fn spec_u32_of_le(b0: u8, b1: u8, b2: u8, b3: u8) -> u32 {
    ((b3 as u32) << 24) | ((b2 as u32) << 16) | ((b1 as u32) << 8) | (b0 as u32)
}

/// The 24-bit value stored little-endian in the bytes `b0` .. `b2`.
pub open spec fn spec_u24_of_le(b0: u8, b1: u8, b2: u8) -> u32 {
    ((b2 as u32) << 16) | ((b1 as u32) << 8) | (b0 as u32)
}

/// The two little-endian bytes of a 16-bit value, least significant first.
pub open spec fn spec_u16_le_bytes(x: u16) -> Seq<u8> {
    seq![(x & 0xff) as u8, ((x >> 8) & 0xff) as u8]
}

/// The four little-endian bytes of a 32-bit value, least significant first.
pub open spec fn spec_u32_le_bytes(x: u32) -> Seq<u8> {
    seq![
        (x & 0xff) as u8,
        ((x >> 8) & 0xff) as u8,
        ((x >> 16) & 0xff) as u8,
        ((x >> 24) & 0xff) as u8,
    ]
}

/// Decoding little-endian byte slices into integers.
pub trait BytesTo: View<V = Seq<u8>> {
    fn to_u16(self) -> (r: u16)
        requires
            self@.len() >= 2,
        ensures
            r == spec_u16_of_le(self@[0], self@[1]),
    ;

    fn to_u32(self) -> (r: u32)
        requires
            self@.len() >= 4,
        ensures
            r == spec_u32_of_le(self@[0], self@[1], self@[2], self@[3]),
    ;
}

impl BytesTo for &[u8] {
    fn to_u32(self) -> (r: u32) {
        ((self[3] as u32) << 24) | ((self[2] as u32) << 16) | ((self[1] as u32) << 8) | (
        self[0] as u32)
    }

    fn to_u16(self) -> (r: u16) {
        ((self[1] as u16) << 8) | (self[0] as u16)
    }
}

/// Exec counterpart of [`spec_u16_of_le`].
pub fn u16_of_le(lo: u8, hi: u8) -> (r: u16)
    ensures
        r == spec_u16_of_le(lo, hi),
{
    ((hi as u16) << 8) | (lo as u16)
}

/// Exec counterpart of [`spec_u32_of_le`].
pub fn u32_of_le(b0: u8, b1: u8, b2: u8, b3: u8) -> (r: u32)
    ensures
        r == spec_u32_of_le(b0, b1, b2, b3),
{
    ((b3 as u32) << 24) | ((b2 as u32) << 16) | ((b1 as u32) << 8) | (b0 as u32)
}

/// Exec counterpart of [`spec_u24_of_le`]; the result always fits in 24 bits.
pub fn u24_of_le(b0: u8, b1: u8, b2: u8) -> (r: u32)
    ensures
        r == spec_u24_of_le(b0, b1, b2),
        r < 0x1000000,
{
    let r = ((b2 as u32) << 16) | ((b1 as u32) << 8) | (b0 as u32);
    assert(((b2 as u32) << 16) | ((b1 as u32) << 8) | (b0 as u32) < 0x1000000) by (bit_vector);
    r
}

/// Appends the two little-endian bytes of `x` to `v`.
pub fn push_u16_le(v: &mut Vec<u8>, x: u16)
    ensures
        final(v)@ == old(v)@ + spec_u16_le_bytes(x),
{
    v.push((x & 0xff) as u8);
    v.push(((x >> 8) & 0xff) as u8);
    assert(final(v)@ =~= old(v)@ + spec_u16_le_bytes(x));
}

/// Appends the four little-endian bytes of `x` to `v`.
pub fn push_u32_le(v: &mut Vec<u8>, x: u32)
    ensures
        final(v)@ == old(v)@ + spec_u32_le_bytes(x),
{
    v.push((x & 0xff) as u8);
    v.push(((x >> 8) & 0xff) as u8);
    v.push(((x >> 16) & 0xff) as u8);
    v.push(((x >> 24) & 0xff) as u8);
    assert(final(v)@ =~= old(v)@ + spec_u32_le_bytes(x));
}

/// Decoding the little-endian bytes of a 16-bit value yields the value back.
pub proof fn lemma_u16_le_round_trip(x: u16)
    ensures
        spec_u16_of_le(spec_u16_le_bytes(x)[0], spec_u16_le_bytes(x)[1]) == x,
{
    assert(spec_u16_le_bytes(x)[0] == (x & 0xff) as u8);
    assert(spec_u16_le_bytes(x)[1] == ((x >> 8) & 0xff) as u8);
    assert(((((x >> 8) & 0xff) as u8 as u16) << 8) | ((x & 0xff) as u8 as u16) == x)
        by (bit_vector);
}

/// Decoding the little-endian bytes of a 32-bit value yields the value back.
pub proof fn lemma_u32_le_round_trip(x: u32)
    ensures
        spec_u32_of_le(
            spec_u32_le_bytes(x)[0],
            spec_u32_le_bytes(x)[1],
            spec_u32_le_bytes(x)[2],
            spec_u32_le_bytes(x)[3],
        ) == x,
{
    assert(spec_u32_le_bytes(x)[0] == (x & 0xff) as u8);
    assert(spec_u32_le_bytes(x)[1] == ((x >> 8) & 0xff) as u8);
    assert(spec_u32_le_bytes(x)[2] == ((x >> 16) & 0xff) as u8);
    assert(spec_u32_le_bytes(x)[3] == ((x >> 24) & 0xff) as u8);
    assert((((x >> 24) & 0xff) as u8 as u32) << 24 | (((x >> 16) & 0xff) as u8 as u32) << 16 | ((
    (x >> 8) & 0xff) as u8 as u32) << 8 | ((x & 0xff) as u8 as u32) == x) by (bit_vector);
}

} // verus!
