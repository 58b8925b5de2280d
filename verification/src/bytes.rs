//! Numbers as bytes: big-endian for integers, little-endian for float words.

use vstd::prelude::*;

verus! {

/// The number that two bytes spell, most significant byte first.
pub open spec fn be16(hi: u8, lo: u8) -> u16 {
    (hi as int * 0x100 + lo as int) as u16
}

/// The two bytes that spell a 16-bit number, most significant byte first.
pub open spec fn be16_bytes(x: u16) -> Seq<u8> {
    seq![(x / 0x100) as u8, (x % 0x100) as u8]
}

/// The number that the first four bytes of `s` spell, most significant byte first.
pub open spec fn be32(s: Seq<u8>) -> u32
    recommends
        s.len() >= 4,
{
    (s[0] as int * 0x100_0000 + s[1] as int * 0x1_0000 + s[2] as int * 0x100 + s[3] as int) as u32
}

/// The four bytes that spell a 32-bit number, most significant byte first.
pub open spec fn be32_bytes(x: u32) -> Seq<u8> {
    seq![
        (x / 0x100_0000) as u8,
        (x / 0x1_0000 % 0x100) as u8,
        (x / 0x100 % 0x100) as u8,
        (x % 0x100) as u8,
    ]
}

/// The number that the first four bytes of `s` spell, least significant byte first.
pub open spec fn le32(s: Seq<u8>) -> u32
    recommends
        s.len() >= 4,
{
    (s[3] as int * 0x100_0000 + s[2] as int * 0x1_0000 + s[1] as int * 0x100 + s[0] as int) as u32
}

/// The four bytes that spell a 32-bit number, least significant byte first.
pub open spec fn le32_bytes(x: u32) -> Seq<u8> {
    seq![
        (x % 0x100) as u8,
        (x / 0x100 % 0x100) as u8,
        (x / 0x1_0000 % 0x100) as u8,
        (x / 0x100_0000) as u8,
    ]
}

/// Reads a big-endian 16-bit number.
pub fn u16_from_be(hi: u8, lo: u8) -> (x: u16)
    ensures
        x == be16(hi, lo),
{
    (hi as u16) * 0x100 + (lo as u16)
}

/// Writes a 16-bit number as big-endian bytes.
pub fn u16_to_be(x: u16) -> (b: [u8; 2])
    ensures
        b@ == be16_bytes(x),
{
    let b: [u8; 2] = [(x / 0x100) as u8, (x % 0x100) as u8];
    assert(b@ =~= be16_bytes(x));
    b
}

/// Reads a big-endian 32-bit number.
pub fn u32_from_be(b: &[u8; 4]) -> (x: u32)
    ensures
        x == be32(b@),
{
    (b[0] as u32) * 0x100_0000 + (b[1] as u32) * 0x1_0000 + (b[2] as u32) * 0x100 + (b[3] as u32)
}

/// Writes a 32-bit number as big-endian bytes.
pub fn u32_to_be(x: u32) -> (b: [u8; 4])
    ensures
        b@ == be32_bytes(x),
{
    let b: [u8; 4] = [
        (x / 0x100_0000) as u8,
        (x / 0x1_0000 % 0x100) as u8,
        (x / 0x100 % 0x100) as u8,
        (x % 0x100) as u8,
    ];
    assert(b@ =~= be32_bytes(x));
    b
}

/// Reads a little-endian 32-bit number.
pub fn u32_from_le(b: &[u8; 4]) -> (x: u32)
    ensures
        x == le32(b@),
{
    (b[3] as u32) * 0x100_0000 + (b[2] as u32) * 0x1_0000 + (b[1] as u32) * 0x100 + (b[0] as u32)
}

/// Writes a 32-bit number as little-endian bytes.
pub fn u32_to_le(x: u32) -> (b: [u8; 4])
    ensures
        b@ == le32_bytes(x),
{
    let b: [u8; 4] = [
        (x % 0x100) as u8,
        (x / 0x100 % 0x100) as u8,
        (x / 0x1_0000 % 0x100) as u8,
        (x / 0x100_0000) as u8,
    ];
    assert(b@ =~= le32_bytes(x));
    b
}

/// Writing a number and reading it back gives the number, in either byte order.
pub proof fn written_then_read(x: u32, y: u16)
    ensures
        be32(be32_bytes(x)) == x,
        le32(le32_bytes(x)) == x,
        be16(be16_bytes(y)[0], be16_bytes(y)[1]) == y,
{
}

proof fn packed_bytes_unpack(a: u8, b: u8, c: u8, d: u8)
    by (bit_vector)
    ensures
        ({
            let x: u32 = ((a as u32) * 0x100_0000u32 + (b as u32) * 0x1_0000u32 + (c as u32) * 0x100u32 + (d as u32)) as u32;
            &&& x / 0x100_0000u32 == a as u32
            &&& x / 0x1_0000u32 % 0x100u32 == b as u32
            &&& x / 0x100u32 % 0x100u32 == c as u32
            &&& x % 0x100u32 == d as u32
        }),
{
}

/// Reading four bytes and writing the number back gives the four bytes.
pub proof fn read_then_written(s: Seq<u8>)
    requires
        s.len() == 4,
    ensures
        be32_bytes(be32(s)) == s,
        le32_bytes(le32(s)) == s,
{
    packed_bytes_unpack(s[0], s[1], s[2], s[3]);
    packed_bytes_unpack(s[3], s[2], s[1], s[0]);
    assert(be32_bytes(be32(s)) =~= s);
    assert(le32_bytes(le32(s)) =~= s);
}

} // verus!
