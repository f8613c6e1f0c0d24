//! The little-endian layout of integers on the wire, and the facts that make
//! decoding undo encoding.
use vstd::prelude::*;

verus! {

/// Little-endian bytes of a 16-bit value.
pub open spec fn le2(x: u16) -> Seq<u8> {
    seq![(x & 0xff) as u8, ((x >> 8) & 0xff) as u8]
}

/// Little-endian bytes of a 32-bit value.
pub open spec fn le4(x: u32) -> Seq<u8> {
    seq![
        (x & 0xff) as u8,
        ((x >> 8) & 0xff) as u8,
        ((x >> 16) & 0xff) as u8,
        ((x >> 24) & 0xff) as u8,
    ]
}

/// Little-endian bytes of a 64-bit value.
pub open spec fn le8(x: u64) -> Seq<u8> {
    seq![
        (x & 0xff) as u8,
        ((x >> 8) & 0xff) as u8,
        ((x >> 16) & 0xff) as u8,
        ((x >> 24) & 0xff) as u8,
        ((x >> 32) & 0xff) as u8,
        ((x >> 40) & 0xff) as u8,
        ((x >> 48) & 0xff) as u8,
        ((x >> 56) & 0xff) as u8,
    ]
}

/// The 16-bit value whose little-endian bytes start `s`.
pub open spec fn from_le2(s: Seq<u8>) -> u16 {
    (s[0] as u16) | ((s[1] as u16) << 8)
}

/// The 32-bit value whose little-endian bytes start `s`.
pub open spec fn from_le4(s: Seq<u8>) -> u32 {
    (s[0] as u32) | ((s[1] as u32) << 8) | ((s[2] as u32) << 16) | ((s[3] as u32) << 24)
}

/// The 64-bit value whose little-endian bytes start `s`.
pub open spec fn from_le8(s: Seq<u8>) -> u64 {
    (s[0] as u64) | ((s[1] as u64) << 8) | ((s[2] as u64) << 16) | ((s[3] as u64) << 24) | ((
    s[4] as u64) << 32) | ((s[5] as u64) << 40) | ((s[6] as u64) << 48) | ((s[7] as u64) << 56)
}

/// Reading back the bytes of a 16-bit value gives the value.
pub proof fn lemma_le2_roundtrip(x: u16)
    ensures
        le2(x).len() == 2,
        from_le2(le2(x)) == x,
{
    let b0 = (x & 0xff) as u8;
    let b1 = ((x >> 8) & 0xff) as u8;
    assert(b0 == (x & 0xff) as u8 && b1 == ((x >> 8) & 0xff) as u8 ==> x == ((b0 as u16) | ((
    b1 as u16) << 8))) by (bit_vector);
}

/// Reading back the bytes of a 32-bit value gives the value.
pub proof fn lemma_le4_roundtrip(x: u32)
    ensures
        le4(x).len() == 4,
        from_le4(le4(x)) == x,
{
    let b0 = (x & 0xff) as u8;
    let b1 = ((x >> 8) & 0xff) as u8;
    let b2 = ((x >> 16) & 0xff) as u8;
    let b3 = ((x >> 24) & 0xff) as u8;
    assert(b0 == (x & 0xff) as u8 && b1 == ((x >> 8) & 0xff) as u8 && b2 == ((x >> 16) & 0xff)
        as u8 && b3 == ((x >> 24) & 0xff) as u8 ==> x == ((b0 as u32) | ((b1 as u32) << 8) | ((
    b2 as u32) << 16) | ((b3 as u32) << 24))) by (bit_vector);
}

/// Reading back the bytes of a 64-bit value gives the value.
pub proof fn lemma_le8_roundtrip(x: u64)
    ensures
        le8(x).len() == 8,
        from_le8(le8(x)) == x,
{
    let b0 = (x & 0xff) as u8;
    let b1 = ((x >> 8) & 0xff) as u8;
    let b2 = ((x >> 16) & 0xff) as u8;
    let b3 = ((x >> 24) & 0xff) as u8;
    let b4 = ((x >> 32) & 0xff) as u8;
    let b5 = ((x >> 40) & 0xff) as u8;
    let b6 = ((x >> 48) & 0xff) as u8;
    let b7 = ((x >> 56) & 0xff) as u8;
    assert(b0 == (x & 0xff) as u8 && b1 == ((x >> 8) & 0xff) as u8 && b2 == ((x >> 16) & 0xff)
        as u8 && b3 == ((x >> 24) & 0xff) as u8 && b4 == ((x >> 32) & 0xff) as u8 && b5 == ((x
        >> 40) & 0xff) as u8 && b6 == ((x >> 48) & 0xff) as u8 && b7 == ((x >> 56) & 0xff) as u8
        ==> x == ((b0 as u64) | ((b1 as u64) << 8) | ((b2 as u64) << 16) | ((b3 as u64) << 24) | ((
    b4 as u64) << 32) | ((b5 as u64) << 40) | ((b6 as u64) << 48) | ((b7 as u64) << 56)))
        by (bit_vector);
}

/// Signed values travel as their two's-complement bits.
pub proof fn lemma_signed_bits_roundtrip(a: i8, b: i16, c: i32, d: i64)
    ensures
        (a as u8) as i8 == a,
        (b as u16) as i16 == b,
        (c as u32) as i32 == c,
        (d as u64) as i64 == d,
{
    assert((a as u8) as i8 == a) by (bit_vector);
    assert((b as u16) as i16 == b) by (bit_vector);
    assert((c as u32) as i32 == c) by (bit_vector);
    assert((d as u64) as i64 == d) by (bit_vector);
}

/// Append the little-endian bytes of a 16-bit value.
pub fn push_le2(buf: &mut Vec<u8>, x: u16)
    ensures
        final(buf)@ == old(buf)@ + le2(x),
{
    buf.push((x & 0xff) as u8);
    buf.push(((x >> 8) & 0xff) as u8);
}

/// Append the little-endian bytes of a 32-bit value.
pub fn push_le4(buf: &mut Vec<u8>, x: u32)
    ensures
        final(buf)@ == old(buf)@ + le4(x),
{
    buf.push((x & 0xff) as u8);
    buf.push(((x >> 8) & 0xff) as u8);
    buf.push(((x >> 16) & 0xff) as u8);
    buf.push(((x >> 24) & 0xff) as u8);
}

/// Append the little-endian bytes of a 64-bit value.
pub fn push_le8(buf: &mut Vec<u8>, x: u64)
    ensures
        final(buf)@ == old(buf)@ + le8(x),
{
    buf.push((x & 0xff) as u8);
    buf.push(((x >> 8) & 0xff) as u8);
    buf.push(((x >> 16) & 0xff) as u8);
    buf.push(((x >> 24) & 0xff) as u8);
    buf.push(((x >> 32) & 0xff) as u8);
    buf.push(((x >> 40) & 0xff) as u8);
    buf.push(((x >> 48) & 0xff) as u8);
    buf.push(((x >> 56) & 0xff) as u8);
}

/// The 16-bit value stored little-endian at `s[at..at + 2]`.
pub fn read_le2(s: &[u8], at: usize) -> (r: u16)
    requires
        at + 2 <= s@.len(),
    ensures
        r == from_le2(s@.subrange(at as int, at + 2)),
{
    (s[at] as u16) | ((s[at + 1] as u16) << 8)
}

/// The 32-bit value stored little-endian at `s[at..at + 4]`.
pub fn read_le4(s: &[u8], at: usize) -> (r: u32)
    requires
        at + 4 <= s@.len(),
    ensures
        r == from_le4(s@.subrange(at as int, at + 4)),
{
    (s[at] as u32) | ((s[at + 1] as u32) << 8) | ((s[at + 2] as u32) << 16) | ((s[at + 3] as u32)
        << 24)
}

/// The 64-bit value stored little-endian at `s[at..at + 8]`.
pub fn read_le8(s: &[u8], at: usize) -> (r: u64)
    requires
        at + 8 <= s@.len(),
    ensures
        r == from_le8(s@.subrange(at as int, at + 8)),
{
    (s[at] as u64) | ((s[at + 1] as u64) << 8) | ((s[at + 2] as u64) << 16) | ((s[at + 3] as u64)
        << 24) | ((s[at + 4] as u64) << 32) | ((s[at + 5] as u64) << 40) | ((s[at + 6] as u64)
        << 48) | ((s[at + 7] as u64) << 56)
}

} // verus!
