//! The server's fixed-layout message encoding: every value knows its size,
//! writes itself into a buffer at least that large, and reads itself back
//! from the front of a buffer, failing when the buffer is too short.
use vstd::prelude::*;
use crate::protocol::wire::{le2, le4, le8, from_le2, from_le4, from_le8, read_le2, read_le4, read_le8, lemma_le2_roundtrip, lemma_le4_roundtrip, lemma_le8_roundtrip, lemma_signed_bits_roundtrip};

verus! {

/// The buffer handed to a decoder was too short for the value.
#[derive(Debug, PartialEq, Eq, Structural, Copy, Clone)]
pub struct DecodeError {}

/// A value with a fixed wire layout.
pub trait Protocol: View + Sized {
    /// The bytes the value with this view is written as.
    spec fn spec_bytes(v: Self::V) -> Seq<u8>;

    /// What reading from the front of a buffer gives; `None` when the buffer
    /// is too short.
    spec fn spec_decode(data: Seq<u8>) -> Option<Self::V>;

    /// The number of bytes `encode_into` writes.
    fn size(&self) -> (r: usize)
        ensures
            r == Self::spec_bytes(self@).len(),
    ;

    /// Write the value at the front of `data`, which must be at least
    /// `size()` long; the bytes after it are left alone.
    fn encode_into(&self, data: &mut [u8])
        requires
            old(data)@.len() >= Self::spec_bytes(self@).len(),
        ensures
            final(data)@ == Self::spec_bytes(self@) + old(data)@.skip(
                Self::spec_bytes(self@).len() as int,
            ),
    ;

    /// Read a value from the front of `data`; a buffer that is too short is a
    /// `DecodeError`.
    fn decode_from(data: &[u8]) -> (r: Result<Self, DecodeError>)
        ensures
            match r {
                Ok(v) => Self::spec_decode(data@) == Some(v@),
                Err(_) => Self::spec_decode(data@) is None,
            },
    ;
}

/// The root of a message: a tagged value that can be written on its own.
pub trait ProtocolRoot: Protocol {
    /// The outer tag of this frame.
    fn report_tag(&self) -> u16;

    /// A buffer of exactly `size()` bytes holding the value.
    fn encode(&self) -> (r: Vec<u8>)
        ensures
            r@ == Self::spec_bytes(self@),
    {
        let mut result = vec![0u8; self.size()];
        self.encode_into(result.as_mut_slice());
        assert(result@.skip(Self::spec_bytes(self@).len() as int) =~= Seq::<u8>::empty());
        assert(result@ =~= Self::spec_bytes(self@));
        result
    }
}

impl Protocol for u8 {
    open spec fn spec_bytes(v: u8) -> Seq<u8> {
        seq![v]
    }

    open spec fn spec_decode(data: Seq<u8>) -> Option<u8> {
        if data.len() >= 1 {
            Some(data[0])
        } else {
            None
        }
    }

    fn size(&self) -> (r: usize) {
        1
    }

    fn encode_into(&self, data: &mut [u8]) {
        data[0] = *self;
        assert(data@ =~= Self::spec_bytes(self@) + old(data)@.skip(1));
    }

    fn decode_from(data: &[u8]) -> (r: Result<u8, DecodeError>) {
        if data.len() < 1 {
            return Err(DecodeError {  });
        }
        Ok(data[0])
    }
}

impl Protocol for u16 {
    open spec fn spec_bytes(v: u16) -> Seq<u8> {
        le2(v)
    }

    open spec fn spec_decode(data: Seq<u8>) -> Option<u16> {
        if data.len() >= 2 {
            Some(from_le2(data))
        } else {
            None
        }
    }

    fn size(&self) -> (r: usize) {
        2
    }

    fn encode_into(&self, data: &mut [u8]) {
        let b: u16 = *self;
        data[0] = (b & 0xff) as u8;
        data[1] = ((b >> 8) & 0xff) as u8;
        assert(data@ =~= Self::spec_bytes(self@) + old(data)@.skip(2));
    }

    fn decode_from(data: &[u8]) -> (r: Result<u16, DecodeError>) {
        if data.len() < 2 {
            return Err(DecodeError {  });
        }
        Ok(read_le2(data, 0))
    }
}

impl Protocol for u32 {
    open spec fn spec_bytes(v: u32) -> Seq<u8> {
        le4(v)
    }

    open spec fn spec_decode(data: Seq<u8>) -> Option<u32> {
        if data.len() >= 4 {
            Some(from_le4(data))
        } else {
            None
        }
    }

    fn size(&self) -> (r: usize) {
        4
    }

    fn encode_into(&self, data: &mut [u8]) {
        let b: u32 = *self;
        data[0] = (b & 0xff) as u8;
        data[1] = ((b >> 8) & 0xff) as u8;
        data[2] = ((b >> 16) & 0xff) as u8;
        data[3] = ((b >> 24) & 0xff) as u8;
        assert(data@ =~= Self::spec_bytes(self@) + old(data)@.skip(4));
    }

    fn decode_from(data: &[u8]) -> (r: Result<u32, DecodeError>) {
        if data.len() < 4 {
            return Err(DecodeError {  });
        }
        Ok(read_le4(data, 0))
    }
}

impl Protocol for u64 {
    open spec fn spec_bytes(v: u64) -> Seq<u8> {
        le8(v)
    }

    open spec fn spec_decode(data: Seq<u8>) -> Option<u64> {
        if data.len() >= 8 {
            Some(from_le8(data))
        } else {
            None
        }
    }

    fn size(&self) -> (r: usize) {
        8
    }

    fn encode_into(&self, data: &mut [u8]) {
        let b: u64 = *self;
        data[0] = (b & 0xff) as u8;
        data[1] = ((b >> 8) & 0xff) as u8;
        data[2] = ((b >> 16) & 0xff) as u8;
        data[3] = ((b >> 24) & 0xff) as u8;
        data[4] = ((b >> 32) & 0xff) as u8;
        data[5] = ((b >> 40) & 0xff) as u8;
        data[6] = ((b >> 48) & 0xff) as u8;
        data[7] = ((b >> 56) & 0xff) as u8;
        assert(data@ =~= Self::spec_bytes(self@) + old(data)@.skip(8));
    }

    fn decode_from(data: &[u8]) -> (r: Result<u64, DecodeError>) {
        if data.len() < 8 {
            return Err(DecodeError {  });
        }
        Ok(read_le8(data, 0))
    }
}

impl Protocol for i8 {
    open spec fn spec_bytes(v: i8) -> Seq<u8> {
        seq![v as u8]
    }

    open spec fn spec_decode(data: Seq<u8>) -> Option<i8> {
        if data.len() >= 1 {
            Some(data[0] as i8)
        } else {
            None
        }
    }

    fn size(&self) -> (r: usize) {
        1
    }

    fn encode_into(&self, data: &mut [u8]) {
        data[0] = *self as u8;
        assert(data@ =~= Self::spec_bytes(self@) + old(data)@.skip(1));
    }

    fn decode_from(data: &[u8]) -> (r: Result<i8, DecodeError>) {
        if data.len() < 1 {
            return Err(DecodeError {  });
        }
        Ok(data[0] as i8)
    }
}

impl Protocol for i16 {
    open spec fn spec_bytes(v: i16) -> Seq<u8> {
        le2(v as u16)
    }

    open spec fn spec_decode(data: Seq<u8>) -> Option<i16> {
        if data.len() >= 2 {
            Some(from_le2(data) as i16)
        } else {
            None
        }
    }

    fn size(&self) -> (r: usize) {
        2
    }

    fn encode_into(&self, data: &mut [u8]) {
        let b: u16 = *self as u16;
        data[0] = (b & 0xff) as u8;
        data[1] = ((b >> 8) & 0xff) as u8;
        assert(data@ =~= Self::spec_bytes(self@) + old(data)@.skip(2));
    }

    fn decode_from(data: &[u8]) -> (r: Result<i16, DecodeError>) {
        if data.len() < 2 {
            return Err(DecodeError {  });
        }
        Ok(read_le2(data, 0) as i16)
    }
}

impl Protocol for i32 {
    open spec fn spec_bytes(v: i32) -> Seq<u8> {
        le4(v as u32)
    }

    open spec fn spec_decode(data: Seq<u8>) -> Option<i32> {
        if data.len() >= 4 {
            Some(from_le4(data) as i32)
        } else {
            None
        }
    }

    fn size(&self) -> (r: usize) {
        4
    }

    fn encode_into(&self, data: &mut [u8]) {
        let b: u32 = *self as u32;
        data[0] = (b & 0xff) as u8;
        data[1] = ((b >> 8) & 0xff) as u8;
        data[2] = ((b >> 16) & 0xff) as u8;
        data[3] = ((b >> 24) & 0xff) as u8;
        assert(data@ =~= Self::spec_bytes(self@) + old(data)@.skip(4));
    }

    fn decode_from(data: &[u8]) -> (r: Result<i32, DecodeError>) {
        if data.len() < 4 {
            return Err(DecodeError {  });
        }
        Ok(read_le4(data, 0) as i32)
    }
}

impl Protocol for i64 {
    open spec fn spec_bytes(v: i64) -> Seq<u8> {
        le8(v as u64)
    }

    open spec fn spec_decode(data: Seq<u8>) -> Option<i64> {
        if data.len() >= 8 {
            Some(from_le8(data) as i64)
        } else {
            None
        }
    }

    fn size(&self) -> (r: usize) {
        8
    }

    fn encode_into(&self, data: &mut [u8]) {
        let b: u64 = *self as u64;
        data[0] = (b & 0xff) as u8;
        data[1] = ((b >> 8) & 0xff) as u8;
        data[2] = ((b >> 16) & 0xff) as u8;
        data[3] = ((b >> 24) & 0xff) as u8;
        data[4] = ((b >> 32) & 0xff) as u8;
        data[5] = ((b >> 40) & 0xff) as u8;
        data[6] = ((b >> 48) & 0xff) as u8;
        data[7] = ((b >> 56) & 0xff) as u8;
        assert(data@ =~= Self::spec_bytes(self@) + old(data)@.skip(8));
    }

    fn decode_from(data: &[u8]) -> (r: Result<i64, DecodeError>) {
        if data.len() < 8 {
            return Err(DecodeError {  });
        }
        Ok(read_le8(data, 0) as i64)
    }
}

/// Reading back what a value wrote gives the value, whatever follows it in
/// the buffer; and the size a value reports is the length of what it writes.
pub proof fn law_fixed_layout_roundtrip(
    a: u8,
    b: u16,
    c: u32,
    d: u64,
    e: i8,
    f: i16,
    g: i32,
    h: i64,
    tail: Seq<u8>,
)
    ensures
        u8::spec_decode(u8::spec_bytes(a) + tail) == Some(a),
        u16::spec_decode(u16::spec_bytes(b) + tail) == Some(b),
        u32::spec_decode(u32::spec_bytes(c) + tail) == Some(c),
        u64::spec_decode(u64::spec_bytes(d) + tail) == Some(d),
        i8::spec_decode(i8::spec_bytes(e) + tail) == Some(e),
        i16::spec_decode(i16::spec_bytes(f) + tail) == Some(f),
        i32::spec_decode(i32::spec_bytes(g) + tail) == Some(g),
        i64::spec_decode(i64::spec_bytes(h) + tail) == Some(h),
{
    lemma_le2_roundtrip(b);
    lemma_le4_roundtrip(c);
    lemma_le8_roundtrip(d);
    lemma_le2_roundtrip(f as u16);
    lemma_le4_roundtrip(g as u32);
    lemma_le8_roundtrip(h as u64);
    lemma_signed_bits_roundtrip(e, f, g, h);
    assert(from_le2(u16::spec_bytes(b) + tail) == from_le2(u16::spec_bytes(b)));
    assert(from_le4(u32::spec_bytes(c) + tail) == from_le4(u32::spec_bytes(c)));
    assert(from_le8(u64::spec_bytes(d) + tail) == from_le8(u64::spec_bytes(d)));
    assert(from_le2(i16::spec_bytes(f) + tail) == from_le2(i16::spec_bytes(f)));
    assert(from_le4(i32::spec_bytes(g) + tail) == from_le4(i32::spec_bytes(g)));
    assert(from_le8(i64::spec_bytes(h) + tail) == from_le8(i64::spec_bytes(h)));
}

/// A buffer shorter than the value's width never decodes; a long enough one
/// always does.
pub proof fn law_fixed_layout_short_buffer(data: Seq<u8>)
    ensures
        (u8::spec_decode(data) is None) == (data.len() < 1),
        (u16::spec_decode(data) is None) == (data.len() < 2),
        (u32::spec_decode(data) is None) == (data.len() < 4),
        (u64::spec_decode(data) is None) == (data.len() < 8),
        (i8::spec_decode(data) is None) == (data.len() < 1),
        (i16::spec_decode(data) is None) == (data.len() < 2),
        (i32::spec_decode(data) is None) == (data.len() < 4),
        (i64::spec_decode(data) is None) == (data.len() < 8),
{
}

} // verus!
