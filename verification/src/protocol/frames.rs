//! Whole frames: a value encoded on its own, and decoded from the start of a
//! buffer. The types here are written by the same steps a serde-derived
//! implementation drives.
use vstd::prelude::*;
use vstd::utf8::{valid_utf8, decode_utf8, encode_utf8};
use vstd::string::StringSliceAdditionalSpecFns;
use super::Error;
use super::wire::{le2, le4, le8, from_le2, from_le4, from_le8, lemma_le2_roundtrip, lemma_le4_roundtrip, lemma_le8_roundtrip, lemma_signed_bits_roundtrip};
use super::serializer::{LengthGrabber, Serializer, len_prefix};
use super::deserializer::Deserializer;

verus! {

/// A value that can be written as a frame.
pub trait ProtocolSerialize: View + Sized {
    /// The frame the value with this view is written as.
    spec fn spec_encode(v: Self::V) -> Seq<u8>;

    /// The length of the frame, computed without writing it: always the length
    /// of what `encode` writes.
    fn get_encoded_size(&self) -> (r: Result<usize, Error>)
        requires
            Self::spec_encode(self@).len() <= usize::MAX,
        ensures
            r == Ok::<usize, Error>(Self::spec_encode(self@).len() as usize),
    ;

    /// The frame, in a buffer allocated once at the size `get_encoded_size`
    /// gives.
    fn encode(&self) -> (r: Result<Vec<u8>, Error>)
        requires
            Self::spec_encode(self@).len() <= usize::MAX,
        ensures
            r matches Ok(b) && b@ == Self::spec_encode(self@),
    ;
}

/// A value that can be read from the start of a frame; bytes after it are
/// ignored.
pub trait ProtocolDeserialize: View + Sized {
    /// Holds when the buffer is long enough for every read the decoder makes.
    spec fn decode_requires(buf: Seq<u8>) -> bool;

    /// What decoding the buffer gives.
    spec fn spec_decode(buf: Seq<u8>) -> Result<Self::V, Error>;

    fn decode(buf: &[u8]) -> (r: Result<Self, Error>)
        requires
            Self::decode_requires(buf@),
        ensures
            match r {
                Ok(v) => Self::spec_decode(buf@) == Ok::<Self::V, Error>(v@),
                Err(e) => Self::spec_decode(buf@) == Err::<Self::V, Error>(e),
            },
    ;
}

impl ProtocolSerialize for bool {
    open spec fn spec_encode(v: bool) -> Seq<u8> {
        seq![if v { 1u8 } else { 0u8 }]
    }

    fn get_encoded_size(&self) -> (r: Result<usize, Error>) {
        let mut grabber = LengthGrabber::new();
        grabber.serialize_bool()?;
        Ok(grabber.len)
    }

    fn encode(&self) -> (r: Result<Vec<u8>, Error>) {
        let len = self.get_encoded_size()?;
        let mut serializer = Serializer::with_capacity(len);
        serializer.serialize_bool(*self)?;
        Ok(serializer.buffer)
    }
}

impl ProtocolDeserialize for bool {
    open spec fn decode_requires(buf: Seq<u8>) -> bool {
        buf.len() >= 1
    }

    open spec fn spec_decode(buf: Seq<u8>) -> Result<bool, Error> {
        Ok(buf[0] == 1)
    }

    fn decode(buf: &[u8]) -> (r: Result<bool, Error>) {
        let mut deserializer = Deserializer::new(buf);
        let v = deserializer.deserialize_bool();
        assert(deserializer.buf@ =~= buf@);
        proof {
            assert(buf@.subrange(0, buf@.len() as int) =~= buf@);
        }
        Ok(v)
    }
}

impl ProtocolSerialize for u8 {
    open spec fn spec_encode(v: u8) -> Seq<u8> {
        seq![v]
    }

    fn get_encoded_size(&self) -> (r: Result<usize, Error>) {
        let mut grabber = LengthGrabber::new();
        grabber.serialize_u8()?;
        Ok(grabber.len)
    }

    fn encode(&self) -> (r: Result<Vec<u8>, Error>) {
        let len = self.get_encoded_size()?;
        let mut serializer = Serializer::with_capacity(len);
        serializer.serialize_u8(*self)?;
        Ok(serializer.buffer)
    }
}

impl ProtocolDeserialize for u8 {
    open spec fn decode_requires(buf: Seq<u8>) -> bool {
        buf.len() >= 1
    }

    open spec fn spec_decode(buf: Seq<u8>) -> Result<u8, Error> {
        Ok(buf[0])
    }

    fn decode(buf: &[u8]) -> (r: Result<u8, Error>) {
        let mut deserializer = Deserializer::new(buf);
        let v = deserializer.deserialize_u8();
        assert(deserializer.buf@ =~= buf@);
        proof {
            assert(buf@.subrange(0, buf@.len() as int) =~= buf@);
        }
        Ok(v)
    }
}

impl ProtocolSerialize for u16 {
    open spec fn spec_encode(v: u16) -> Seq<u8> {
        le2(v)
    }

    fn get_encoded_size(&self) -> (r: Result<usize, Error>) {
        let mut grabber = LengthGrabber::new();
        grabber.serialize_u16()?;
        Ok(grabber.len)
    }

    fn encode(&self) -> (r: Result<Vec<u8>, Error>) {
        let len = self.get_encoded_size()?;
        let mut serializer = Serializer::with_capacity(len);
        serializer.serialize_u16(*self)?;
        Ok(serializer.buffer)
    }
}

impl ProtocolDeserialize for u16 {
    open spec fn decode_requires(buf: Seq<u8>) -> bool {
        buf.len() >= 2
    }

    open spec fn spec_decode(buf: Seq<u8>) -> Result<u16, Error> {
        Ok(from_le2(buf))
    }

    fn decode(buf: &[u8]) -> (r: Result<u16, Error>) {
        let mut deserializer = Deserializer::new(buf);
        let v = deserializer.deserialize_u16();
        assert(deserializer.buf@ =~= buf@);
        proof {
            assert(buf@.subrange(0, buf@.len() as int) =~= buf@);
        }
        Ok(v)
    }
}

impl ProtocolSerialize for u32 {
    open spec fn spec_encode(v: u32) -> Seq<u8> {
        le4(v)
    }

    fn get_encoded_size(&self) -> (r: Result<usize, Error>) {
        let mut grabber = LengthGrabber::new();
        grabber.serialize_u32()?;
        Ok(grabber.len)
    }

    fn encode(&self) -> (r: Result<Vec<u8>, Error>) {
        let len = self.get_encoded_size()?;
        let mut serializer = Serializer::with_capacity(len);
        serializer.serialize_u32(*self)?;
        Ok(serializer.buffer)
    }
}

impl ProtocolDeserialize for u32 {
    open spec fn decode_requires(buf: Seq<u8>) -> bool {
        buf.len() >= 4
    }

    open spec fn spec_decode(buf: Seq<u8>) -> Result<u32, Error> {
        Ok(from_le4(buf))
    }

    fn decode(buf: &[u8]) -> (r: Result<u32, Error>) {
        let mut deserializer = Deserializer::new(buf);
        let v = deserializer.deserialize_u32();
        assert(deserializer.buf@ =~= buf@);
        proof {
            assert(buf@.subrange(0, buf@.len() as int) =~= buf@);
        }
        Ok(v)
    }
}

impl ProtocolSerialize for u64 {
    open spec fn spec_encode(v: u64) -> Seq<u8> {
        le8(v)
    }

    fn get_encoded_size(&self) -> (r: Result<usize, Error>) {
        let mut grabber = LengthGrabber::new();
        grabber.serialize_u64()?;
        Ok(grabber.len)
    }

    fn encode(&self) -> (r: Result<Vec<u8>, Error>) {
        let len = self.get_encoded_size()?;
        let mut serializer = Serializer::with_capacity(len);
        serializer.serialize_u64(*self)?;
        Ok(serializer.buffer)
    }
}

impl ProtocolDeserialize for u64 {
    open spec fn decode_requires(buf: Seq<u8>) -> bool {
        buf.len() >= 8
    }

    open spec fn spec_decode(buf: Seq<u8>) -> Result<u64, Error> {
        Ok(from_le8(buf))
    }

    fn decode(buf: &[u8]) -> (r: Result<u64, Error>) {
        let mut deserializer = Deserializer::new(buf);
        let v = deserializer.deserialize_u64();
        assert(deserializer.buf@ =~= buf@);
        proof {
            assert(buf@.subrange(0, buf@.len() as int) =~= buf@);
        }
        Ok(v)
    }
}

impl ProtocolSerialize for i8 {
    open spec fn spec_encode(v: i8) -> Seq<u8> {
        seq![v as u8]
    }

    fn get_encoded_size(&self) -> (r: Result<usize, Error>) {
        let mut grabber = LengthGrabber::new();
        grabber.serialize_i8()?;
        Ok(grabber.len)
    }

    fn encode(&self) -> (r: Result<Vec<u8>, Error>) {
        let len = self.get_encoded_size()?;
        let mut serializer = Serializer::with_capacity(len);
        serializer.serialize_i8(*self)?;
        Ok(serializer.buffer)
    }
}

impl ProtocolDeserialize for i8 {
    open spec fn decode_requires(buf: Seq<u8>) -> bool {
        buf.len() >= 1
    }

    open spec fn spec_decode(buf: Seq<u8>) -> Result<i8, Error> {
        Ok(buf[0] as i8)
    }

    fn decode(buf: &[u8]) -> (r: Result<i8, Error>) {
        let mut deserializer = Deserializer::new(buf);
        let v = deserializer.deserialize_i8();
        assert(deserializer.buf@ =~= buf@);
        proof {
            assert(buf@.subrange(0, buf@.len() as int) =~= buf@);
        }
        Ok(v)
    }
}

impl ProtocolSerialize for i16 {
    open spec fn spec_encode(v: i16) -> Seq<u8> {
        le2(v as u16)
    }

    fn get_encoded_size(&self) -> (r: Result<usize, Error>) {
        let mut grabber = LengthGrabber::new();
        grabber.serialize_i16()?;
        Ok(grabber.len)
    }

    fn encode(&self) -> (r: Result<Vec<u8>, Error>) {
        let len = self.get_encoded_size()?;
        let mut serializer = Serializer::with_capacity(len);
        serializer.serialize_i16(*self)?;
        Ok(serializer.buffer)
    }
}

impl ProtocolDeserialize for i16 {
    open spec fn decode_requires(buf: Seq<u8>) -> bool {
        buf.len() >= 2
    }

    open spec fn spec_decode(buf: Seq<u8>) -> Result<i16, Error> {
        Ok(from_le2(buf) as i16)
    }

    fn decode(buf: &[u8]) -> (r: Result<i16, Error>) {
        let mut deserializer = Deserializer::new(buf);
        let v = deserializer.deserialize_i16();
        assert(deserializer.buf@ =~= buf@);
        proof {
            assert(buf@.subrange(0, buf@.len() as int) =~= buf@);
        }
        Ok(v)
    }
}

impl ProtocolSerialize for i32 {
    open spec fn spec_encode(v: i32) -> Seq<u8> {
        le4(v as u32)
    }

    fn get_encoded_size(&self) -> (r: Result<usize, Error>) {
        let mut grabber = LengthGrabber::new();
        grabber.serialize_i32()?;
        Ok(grabber.len)
    }

    fn encode(&self) -> (r: Result<Vec<u8>, Error>) {
        let len = self.get_encoded_size()?;
        let mut serializer = Serializer::with_capacity(len);
        serializer.serialize_i32(*self)?;
        Ok(serializer.buffer)
    }
}

impl ProtocolDeserialize for i32 {
    open spec fn decode_requires(buf: Seq<u8>) -> bool {
        buf.len() >= 4
    }

    open spec fn spec_decode(buf: Seq<u8>) -> Result<i32, Error> {
        Ok(from_le4(buf) as i32)
    }

    fn decode(buf: &[u8]) -> (r: Result<i32, Error>) {
        let mut deserializer = Deserializer::new(buf);
        let v = deserializer.deserialize_i32();
        assert(deserializer.buf@ =~= buf@);
        proof {
            assert(buf@.subrange(0, buf@.len() as int) =~= buf@);
        }
        Ok(v)
    }
}

impl ProtocolSerialize for i64 {
    open spec fn spec_encode(v: i64) -> Seq<u8> {
        le8(v as u64)
    }

    fn get_encoded_size(&self) -> (r: Result<usize, Error>) {
        let mut grabber = LengthGrabber::new();
        grabber.serialize_i64()?;
        Ok(grabber.len)
    }

    fn encode(&self) -> (r: Result<Vec<u8>, Error>) {
        let len = self.get_encoded_size()?;
        let mut serializer = Serializer::with_capacity(len);
        serializer.serialize_i64(*self)?;
        Ok(serializer.buffer)
    }
}

impl ProtocolDeserialize for i64 {
    open spec fn decode_requires(buf: Seq<u8>) -> bool {
        buf.len() >= 8
    }

    open spec fn spec_decode(buf: Seq<u8>) -> Result<i64, Error> {
        Ok(from_le8(buf) as i64)
    }

    fn decode(buf: &[u8]) -> (r: Result<i64, Error>) {
        let mut deserializer = Deserializer::new(buf);
        let v = deserializer.deserialize_i64();
        assert(deserializer.buf@ =~= buf@);
        proof {
            assert(buf@.subrange(0, buf@.len() as int) =~= buf@);
        }
        Ok(v)
    }
}

impl ProtocolSerialize for String {
    open spec fn spec_encode(v: Seq<char>) -> Seq<u8> {
        len_prefix(encode_utf8(v).len()) + encode_utf8(v)
    }

    fn get_encoded_size(&self) -> (r: Result<usize, Error>) {
        let mut grabber = LengthGrabber::new();
        grabber.serialize_str(self.as_str())?;
        Ok(grabber.len)
    }

    fn encode(&self) -> (r: Result<Vec<u8>, Error>) {
        let len = self.get_encoded_size()?;
        let mut serializer = Serializer::with_capacity(len);
        serializer.serialize_str(self.as_str())?;
        Ok(serializer.buffer)
    }
}

/// What decoding text gives: the bytes behind the length prefix, read as
/// UTF-8.
pub open spec fn spec_decode_text(buf: Seq<u8>) -> Result<Seq<char>, Error> {
    let bytes = buf.subrange(4, 4 + from_le4(buf));
    if valid_utf8(bytes) {
        Ok(decode_utf8(bytes))
    } else {
        Err(Error::BadString)
    }
}

impl ProtocolDeserialize for String {
    open spec fn decode_requires(buf: Seq<u8>) -> bool {
        buf.len() >= 4 && 4 + from_le4(buf) <= buf.len()
    }

    open spec fn spec_decode(buf: Seq<u8>) -> Result<Seq<char>, Error> {
        spec_decode_text(buf)
    }

    fn decode(buf: &[u8]) -> (r: Result<String, Error>) {
        let mut deserializer = Deserializer::new(buf);
        proof {
            assert(deserializer.rest() =~= buf@);
        }
        let s = deserializer.deserialize_str()?;
        Ok(s.to_owned())
    }
}

/// Decoding a frame gives back the value it was encoded from, for booleans
/// and every integer width; and the frame is always long enough to decode.
pub proof fn law_integer_frames_roundtrip(
    t: bool,
    a: u8,
    b: u16,
    c: u32,
    d: u64,
    e: i8,
    f: i16,
    g: i32,
    h: i64,
)
    ensures
        bool::decode_requires(bool::spec_encode(t)),
        bool::spec_decode(bool::spec_encode(t)) == Ok::<bool, Error>(t),
        u8::decode_requires(u8::spec_encode(a)),
        u8::spec_decode(u8::spec_encode(a)) == Ok::<u8, Error>(a),
        u16::decode_requires(u16::spec_encode(b)),
        u16::spec_decode(u16::spec_encode(b)) == Ok::<u16, Error>(b),
        u32::decode_requires(u32::spec_encode(c)),
        u32::spec_decode(u32::spec_encode(c)) == Ok::<u32, Error>(c),
        u64::decode_requires(u64::spec_encode(d)),
        u64::spec_decode(u64::spec_encode(d)) == Ok::<u64, Error>(d),
        i8::decode_requires(i8::spec_encode(e)),
        i8::spec_decode(i8::spec_encode(e)) == Ok::<i8, Error>(e),
        i16::decode_requires(i16::spec_encode(f)),
        i16::spec_decode(i16::spec_encode(f)) == Ok::<i16, Error>(f),
        i32::decode_requires(i32::spec_encode(g)),
        i32::spec_decode(i32::spec_encode(g)) == Ok::<i32, Error>(g),
        i64::decode_requires(i64::spec_encode(h)),
        i64::spec_decode(i64::spec_encode(h)) == Ok::<i64, Error>(h),
{
    lemma_le2_roundtrip(b);
    lemma_le4_roundtrip(c);
    lemma_le8_roundtrip(d);
    lemma_le2_roundtrip(f as u16);
    lemma_le4_roundtrip(g as u32);
    lemma_le8_roundtrip(h as u64);
    lemma_signed_bits_roundtrip(e, f, g, h);
}

/// Decoding the frame of a string gives back the string, as long as its UTF-8
/// length fits the 32-bit prefix.
pub proof fn law_text_frame_roundtrip(s: Seq<char>)
    requires
        encode_utf8(s).len() <= u32::MAX,
    ensures
        String::decode_requires(String::spec_encode(s)),
        String::spec_decode(String::spec_encode(s)) == Ok::<Seq<char>, Error>(s),
{
    let bytes = encode_utf8(s);
    let frame = String::spec_encode(s);
    lemma_le4_roundtrip(bytes.len() as u32);
    assert(frame.subrange(0, 4) =~= le4(bytes.len() as u32));
    assert(from_le4(frame) == from_le4(frame.subrange(0, 4)));
    assert(frame.subrange(4, 4 + from_le4(frame)) =~= bytes);
    vstd::utf8::encode_utf8_valid_utf8(s);
    vstd::utf8::encode_utf8_decode_utf8(s);
}

/// A value whose frame reads back as the value: every frame type of the
/// library is one.
pub trait ProtocolFrame: ProtocolSerialize + ProtocolDeserialize {
    /// The values whose frames read back; for text, those whose UTF-8 length
    /// fits the 32-bit length prefix.
    spec fn fits(v: Self::V) -> bool;

    /// Decoding the frame of a value that fits gives the value back, and the
    /// frame is long enough to decode.
    proof fn lemma_roundtrip(v: Self::V)
        requires
            Self::fits(v),
        ensures
            Self::decode_requires(Self::spec_encode(v)),
            Self::spec_decode(Self::spec_encode(v)) == Ok::<Self::V, Error>(v),
    ;
}

/// Whatever frame type it is, decoding the frame that `encode` writes for a
/// value gives the value back (for text, when its UTF-8 length fits the
/// 32-bit prefix). The length pass is the frame's length by the contracts of
/// `get_encoded_size` and `encode`, which both speak of `spec_encode`.
pub proof fn law_frame_roundtrip<T: ProtocolFrame>(v: T::V)
    requires
        T::fits(v),
    ensures
        T::decode_requires(T::spec_encode(v)),
        T::spec_decode(T::spec_encode(v)) == Ok::<T::V, Error>(v),
{
    T::lemma_roundtrip(v);
}

impl ProtocolFrame for bool {
    open spec fn fits(v: bool) -> bool {
        true
    }

    proof fn lemma_roundtrip(v: bool) {
        law_integer_frames_roundtrip(v, 0, 0, 0, 0, 0, 0, 0, 0);
    }
}

impl ProtocolFrame for u8 {
    open spec fn fits(v: u8) -> bool {
        true
    }

    proof fn lemma_roundtrip(v: u8) {
        law_integer_frames_roundtrip(false, v, 0, 0, 0, 0, 0, 0, 0);
    }
}

impl ProtocolFrame for u16 {
    open spec fn fits(v: u16) -> bool {
        true
    }

    proof fn lemma_roundtrip(v: u16) {
        law_integer_frames_roundtrip(false, 0, v, 0, 0, 0, 0, 0, 0);
    }
}

impl ProtocolFrame for u32 {
    open spec fn fits(v: u32) -> bool {
        true
    }

    proof fn lemma_roundtrip(v: u32) {
        law_integer_frames_roundtrip(false, 0, 0, v, 0, 0, 0, 0, 0);
    }
}

impl ProtocolFrame for u64 {
    open spec fn fits(v: u64) -> bool {
        true
    }

    proof fn lemma_roundtrip(v: u64) {
        law_integer_frames_roundtrip(false, 0, 0, 0, v, 0, 0, 0, 0);
    }
}

impl ProtocolFrame for i8 {
    open spec fn fits(v: i8) -> bool {
        true
    }

    proof fn lemma_roundtrip(v: i8) {
        law_integer_frames_roundtrip(false, 0, 0, 0, 0, v, 0, 0, 0);
    }
}

impl ProtocolFrame for i16 {
    open spec fn fits(v: i16) -> bool {
        true
    }

    proof fn lemma_roundtrip(v: i16) {
        law_integer_frames_roundtrip(false, 0, 0, 0, 0, 0, v, 0, 0);
    }
}

impl ProtocolFrame for i32 {
    open spec fn fits(v: i32) -> bool {
        true
    }

    proof fn lemma_roundtrip(v: i32) {
        law_integer_frames_roundtrip(false, 0, 0, 0, 0, 0, 0, v, 0);
    }
}

impl ProtocolFrame for i64 {
    open spec fn fits(v: i64) -> bool {
        true
    }

    proof fn lemma_roundtrip(v: i64) {
        law_integer_frames_roundtrip(false, 0, 0, 0, 0, 0, 0, 0, v);
    }
}

impl ProtocolFrame for String {
    open spec fn fits(v: Seq<char>) -> bool {
        encode_utf8(v).len() <= u32::MAX
    }

    proof fn lemma_roundtrip(v: Seq<char>) {
        law_text_frame_roundtrip(v);
    }
}

} // verus!
