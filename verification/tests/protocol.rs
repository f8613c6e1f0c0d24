use exosphere::protocol::Error;
use exosphere::protocol::deserializer::Deserializer;
use exosphere::protocol::frames::{ProtocolDeserialize, ProtocolSerialize};
use exosphere::protocol::serializer::{LengthGrabber, Serializer};
use exosphere::numbers::{DecodeError, Protocol};

#[test]
fn serializer_writes_integers_little_endian() {
    let mut s = Serializer::new();
    s.serialize_u16(0x1234).unwrap();
    s.serialize_u32(0xA1B2C3D4).unwrap();
    s.serialize_i8(-1).unwrap();
    s.serialize_i16(-2).unwrap();
    s.serialize_u64(1).unwrap();
    assert_eq!(
        s.buffer,
        vec![0x34, 0x12, 0xD4, 0xC3, 0xB2, 0xA1, 0xFF, 0xFE, 0xFF, 1, 0, 0, 0, 0, 0, 0, 0]
    );
}

#[test]
fn serializer_writes_bool_option_and_variants() {
    let mut s = Serializer::new();
    s.serialize_bool(true).unwrap();
    s.serialize_bool(false).unwrap();
    s.serialize_none().unwrap();
    s.serialize_some().unwrap();
    s.serialize_unit_variant(2).unwrap();
    s.serialize_unit().unwrap();
    s.serialize_struct().unwrap();
    assert_eq!(s.buffer, vec![1, 0, 0, 1, 2, 0, 0, 0]);
}

#[test]
fn serializer_writes_length_prefixed_text_and_bytes() {
    let mut s = Serializer::new();
    s.serialize_str("hi").unwrap();
    s.serialize_bytes(&[9, 8, 7]).unwrap();
    assert_eq!(s.buffer, vec![2, 0, 0, 0, b'h', b'i', 3, 0, 0, 0, 9, 8, 7]);
}

#[test]
fn serializer_refuses_unsized_sequences_and_maps() {
    let mut s = Serializer::new();
    assert_eq!(s.serialize_seq(None), Err(Error::UnsizedSequence));
    assert_eq!(s.serialize_map(None), Err(Error::UnsizedMap));
    assert!(s.buffer.is_empty());
    s.serialize_seq(Some(3)).unwrap();
    s.serialize_map(Some(1)).unwrap();
    assert_eq!(s.buffer, vec![3, 0, 0, 0, 1, 0, 0, 0]);
}

#[test]
fn serializer_writes_char_over_the_previous_byte() {
    let mut s = Serializer::new();
    s.serialize_u8(0xAA).unwrap();
    s.serialize_char('A').unwrap();
    assert_eq!(s.buffer, vec![b'A', 0, 0, 0, 0]);
    let mut t = Serializer::new();
    t.serialize_u16(0xBBAA).unwrap();
    t.serialize_char('é').unwrap();
    assert_eq!(t.buffer, vec![0xAA, 0xC3, 0xA9, 0, 0, 0]);
}

#[test]
fn serializer_writes_float_bits() {
    let mut s = Serializer::new();
    s.serialize_f32((-4096.512f32).to_bits()).unwrap();
    s.serialize_f64(1.5f64.to_bits()).unwrap();
    let mut expected = (-4096.512f32).to_le_bytes().to_vec();
    expected.extend_from_slice(&1.5f64.to_le_bytes());
    assert_eq!(s.buffer, expected);
}

#[test]
fn length_grabber_counts_what_the_serializer_writes() {
    let mut g = LengthGrabber::new();
    g.serialize_u16().unwrap();
    g.serialize_str("hello").unwrap();
    g.serialize_bool().unwrap();
    g.serialize_unit_variant().unwrap();
    g.serialize_seq(None).unwrap();
    g.serialize_char().unwrap();
    let mut s = Serializer::new();
    s.serialize_u16(7).unwrap();
    s.serialize_str("hello").unwrap();
    s.serialize_bool(true).unwrap();
    s.serialize_unit_variant(1).unwrap();
    s.serialize_seq(Some(0)).unwrap();
    s.serialize_char('x').unwrap();
    assert_eq!(g.len, s.buffer.len());
    assert_eq!(g.len, 2 + 9 + 1 + 4 + 4 + 4);
}

#[test]
fn length_grabber_counts_a_tuple_struct_as_the_writer_writes_it() {
    let mut g = LengthGrabber::new();
    g.serialize_tuple_struct(2).unwrap();
    assert_eq!(g.len, 0);
    let mut s = Serializer::new();
    s.serialize_tuple_struct().unwrap();
    assert_eq!(s.buffer.len(), 0);
}

#[test]
fn deserializer_reads_each_step() {
    let buf = [1u8, 0x34, 0x12, 0xFE, 0xFF, 2, 0, 0, 0, b'o', b'k', 5, 0, 0, 0];
    let mut d = Deserializer::new(&buf);
    assert!(d.deserialize_bool());
    assert_eq!(d.deserialize_u16(), 0x1234);
    assert_eq!(d.deserialize_i16(), -2);
    assert_eq!(d.deserialize_str(), Ok("ok"));
    assert_eq!(d.deserialize_identifier(), 5);
    assert_eq!(d.bufptr, buf.len());
}

#[test]
fn deserializer_rejects_bad_text_and_chars() {
    let buf = [2u8, 0, 0, 0, 0xFF, 0xFE];
    let mut d = Deserializer::new(&buf);
    assert_eq!(d.deserialize_str(), Err(Error::BadString));
    let code = [0x00u8, 0xD8, 0, 0];
    let mut d = Deserializer::new(&code);
    assert_eq!(d.deserialize_char(), Err(Error::BadString));
    let code = [0x41u8, 0, 0, 0];
    let mut d = Deserializer::new(&code);
    assert_eq!(d.deserialize_char(), Ok('A'));
}

#[test]
fn deserializer_reads_option_tags_and_lengths() {
    let buf = [1u8, 0, 3, 0, 0, 0, 2, 0, 0, 0, 3, 0, 0, 0, 7, 8, 9];
    let mut d = Deserializer::new(&buf);
    assert!(d.deserialize_option());
    assert!(!d.deserialize_option());
    assert_eq!(d.deserialize_seq(), 3);
    assert_eq!(d.deserialize_map(), 2);
    assert_eq!(d.deserialize_byte_buf(), &[7u8, 8, 9][..]);
}

#[test]
fn integer_frames_roundtrip() {
    let f = 0xDEADBEEFu32.encode().unwrap();
    assert_eq!(f, vec![0xEF, 0xBE, 0xAD, 0xDE]);
    assert_eq!(0xDEADBEEFu32.get_encoded_size(), Ok(4));
    assert_eq!(u32::decode(&f), Ok(0xDEADBEEF));
    assert_eq!(i64::decode(&(-5i64).encode().unwrap()), Ok(-5));
    assert_eq!(i8::decode(&(-128i8).encode().unwrap()), Ok(-128));
    assert_eq!(bool::decode(&true.encode().unwrap()), Ok(true));
    assert_eq!(u16::decode(&[1, 2, 3]), Ok(0x0201));
}

#[test]
fn text_frames_roundtrip() {
    let s = String::from("EXOSPHERE");
    let f = s.encode().unwrap();
    assert_eq!(f.len(), 13);
    assert_eq!(s.get_encoded_size(), Ok(13));
    assert_eq!(&f[..4], &[9, 0, 0, 0]);
    assert_eq!(String::decode(&f), Ok(String::from("EXOSPHERE")));
    assert_eq!(String::decode(&[1, 0, 0, 0, 0xC0]), Err(Error::BadString));
}

#[test]
fn fixed_layout_encodes_into_a_buffer_prefix() {
    let mut buf = [0xEEu8; 6];
    0x0102u16.encode_into(&mut buf);
    assert_eq!(buf, [0x02, 0x01, 0xEE, 0xEE, 0xEE, 0xEE]);
    (-2i32).encode_into(&mut buf);
    assert_eq!(buf, [0xFE, 0xFF, 0xFF, 0xFF, 0xEE, 0xEE]);
    assert_eq!(0u64.size(), 8);
    assert_eq!(7i8.size(), 1);
}

#[test]
fn fixed_layout_decodes_and_reports_short_buffers() {
    assert_eq!(u32::decode_from(&[1, 0, 0, 0, 9]), Ok(1));
    assert_eq!(i16::decode_from(&[0xFF, 0xFF]), Ok(-1));
    assert_eq!(u8::decode_from(&[]), Err(DecodeError {}));
    assert_eq!(u64::decode_from(&[1, 2, 3, 4, 5, 6, 7]), Err(DecodeError {}));
    assert_eq!(i8::decode_from(&[0x80]), Ok(-128));
}

#[test]
fn structured_frames_read_back_and_are_counted_exactly() {
    // a struct { tag: Option<u16>, items: Vec<u8>, kind: enum variant 3 (String), pair: (i32, bool) }
    let mut g = LengthGrabber::new();
    let mut s = Serializer::new();
    g.serialize_struct().unwrap();
    s.serialize_struct().unwrap();
    g.serialize_some().unwrap();
    s.serialize_some().unwrap();
    g.serialize_u16().unwrap();
    s.serialize_u16(700).unwrap();
    g.serialize_seq(Some(2)).unwrap();
    s.serialize_seq(Some(2)).unwrap();
    g.serialize_u8().unwrap();
    s.serialize_u8(9).unwrap();
    g.serialize_u8().unwrap();
    s.serialize_u8(10).unwrap();
    g.serialize_newtype_variant().unwrap();
    s.serialize_newtype_variant(3).unwrap();
    g.serialize_str("hi").unwrap();
    s.serialize_str("hi").unwrap();
    g.serialize_tuple_struct(2).unwrap();
    s.serialize_tuple_struct().unwrap();
    g.serialize_i32().unwrap();
    s.serialize_i32(-5).unwrap();
    g.serialize_bool().unwrap();
    s.serialize_bool(true).unwrap();
    assert_eq!(g.len, s.buffer.len());

    let mut d = Deserializer::new(&s.buffer);
    assert!(d.deserialize_option());
    assert_eq!(d.deserialize_u16(), 700);
    assert_eq!(d.deserialize_seq(), 2);
    assert_eq!(d.deserialize_u8(), 9);
    assert_eq!(d.deserialize_u8(), 10);
    assert_eq!(d.deserialize_identifier(), 3);
    assert_eq!(d.deserialize_str(), Ok("hi"));
    assert_eq!(d.deserialize_i32(), -5);
    assert!(d.deserialize_bool());
    assert_eq!(d.bufptr, s.buffer.len());
}
