//! The frame layout of structured values, as the writer's and the reader's
//! steps lay it out: booleans and integers as the primitive steps write them,
//! text behind a 32-bit length, an option as a tag byte (1 when a value
//! follows), a sequence (or a map, as a sequence of pairs) behind its 32-bit
//! length, a tuple or struct as its fields one after the other with no
//! framing, and an enum variant as its 32-bit index followed by its payload.
//! Floats are laid out as the integers of their bits. The layout carries no
//! types: reading a frame back needs the shape of the value, as a derived
//! reader knows it. The law here is that reading a value's frame with the
//! value's shape gives the value back.
use vstd::prelude::*;
use super::frames::ProtocolSerialize;
use vstd::utf8::{valid_utf8, decode_utf8, encode_utf8};
use super::wire::{
    le2, le4, le8, from_le2, from_le4, from_le8, lemma_le2_roundtrip, lemma_le4_roundtrip,
    lemma_le8_roundtrip, lemma_signed_bits_roundtrip,
};

verus! {

/// A structured value.
pub enum Value {
    Bool(bool),
    U8(u8),
    U16(u16),
    U32(u32),
    U64(u64),
    I8(i8),
    I16(i16),
    I32(i32),
    I64(i64),
    Text(Seq<char>),
    /// An absent option.
    Nothing,
    /// A present option.
    Just(Box<Value>),
    /// A sequence (a map is a sequence of pairs).
    List(Seq<Value>),
    /// A tuple, tuple struct or struct: its fields in order.
    Tuple(Seq<Value>),
    /// An enum variant: its index and its payload (a unit variant's payload
    /// is the empty tuple).
    Variant(u32, Box<Value>),
}

/// The shape of a value, which reading its frame needs.
pub enum Shape {
    Bool,
    U8,
    U16,
    U32,
    U64,
    I8,
    I16,
    I32,
    I64,
    Text,
    Opt(Box<Shape>),
    List(Box<Shape>),
    Tuple(Seq<Shape>),
    /// An enum: the payload shape of each variant, by index.
    Enum(Seq<Shape>),
}

/// The frame of a value.
pub open spec fn enc(v: Value) -> Seq<u8>
    decreases v,
{
    match v {
        Value::Bool(b) => seq![if b { 1u8 } else { 0u8 }],
        Value::U8(x) => seq![x],
        Value::U16(x) => le2(x),
        Value::U32(x) => le4(x),
        Value::U64(x) => le8(x),
        Value::I8(x) => seq![x as u8],
        Value::I16(x) => le2(x as u16),
        Value::I32(x) => le4(x as u32),
        Value::I64(x) => le8(x as u64),
        Value::Text(s) => le4(encode_utf8(s).len() as u32) + encode_utf8(s),
        Value::Nothing => seq![0u8],
        Value::Just(b) => seq![1u8] + enc(*b),
        Value::List(vs) => le4(vs.len() as u32) + enc_all(vs),
        Value::Tuple(vs) => enc_all(vs),
        Value::Variant(i, b) => le4(i) + enc(*b),
    }
}

/// The frames of values, one after the other.
pub open spec fn enc_all(vs: Seq<Value>) -> Seq<u8>
    decreases vs,
{
    if vs.len() == 0 {
        Seq::empty()
    } else {
        enc(vs[0]) + enc_all(vs.subrange(1, vs.len() as int))
    }
}

/// Reading a value of a shape from the front of bytes: the value and the
/// number of bytes read, or `None` when the bytes are too short, the text is
/// not UTF-8 or a variant index is out of range.
pub open spec fn dec(sh: Shape, b: Seq<u8>) -> Option<(Value, int)>
    decreases sh, 0nat,
{
    match sh {
        Shape::Bool => if b.len() >= 1 { Some((Value::Bool(b[0] == 1), 1)) } else { None },
        Shape::U8 => if b.len() >= 1 { Some((Value::U8(b[0]), 1)) } else { None },
        Shape::U16 => if b.len() >= 2 { Some((Value::U16(from_le2(b)), 2)) } else { None },
        Shape::U32 => if b.len() >= 4 { Some((Value::U32(from_le4(b)), 4)) } else { None },
        Shape::U64 => if b.len() >= 8 { Some((Value::U64(from_le8(b)), 8)) } else { None },
        Shape::I8 => if b.len() >= 1 { Some((Value::I8(b[0] as i8), 1)) } else { None },
        Shape::I16 => if b.len() >= 2 { Some((Value::I16(from_le2(b) as i16), 2)) } else { None },
        Shape::I32 => if b.len() >= 4 { Some((Value::I32(from_le4(b) as i32), 4)) } else { None },
        Shape::I64 => if b.len() >= 8 { Some((Value::I64(from_le8(b) as i64), 8)) } else { None },
        Shape::Text => if b.len() >= 4 && 4 + from_le4(b) <= b.len() {
            let bytes = b.subrange(4, 4 + from_le4(b));
            if valid_utf8(bytes) {
                Some((Value::Text(decode_utf8(bytes)), 4 + from_le4(b)))
            } else {
                None
            }
        } else {
            None
        },
        Shape::Opt(s) => if b.len() >= 1 {
            if b[0] == 1 {
                match dec(*s, b.skip(1)) {
                    Some((v, k)) => Some((Value::Just(Box::new(v)), 1 + k)),
                    None => None,
                }
            } else {
                Some((Value::Nothing, 1))
            }
        } else {
            None
        },
        Shape::List(s) => if b.len() >= 4 {
            match dec_n(*s, from_le4(b) as nat, b.skip(4)) {
                Some((vs, k)) => Some((Value::List(vs), 4 + k)),
                None => None,
            }
        } else {
            None
        },
        Shape::Tuple(ss) => match dec_all(ss, b) {
            Some((vs, k)) => Some((Value::Tuple(vs), k)),
            None => None,
        },
        Shape::Enum(ss) => if b.len() >= 4 && from_le4(b) < ss.len() {
            match dec(ss[from_le4(b) as int], b.skip(4)) {
                Some((v, k)) => Some((Value::Variant(from_le4(b), Box::new(v)), 4 + k)),
                None => None,
            }
        } else {
            None
        },
    }
}

/// Reading `n` values of one shape, one after the other.
pub open spec fn dec_n(sh: Shape, n: nat, b: Seq<u8>) -> Option<(Seq<Value>, int)>
    decreases sh, n,
{
    if n == 0 {
        Some((Seq::empty(), 0))
    } else {
        match dec(sh, b) {
            Some((v, k)) => if 0 <= k <= b.len() {
                match dec_n(sh, (n - 1) as nat, b.skip(k)) {
                    Some((vs, k2)) => Some((seq![v] + vs, k + k2)),
                    None => None,
                }
            } else {
                None
            },
            None => None,
        }
    }
}

/// Reading values of the given shapes, one after the other.
pub open spec fn dec_all(ss: Seq<Shape>, b: Seq<u8>) -> Option<(Seq<Value>, int)>
    decreases ss, 0nat,
{
    if ss.len() == 0 {
        Some((Seq::empty(), 0))
    } else {
        match dec(ss[0], b) {
            Some((v, k)) => if 0 <= k <= b.len() {
                match dec_all(ss.subrange(1, ss.len() as int), b.skip(k)) {
                    Some((vs, k2)) => Some((seq![v] + vs, k + k2)),
                    None => None,
                }
            } else {
                None
            },
            None => None,
        }
    }
}

/// A value has a shape, and fits the frame's 32-bit lengths: its text is at
/// most `u32::MAX` bytes of UTF-8 and its sequences at most `u32::MAX` long.
pub open spec fn conforms(v: Value, sh: Shape) -> bool
    decreases v,
{
    match (v, sh) {
        (Value::Bool(_), Shape::Bool) => true,
        (Value::U8(_), Shape::U8) => true,
        (Value::U16(_), Shape::U16) => true,
        (Value::U32(_), Shape::U32) => true,
        (Value::U64(_), Shape::U64) => true,
        (Value::I8(_), Shape::I8) => true,
        (Value::I16(_), Shape::I16) => true,
        (Value::I32(_), Shape::I32) => true,
        (Value::I64(_), Shape::I64) => true,
        (Value::Text(s), Shape::Text) => encode_utf8(s).len() <= u32::MAX,
        (Value::Nothing, Shape::Opt(_)) => true,
        (Value::Just(b), Shape::Opt(s)) => conforms(*b, *s),
        (Value::List(vs), Shape::List(s)) => vs.len() <= u32::MAX && conforms_each(vs, *s),
        (Value::Tuple(vs), Shape::Tuple(ss)) => conforms_all(vs, ss),
        (Value::Variant(i, b), Shape::Enum(ss)) => i < ss.len() && conforms(*b, ss[i as int]),
        _ => false,
    }
}

/// Every value has the one shape.
pub open spec fn conforms_each(vs: Seq<Value>, sh: Shape) -> bool
    decreases vs,
{
    if vs.len() == 0 {
        true
    } else {
        conforms(vs[0], sh) && conforms_each(vs.subrange(1, vs.len() as int), sh)
    }
}

/// The values have the shapes, one for one.
pub open spec fn conforms_all(vs: Seq<Value>, ss: Seq<Shape>) -> bool
    decreases vs,
{
    if vs.len() == 0 {
        ss.len() == 0
    } else {
        ss.len() > 0 && conforms(vs[0], ss[0]) && conforms_all(
            vs.subrange(1, vs.len() as int),
            ss.subrange(1, ss.len() as int),
        )
    }
}

/// Reading a value's frame with its shape gives the value back and reads
/// exactly the frame, whatever bytes follow it.
pub proof fn law_structured_frame_roundtrip(v: Value, sh: Shape, rest: Seq<u8>)
    requires
        conforms(v, sh),
    ensures
        dec(sh, enc(v) + rest) == Some((v, enc(v).len() as int)),
    decreases v,
{
    let b = enc(v) + rest;
    match v {
        Value::Bool(x) => {},
        Value::U8(x) => {},
        Value::U16(x) => {
            lemma_le2_roundtrip(x);
        },
        Value::U32(x) => {
            lemma_le4_roundtrip(x);
        },
        Value::U64(x) => {
            lemma_le8_roundtrip(x);
        },
        Value::I8(x) => {
            lemma_signed_bits_roundtrip(x, 0, 0, 0);
        },
        Value::I16(x) => {
            lemma_le2_roundtrip(x as u16);
            lemma_signed_bits_roundtrip(0, x, 0, 0);
        },
        Value::I32(x) => {
            lemma_le4_roundtrip(x as u32);
            lemma_signed_bits_roundtrip(0, 0, x, 0);
        },
        Value::I64(x) => {
            lemma_le8_roundtrip(x as u64);
            lemma_signed_bits_roundtrip(0, 0, 0, x);
        },
        Value::Text(s) => {
            let bytes = encode_utf8(s);
            lemma_le4_roundtrip(bytes.len() as u32);
            assert(from_le4(b) == from_le4(le4(bytes.len() as u32)));
            assert(b.subrange(4, 4 + from_le4(b)) =~= bytes);
            vstd::utf8::encode_utf8_valid_utf8(s);
            vstd::utf8::encode_utf8_decode_utf8(s);
        },
        Value::Nothing => {},
        Value::Just(x) => {
            if let Shape::Opt(s) = sh {
                assert(b.skip(1) =~= enc(*x) + rest);
                law_structured_frame_roundtrip(*x, *s, rest);
                assert(Box::new(*x) == x);
            }
        },
        Value::List(vs) => {
            if let Shape::List(s) = sh {
                lemma_le4_roundtrip(vs.len() as u32);
                assert(from_le4(b) == from_le4(le4(vs.len() as u32)));
                assert(b.skip(4) =~= enc_all(vs) + rest);
                lemma_each_roundtrip(vs, *s, rest);
            }
        },
        Value::Tuple(vs) => {
            if let Shape::Tuple(ss) = sh {
                lemma_all_roundtrip(vs, ss, rest);
            }
        },
        Value::Variant(i, x) => {
            if let Shape::Enum(ss) = sh {
                lemma_le4_roundtrip(i);
                assert(from_le4(b) == from_le4(le4(i)));
                assert(b.skip(4) =~= enc(*x) + rest);
                law_structured_frame_roundtrip(*x, ss[i as int], rest);
                assert(Box::new(*x) == x);
            }
        },
    }
}

/// The values of a sequence read back in turn.
pub proof fn lemma_each_roundtrip(vs: Seq<Value>, sh: Shape, rest: Seq<u8>)
    requires
        conforms_each(vs, sh),
    ensures
        dec_n(sh, vs.len(), enc_all(vs) + rest) == Some((vs, enc_all(vs).len() as int)),
    decreases vs,
{
    if vs.len() > 0 {
        let tail = vs.subrange(1, vs.len() as int);
        let b = enc_all(vs) + rest;
        assert(b =~= enc(vs[0]) + (enc_all(tail) + rest));
        law_structured_frame_roundtrip(vs[0], sh, enc_all(tail) + rest);
        assert(b.skip(enc(vs[0]).len() as int) =~= enc_all(tail) + rest);
        lemma_each_roundtrip(tail, sh, rest);
        assert(seq![vs[0]] + tail =~= vs);
    }
}

/// The fields of a tuple read back in turn.
pub proof fn lemma_all_roundtrip(vs: Seq<Value>, ss: Seq<Shape>, rest: Seq<u8>)
    requires
        conforms_all(vs, ss),
    ensures
        dec_all(ss, enc_all(vs) + rest) == Some((vs, enc_all(vs).len() as int)),
    decreases vs,
{
    if vs.len() > 0 {
        let tail = vs.subrange(1, vs.len() as int);
        let b = enc_all(vs) + rest;
        assert(b =~= enc(vs[0]) + (enc_all(tail) + rest));
        law_structured_frame_roundtrip(vs[0], ss[0], enc_all(tail) + rest);
        assert(b.skip(enc(vs[0]).len() as int) =~= enc_all(tail) + rest);
        lemma_all_roundtrip(tail, ss.subrange(1, ss.len() as int), rest);
        assert(seq![vs[0]] + tail =~= vs);
    } else {
        assert(vs =~= Seq::<Value>::empty());
    }
}

/// The library's own frame types are laid out as their structured values:
/// a boolean, each integer width and text as themselves.
pub proof fn law_frames_follow_the_layout(
    t: bool,
    a: u8,
    b: u16,
    c: u32,
    d: u64,
    e: i8,
    f: i16,
    g: i32,
    h: i64,
    s: Seq<char>,
)
    ensures
        bool::spec_encode(t) == enc(Value::Bool(t)),
        u8::spec_encode(a) == enc(Value::U8(a)),
        u16::spec_encode(b) == enc(Value::U16(b)),
        u32::spec_encode(c) == enc(Value::U32(c)),
        u64::spec_encode(d) == enc(Value::U64(d)),
        i8::spec_encode(e) == enc(Value::I8(e)),
        i16::spec_encode(f) == enc(Value::I16(f)),
        i32::spec_encode(g) == enc(Value::I32(g)),
        i64::spec_encode(h) == enc(Value::I64(h)),
        String::spec_encode(s) == enc(Value::Text(s)),
{
}

} // verus!
