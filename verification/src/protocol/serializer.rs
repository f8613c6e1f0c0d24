//! Writing frames: the length pre-pass (`LengthGrabber`) and the byte writer
//! (`Serializer`). Each method is one step of the serde data model; a value is
//! written by the sequence of steps its type drives.
use vstd::prelude::*;
use vstd::utf8::*;
use vstd::string::StringSliceAdditionalSpecFns;
use super::Error;
use super::wire::{le2, le4, le8, push_le2, push_le4, push_le8};

verus! {

/// The UTF-8 bytes of one character.
pub fn utf8_of_char(c: char) -> (r: Vec<u8>)
    ensures
        r@ == encode_scalar(c as u32),
        1 <= r@.len() <= 4,
{
    let v = c as u32;
    proof {
        vstd::utf8::char_is_scalar(c);
    }
    let mut r: Vec<u8> = Vec::new();
    if v <= 0x7F {
        r.push((v & 0x7F) as u8);
    } else if v <= 0x7FF {
        r.push(0xC0 | ((v >> 6) & 0x1F) as u8);
        r.push(0x80 | (v & 0x3F) as u8);
    } else if v <= 0xFFFF {
        r.push(0xE0 | ((v >> 12) & 0x0F) as u8);
        r.push(0x80 | ((v >> 6) & 0x3F) as u8);
        r.push(0x80 | (v & 0x3F) as u8);
    } else {
        r.push(0xF0 | ((v >> 18) & 0x7) as u8);
        r.push(0x80 | ((v >> 12) & 0x3F) as u8);
        r.push(0x80 | ((v >> 6) & 0x3F) as u8);
        r.push(0x80 | (v & 0x3F) as u8);
    }
    r
}

/// A serializer that only counts: each of its steps adds exactly the number
/// of bytes that the `Serializer`'s step of the same name appends (the two
/// contracts state the same number), so after a value is driven through it,
/// `len` is the length of the frame the `Serializer` writes for that value and
/// the frame can be allocated once.
pub struct LengthGrabber {
    pub len: usize,
}

/// The byte writer: each step appends to `buffer`.
pub struct Serializer {
    pub buffer: Vec<u8>,
}

/// How a character is written: four bytes are appended, then the character's
/// UTF-8 bytes are written starting at the byte that was last before the
/// append, so that byte is overwritten and the bytes after the character stay
/// zero.
pub open spec fn char_written(before: Seq<u8>, c: char) -> Seq<u8> {
    let enc = encode_scalar(c as u32);
    before.subrange(0, before.len() - 1) + enc + Seq::new((5 - enc.len()) as nat, |i: int| 0u8)
}

/// The length prefix of a string or byte string: its length cut to 32 bits.
pub open spec fn len_prefix(n: nat) -> Seq<u8> {
    le4(n as u32)
}

impl LengthGrabber {
    pub fn new() -> (r: Self)
        ensures
            r.len == 0,
    {
        LengthGrabber { len: 0 }
    }

    pub fn serialize_bool(&mut self) -> (r: Result<(), Error>)
        requires
            old(self).len + 1 <= usize::MAX,
        ensures
            final(self).len == old(self).len + 1,
            r is Ok,
    {
        self.len = self.len + 1;
        Ok(())
    }

    pub fn serialize_none(&mut self) -> (r: Result<(), Error>)
        requires
            old(self).len + 1 <= usize::MAX,
        ensures
            final(self).len == old(self).len + 1,
            r is Ok,
    {
        self.len = self.len + 1;
        Ok(())
    }

    /// The presence tag of an option; the value's own steps follow.
    pub fn serialize_some(&mut self) -> (r: Result<(), Error>)
        requires
            old(self).len + 1 <= usize::MAX,
        ensures
            final(self).len == old(self).len + 1,
            r is Ok,
    {
        self.len = self.len + 1;
        Ok(())
    }

    pub fn serialize_i8(&mut self) -> (r: Result<(), Error>)
        requires
            old(self).len + 1 <= usize::MAX,
        ensures
            final(self).len == old(self).len + 1,
            r is Ok,
    {
        self.len = self.len + 1;
        Ok(())
    }

    pub fn serialize_i16(&mut self) -> (r: Result<(), Error>)
        requires
            old(self).len + 2 <= usize::MAX,
        ensures
            final(self).len == old(self).len + 2,
            r is Ok,
    {
        self.len = self.len + 2;
        Ok(())
    }

    pub fn serialize_i32(&mut self) -> (r: Result<(), Error>)
        requires
            old(self).len + 4 <= usize::MAX,
        ensures
            final(self).len == old(self).len + 4,
            r is Ok,
    {
        self.len = self.len + 4;
        Ok(())
    }

    pub fn serialize_i64(&mut self) -> (r: Result<(), Error>)
        requires
            old(self).len + 8 <= usize::MAX,
        ensures
            final(self).len == old(self).len + 8,
            r is Ok,
    {
        self.len = self.len + 8;
        Ok(())
    }

    pub fn serialize_u8(&mut self) -> (r: Result<(), Error>)
        requires
            old(self).len + 1 <= usize::MAX,
        ensures
            final(self).len == old(self).len + 1,
            r is Ok,
    {
        self.len = self.len + 1;
        Ok(())
    }

    pub fn serialize_u16(&mut self) -> (r: Result<(), Error>)
        requires
            old(self).len + 2 <= usize::MAX,
        ensures
            final(self).len == old(self).len + 2,
            r is Ok,
    {
        self.len = self.len + 2;
        Ok(())
    }

    pub fn serialize_u32(&mut self) -> (r: Result<(), Error>)
        requires
            old(self).len + 4 <= usize::MAX,
        ensures
            final(self).len == old(self).len + 4,
            r is Ok,
    {
        self.len = self.len + 4;
        Ok(())
    }

    pub fn serialize_u64(&mut self) -> (r: Result<(), Error>)
        requires
            old(self).len + 8 <= usize::MAX,
        ensures
            final(self).len == old(self).len + 8,
            r is Ok,
    {
        self.len = self.len + 8;
        Ok(())
    }

    pub fn serialize_f32(&mut self) -> (r: Result<(), Error>)
        requires
            old(self).len + 4 <= usize::MAX,
        ensures
            final(self).len == old(self).len + 4,
            r is Ok,
    {
        self.len = self.len + 4;
        Ok(())
    }

    pub fn serialize_f64(&mut self) -> (r: Result<(), Error>)
        requires
            old(self).len + 8 <= usize::MAX,
        ensures
            final(self).len == old(self).len + 8,
            r is Ok,
    {
        self.len = self.len + 8;
        Ok(())
    }

    /// A character is counted as four bytes.
    pub fn serialize_char(&mut self) -> (r: Result<(), Error>)
        requires
            old(self).len + 4 <= usize::MAX,
        ensures
            final(self).len == old(self).len + 4,
            r is Ok,
    {
        self.len = self.len + 4;
        Ok(())
    }

    pub fn serialize_str(&mut self, v: &str) -> (r: Result<(), Error>)
        requires
            old(self).len + 4 + v.spec_bytes().len() <= usize::MAX,
        ensures
            final(self).len == old(self).len + 4 + v.spec_bytes().len(),
            r is Ok,
    {
        self.len = self.len + 4 + v.len();
        Ok(())
    }

    pub fn serialize_bytes(&mut self, v: &[u8]) -> (r: Result<(), Error>)
        requires
            old(self).len + 4 + v@.len() <= usize::MAX,
        ensures
            final(self).len == old(self).len + 4 + v@.len(),
            r is Ok,
    {
        self.len = self.len + 4 + v.len();
        Ok(())
    }

    pub fn serialize_unit(&mut self) -> (r: Result<(), Error>)
        ensures
            final(self).len == old(self).len,
            r is Ok,
    {
        Ok(())
    }

    pub fn serialize_unit_struct(&mut self) -> (r: Result<(), Error>)
        ensures
            final(self).len == old(self).len,
            r is Ok,
    {
        Ok(())
    }

    /// A variant index.
    pub fn serialize_unit_variant(&mut self) -> (r: Result<(), Error>)
        requires
            old(self).len + 4 <= usize::MAX,
        ensures
            final(self).len == old(self).len + 4,
            r is Ok,
    {
        self.len = self.len + 4;
        Ok(())
    }

    /// A newtype struct adds no framing; its value's steps follow.
    pub fn serialize_newtype_struct(&mut self) -> (r: Result<(), Error>)
        ensures
            final(self).len == old(self).len,
            r is Ok,
    {
        Ok(())
    }

    /// The variant index; the value's steps follow.
    pub fn serialize_newtype_variant(&mut self) -> (r: Result<(), Error>)
        requires
            old(self).len + 4 <= usize::MAX,
        ensures
            final(self).len == old(self).len + 4,
            r is Ok,
    {
        self.len = self.len + 4;
        Ok(())
    }

    /// The length field of a sequence, counted whether or not the length is
    /// known.
    pub fn serialize_seq(&mut self, _len: Option<usize>) -> (r: Result<(), Error>)
        requires
            old(self).len + 4 <= usize::MAX,
        ensures
            final(self).len == old(self).len + 4,
            r is Ok,
    {
        self.len = self.len + 4;
        Ok(())
    }

    /// A tuple struct adds no framing, as the writer writes none.
    pub fn serialize_tuple_struct(&mut self, _len: usize) -> (r: Result<(), Error>)
        ensures
            final(self).len == old(self).len,
            r is Ok,
    {
        Ok(())
    }

    /// A tuple adds no framing.
    pub fn serialize_tuple(&mut self) -> (r: Result<(), Error>)
        ensures
            final(self).len == old(self).len,
            r is Ok,
    {
        Ok(())
    }

    /// The variant index of a tuple variant.
    pub fn serialize_tuple_variant(&mut self) -> (r: Result<(), Error>)
        requires
            old(self).len + 4 <= usize::MAX,
        ensures
            final(self).len == old(self).len + 4,
            r is Ok,
    {
        self.len = self.len + 4;
        Ok(())
    }

    /// The field holding the number of key-value pairs.
    pub fn serialize_map(&mut self, _len: Option<usize>) -> (r: Result<(), Error>)
        requires
            old(self).len + 4 <= usize::MAX,
        ensures
            final(self).len == old(self).len + 4,
            r is Ok,
    {
        self.len = self.len + 4;
        Ok(())
    }

    /// A struct adds no framing: the other side knows the layout.
    pub fn serialize_struct(&mut self) -> (r: Result<(), Error>)
        ensures
            final(self).len == old(self).len,
            r is Ok,
    {
        Ok(())
    }

    /// The variant index of a struct variant.
    pub fn serialize_struct_variant(&mut self) -> (r: Result<(), Error>)
        requires
            old(self).len + 4 <= usize::MAX,
        ensures
            final(self).len == old(self).len + 4,
            r is Ok,
    {
        self.len = self.len + 4;
        Ok(())
    }
}

impl Serializer {
    pub fn new() -> (r: Self)
        ensures
            r.buffer@ == Seq::<u8>::empty(),
    {
        Serializer { buffer: Vec::new() }
    }

    pub fn with_capacity(capacity: usize) -> (r: Self)
        ensures
            r.buffer@ == Seq::<u8>::empty(),
    {
        Serializer { buffer: Vec::with_capacity(capacity) }
    }

    pub fn serialize_bool(&mut self, v: bool) -> (r: Result<(), Error>)
        ensures
            final(self).buffer@ == old(self).buffer@.push(if v { 1u8 } else { 0u8 }),
            final(self).buffer@.len() == old(self).buffer@.len() + 1,
            r is Ok,
    {
        self.buffer.push(if v { 1 } else { 0 });
        Ok(())
    }

    pub fn serialize_none(&mut self) -> (r: Result<(), Error>)
        ensures
            final(self).buffer@ == old(self).buffer@.push(0u8),
            final(self).buffer@.len() == old(self).buffer@.len() + 1,
            r is Ok,
    {
        self.buffer.push(0);
        Ok(())
    }

    /// The presence tag of an option; the value's own steps follow.
    pub fn serialize_some(&mut self) -> (r: Result<(), Error>)
        ensures
            final(self).buffer@ == old(self).buffer@.push(1u8),
            final(self).buffer@.len() == old(self).buffer@.len() + 1,
            r is Ok,
    {
        self.buffer.push(1);
        Ok(())
    }

    pub fn serialize_i8(&mut self, v: i8) -> (r: Result<(), Error>)
        ensures
            final(self).buffer@ == old(self).buffer@.push(v as u8),
            final(self).buffer@.len() == old(self).buffer@.len() + 1,
            r is Ok,
    {
        self.buffer.push(v as u8);
        Ok(())
    }

    pub fn serialize_i16(&mut self, v: i16) -> (r: Result<(), Error>)
        ensures
            final(self).buffer@ == old(self).buffer@ + le2(v as u16),
            final(self).buffer@.len() == old(self).buffer@.len() + 2,
            r is Ok,
    {
        push_le2(&mut self.buffer, v as u16);
        Ok(())
    }

    pub fn serialize_i32(&mut self, v: i32) -> (r: Result<(), Error>)
        ensures
            final(self).buffer@ == old(self).buffer@ + le4(v as u32),
            final(self).buffer@.len() == old(self).buffer@.len() + 4,
            r is Ok,
    {
        push_le4(&mut self.buffer, v as u32);
        Ok(())
    }

    pub fn serialize_i64(&mut self, v: i64) -> (r: Result<(), Error>)
        ensures
            final(self).buffer@ == old(self).buffer@ + le8(v as u64),
            final(self).buffer@.len() == old(self).buffer@.len() + 8,
            r is Ok,
    {
        push_le8(&mut self.buffer, v as u64);
        Ok(())
    }

    pub fn serialize_u8(&mut self, v: u8) -> (r: Result<(), Error>)
        ensures
            final(self).buffer@ == old(self).buffer@.push(v),
            final(self).buffer@.len() == old(self).buffer@.len() + 1,
            r is Ok,
    {
        self.buffer.push(v);
        Ok(())
    }

    pub fn serialize_u16(&mut self, v: u16) -> (r: Result<(), Error>)
        ensures
            final(self).buffer@ == old(self).buffer@ + le2(v),
            final(self).buffer@.len() == old(self).buffer@.len() + 2,
            r is Ok,
    {
        push_le2(&mut self.buffer, v);
        Ok(())
    }

    pub fn serialize_u32(&mut self, v: u32) -> (r: Result<(), Error>)
        ensures
            final(self).buffer@ == old(self).buffer@ + le4(v),
            final(self).buffer@.len() == old(self).buffer@.len() + 4,
            r is Ok,
    {
        push_le4(&mut self.buffer, v);
        Ok(())
    }

    pub fn serialize_u64(&mut self, v: u64) -> (r: Result<(), Error>)
        ensures
            final(self).buffer@ == old(self).buffer@ + le8(v),
            final(self).buffer@.len() == old(self).buffer@.len() + 8,
            r is Ok,
    {
        push_le8(&mut self.buffer, v);
        Ok(())
    }

    /// A 32-bit float, given by its bits (`f32::to_bits`).
    pub fn serialize_f32(&mut self, bits: u32) -> (r: Result<(), Error>)
        ensures
            final(self).buffer@ == old(self).buffer@ + le4(bits),
            final(self).buffer@.len() == old(self).buffer@.len() + 4,
            r is Ok,
    {
        push_le4(&mut self.buffer, bits);
        Ok(())
    }

    /// A 64-bit float, given by its bits (`f64::to_bits`).
    pub fn serialize_f64(&mut self, bits: u64) -> (r: Result<(), Error>)
        ensures
            final(self).buffer@ == old(self).buffer@ + le8(bits),
            final(self).buffer@.len() == old(self).buffer@.len() + 8,
            r is Ok,
    {
        push_le8(&mut self.buffer, bits);
        Ok(())
    }

    /// See `char_written`. A character cannot be the first thing in a frame:
    /// there must be a byte before it.
    pub fn serialize_char(&mut self, v: char) -> (r: Result<(), Error>)
        requires
            old(self).buffer@.len() > 0,
        ensures
            final(self).buffer@ == char_written(old(self).buffer@, v),
            final(self).buffer@.len() == old(self).buffer@.len() + 4,
            r is Ok,
    {
        let ghost before = self.buffer@;
        let point = self.buffer.len() - 1;
        let mut k: usize = 0;
        while k < 4
            invariant
                0 <= k <= 4,
                point + 1 == before.len(),
                self.buffer@ == before + Seq::new(k as nat, |i: int| 0u8),
            decreases 4 - k,
        {
            self.buffer.push(0);
            k = k + 1;
            assert(self.buffer@ =~= before + Seq::new(k as nat, |i: int| 0u8));
        }
        let enc = utf8_of_char(v);
        let mut i: usize = 0;
        while i < enc.len()
            invariant
                0 <= i <= enc@.len() <= 4,
                point + 1 == before.len(),
                self.buffer@.len() == before.len() + 4,
                forall|j: int| 0 <= j < point ==> self.buffer@[j] == before[j],
                forall|j: int| 0 <= j < i ==> self.buffer@[point + j] == enc@[j],
                self.buffer.len() == before.len() + 4,
                forall|j: int|
                    before.len() <= j < before.len() + 4 && point + i <= j ==> self.buffer@[j]
                        == 0u8,
            decreases enc@.len() - i,
        {
            assert(point + i < self.buffer.len());
            self.buffer.set(point + i, enc[i]);
            i = i + 1;
        }
        assert(self.buffer@ =~= char_written(before, v));
        Ok(())
    }

    pub fn serialize_str(&mut self, v: &str) -> (r: Result<(), Error>)
        ensures
            final(self).buffer@ == old(self).buffer@ + len_prefix(v.spec_bytes().len())
                + v.spec_bytes(),
            final(self).buffer@.len() == old(self).buffer@.len() + 4 + v.spec_bytes().len(),
            r is Ok,
    {
        let bytes = v.as_bytes();
        self.serialize_bytes(bytes)
    }

    pub fn serialize_bytes(&mut self, v: &[u8]) -> (r: Result<(), Error>)
        ensures
            final(self).buffer@ == old(self).buffer@ + len_prefix(v@.len()) + v@,
            final(self).buffer@.len() == old(self).buffer@.len() + 4 + v@.len(),
            r is Ok,
    {
        push_le4(&mut self.buffer, v.len() as u32);
        let ghost mid = self.buffer@;
        let mut i: usize = 0;
        while i < v.len()
            invariant
                0 <= i <= v@.len(),
                self.buffer@ == mid + v@.subrange(0, i as int),
            decreases v@.len() - i,
        {
            self.buffer.push(v[i]);
            i = i + 1;
            assert(self.buffer@ =~= mid + v@.subrange(0, i as int));
        }
        assert(v@.subrange(0, v@.len() as int) =~= v@);
        Ok(())
    }

    /// A unit adds nothing.
    pub fn serialize_unit(&mut self) -> (r: Result<(), Error>)
        ensures
            final(self).buffer@ == old(self).buffer@,
            final(self).buffer@.len() == old(self).buffer@.len() + 0,
            r is Ok,
    {
        Ok(())
    }

    /// A unit struct adds nothing.
    pub fn serialize_unit_struct(&mut self) -> (r: Result<(), Error>)
        ensures
            final(self).buffer@ == old(self).buffer@,
            final(self).buffer@.len() == old(self).buffer@.len() + 0,
            r is Ok,
    {
        Ok(())
    }

    /// The variant index of a unit variant.
    pub fn serialize_unit_variant(&mut self, variant_index: u32) -> (r: Result<(), Error>)
        ensures
            final(self).buffer@ == old(self).buffer@ + le4(variant_index),
            final(self).buffer@.len() == old(self).buffer@.len() + 4,
            r is Ok,
    {
        push_le4(&mut self.buffer, variant_index);
        Ok(())
    }

    /// A newtype struct adds no framing; its value's steps follow.
    pub fn serialize_newtype_struct(&mut self) -> (r: Result<(), Error>)
        ensures
            final(self).buffer@ == old(self).buffer@,
            final(self).buffer@.len() == old(self).buffer@.len() + 0,
            r is Ok,
    {
        Ok(())
    }

    /// The variant index of a newtype variant; the value's steps follow.
    pub fn serialize_newtype_variant(&mut self, variant_index: u32) -> (r: Result<(), Error>)
        ensures
            final(self).buffer@ == old(self).buffer@ + le4(variant_index),
            final(self).buffer@.len() == old(self).buffer@.len() + 4,
            r is Ok,
    {
        push_le4(&mut self.buffer, variant_index);
        Ok(())
    }

    /// The length of a sequence, cut to 32 bits; a sequence of unknown length
    /// cannot be written.
    pub fn serialize_seq(&mut self, len: Option<usize>) -> (r: Result<(), Error>)
        ensures
            match len {
                Some(n) => final(self).buffer@ == old(self).buffer@ + le4(n as u32)
                    && final(self).buffer@.len() == old(self).buffer@.len() + 4 && r is Ok,
                None => final(self).buffer@ == old(self).buffer@ && r == Err::<(), Error>(
                    Error::UnsizedSequence,
                ),
            },
    {
        if let Some(len) = len {
            push_le4(&mut self.buffer, len as u32);
        } else {
            return Err(Error::UnsizedSequence);
        }
        Ok(())
    }

    /// A tuple adds no framing.
    pub fn serialize_tuple(&mut self) -> (r: Result<(), Error>)
        ensures
            final(self).buffer@ == old(self).buffer@,
            final(self).buffer@.len() == old(self).buffer@.len() + 0,
            r is Ok,
    {
        Ok(())
    }

    /// A tuple struct adds no framing.
    pub fn serialize_tuple_struct(&mut self) -> (r: Result<(), Error>)
        ensures
            final(self).buffer@ == old(self).buffer@,
            final(self).buffer@.len() == old(self).buffer@.len() + 0,
            r is Ok,
    {
        Ok(())
    }

    /// The variant index of a tuple variant.
    pub fn serialize_tuple_variant(&mut self, variant_index: u32) -> (r: Result<(), Error>)
        ensures
            final(self).buffer@ == old(self).buffer@ + le4(variant_index),
            final(self).buffer@.len() == old(self).buffer@.len() + 4,
            r is Ok,
    {
        push_le4(&mut self.buffer, variant_index);
        Ok(())
    }

    /// The number of key-value pairs, cut to 32 bits; a map of unknown size
    /// cannot be written.
    pub fn serialize_map(&mut self, len: Option<usize>) -> (r: Result<(), Error>)
        ensures
            match len {
                Some(n) => final(self).buffer@ == old(self).buffer@ + le4(n as u32)
                    && final(self).buffer@.len() == old(self).buffer@.len() + 4 && r is Ok,
                None => final(self).buffer@ == old(self).buffer@ && r == Err::<(), Error>(
                    Error::UnsizedMap,
                ),
            },
    {
        if let Some(len) = len {
            push_le4(&mut self.buffer, len as u32);
        } else {
            return Err(Error::UnsizedMap);
        }
        Ok(())
    }

    /// A struct adds no framing: the other side knows the layout.
    pub fn serialize_struct(&mut self) -> (r: Result<(), Error>)
        ensures
            final(self).buffer@ == old(self).buffer@,
            final(self).buffer@.len() == old(self).buffer@.len() + 0,
            r is Ok,
    {
        Ok(())
    }

    /// The variant index of a struct variant.
    pub fn serialize_struct_variant(&mut self, variant_index: u32) -> (r: Result<(), Error>)
        ensures
            final(self).buffer@ == old(self).buffer@ + le4(variant_index),
            final(self).buffer@.len() == old(self).buffer@.len() + 4,
            r is Ok,
    {
        push_le4(&mut self.buffer, variant_index);
        Ok(())
    }
}

} // verus!
