//! Reading frames. The reader walks a borrowed buffer with a cursor; each
//! method reads one step of the serde data model. Reading past the end of the
//! buffer is outside every method's contract.
use vstd::prelude::*;
use vstd::utf8::{valid_utf8, decode_utf8, is_scalar};
use super::Error;
use crate::text::str_from_utf8;
use super::wire::{from_le2, from_le4, from_le8, read_le2, read_le4, read_le8};

verus! {

/// `char::from_u32`: the character with that code when the number is a
/// Unicode scalar value, as its documentation promises; `None` otherwise.
#[verifier::external_body]
fn char_from_u32(v: u32) -> (r: Option<char>)
    ensures
        r is Some <==> is_scalar(v),
        r matches Some(c) ==> c as u32 == v,
{
    char::from_u32(v)
}

/// A reader over one frame.
pub struct Deserializer<'de> {
    pub buf: &'de [u8],
    pub bufptr: usize,
}

impl<'de> Deserializer<'de> {
    /// The bytes not read yet.
    pub open spec fn rest(&self) -> Seq<u8> {
        self.buf@.subrange(self.bufptr as int, self.buf@.len() as int)
    }

    /// Holds when at least `n` bytes are left.
    pub open spec fn has(&self, n: int) -> bool {
        self.bufptr <= self.buf@.len() && self.bufptr + n <= self.buf@.len()
    }

    /// Holds when a 32-bit length prefix, and that many bytes after it, are
    /// left.
    pub open spec fn has_prefixed(&self) -> bool {
        &&& self.has(4)
        &&& self.has(4 + from_le4(self.rest()) as int)
    }

    /// The cursor moved forward by `n`, over the same buffer.
    pub open spec fn advanced(&self, old: &Self, n: int) -> bool {
        self.buf@ == old.buf@ && self.bufptr == old.bufptr + n
    }

    pub fn new(buf: &'de [u8]) -> (r: Self)
        ensures
            r.buf@ == buf@,
            r.bufptr == 0,
    {
        Deserializer { buf, bufptr: 0 }
    }

    /// The next byte.
    pub fn next(&mut self) -> (r: u8)
        requires
            old(self).has(1),
        ensures
            final(self).advanced(old(self), 1),
            r == old(self).buf@[old(self).bufptr as int],
    {
        let len = self.buf.len();
        assert(self.bufptr < len);
        self.bufptr = self.bufptr + 1;
        self.buf[self.bufptr - 1]
    }

    /// The next `amount` bytes.
    pub fn slice(&mut self, amount: usize) -> (r: &'de [u8])
        requires
            old(self).has(amount as int),
        ensures
            final(self).advanced(old(self), amount as int),
            r@ == old(self).buf@.subrange(
                old(self).bufptr as int,
                old(self).bufptr + amount,
            ),
    {
        let len = self.buf.len();
        assert(self.bufptr + amount <= len);
        self.bufptr = self.bufptr + amount;
        let sl = &self.buf[(self.bufptr - amount)..self.bufptr];
        sl
    }

    /// A boolean is true exactly when its byte is 1.
    pub fn deserialize_bool(&mut self) -> (r: bool)
        requires
            old(self).has(1),
        ensures
            final(self).advanced(old(self), 1),
            r == (old(self).rest()[0] == 1),
    {
        self.next() == 1
    }

    pub fn deserialize_i8(&mut self) -> (r: i8)
        requires
            old(self).has(1),
        ensures
            final(self).advanced(old(self), 1),
            r == old(self).rest()[0] as i8,
    {
        let s = self.slice(1);
        s[0] as i8
    }

    pub fn deserialize_i16(&mut self) -> (r: i16)
        requires
            old(self).has(2),
        ensures
            final(self).advanced(old(self), 2),
            r == from_le2(old(self).rest()) as i16,
    {
        let s = self.slice(2);
        read_le2(s, 0) as i16
    }

    pub fn deserialize_i32(&mut self) -> (r: i32)
        requires
            old(self).has(4),
        ensures
            final(self).advanced(old(self), 4),
            r == from_le4(old(self).rest()) as i32,
    {
        let s = self.slice(4);
        read_le4(s, 0) as i32
    }

    pub fn deserialize_i64(&mut self) -> (r: i64)
        requires
            old(self).has(8),
        ensures
            final(self).advanced(old(self), 8),
            r == from_le8(old(self).rest()) as i64,
    {
        let s = self.slice(8);
        read_le8(s, 0) as i64
    }

    pub fn deserialize_u8(&mut self) -> (r: u8)
        requires
            old(self).has(1),
        ensures
            final(self).advanced(old(self), 1),
            r == old(self).rest()[0],
    {
        let s = self.slice(1);
        s[0]
    }

    pub fn deserialize_u16(&mut self) -> (r: u16)
        requires
            old(self).has(2),
        ensures
            final(self).advanced(old(self), 2),
            r == from_le2(old(self).rest()),
    {
        let s = self.slice(2);
        read_le2(s, 0)
    }

    pub fn deserialize_u32(&mut self) -> (r: u32)
        requires
            old(self).has(4),
        ensures
            final(self).advanced(old(self), 4),
            r == from_le4(old(self).rest()),
    {
        let s = self.slice(4);
        read_le4(s, 0)
    }

    pub fn deserialize_u64(&mut self) -> (r: u64)
        requires
            old(self).has(8),
        ensures
            final(self).advanced(old(self), 8),
            r == from_le8(old(self).rest()),
    {
        let s = self.slice(8);
        read_le8(s, 0)
    }

    /// The bits of a 32-bit float (`f32::from_bits` gives the float).
    pub fn deserialize_f32(&mut self) -> (r: u32)
        requires
            old(self).has(4),
        ensures
            final(self).advanced(old(self), 4),
            r == from_le4(old(self).rest()),
    {
        let s = self.slice(4);
        read_le4(s, 0)
    }

    /// The bits of a 64-bit float (`f64::from_bits` gives the float).
    pub fn deserialize_f64(&mut self) -> (r: u64)
        requires
            old(self).has(8),
        ensures
            final(self).advanced(old(self), 8),
            r == from_le8(old(self).rest()),
    {
        let s = self.slice(8);
        read_le8(s, 0)
    }

    /// A character is a little-endian 32-bit code; a code that is no Unicode
    /// scalar value is `BadString`.
    pub fn deserialize_char(&mut self) -> (r: Result<char, Error>)
        requires
            old(self).has(4),
        ensures
            final(self).advanced(old(self), 4),
            is_scalar(from_le4(old(self).rest())) ==> (r matches Ok(c) && c as u32 == from_le4(
                old(self).rest(),
            )),
            !is_scalar(from_le4(old(self).rest())) ==> r == Err::<char, Error>(Error::BadString),
    {
        let s = self.slice(4);
        let code = read_le4(s, 0);
        match char_from_u32(code) {
            Some(c) => Ok(c),
            None => Err(Error::BadString),
        }
    }

    /// The bytes behind a 32-bit length prefix.
    pub fn deserialize_byte_buf(&mut self) -> (r: &'de [u8])
        requires
            old(self).has_prefixed(),
        ensures
            final(self).advanced(old(self), 4 + from_le4(old(self).rest())),
            r@ == old(self).rest().subrange(4, 4 + from_le4(old(self).rest())),
    {
        let ghost rest = self.rest();
        let l = self.slice(4);
        let len = read_le4(l, 0);
        proof {
            assert(l@ =~= rest.subrange(0, 4));
        }
        let r = self.slice(len as usize);
        assert(r@ =~= rest.subrange(4, 4 + len));
        r
    }

    /// Text behind a 32-bit length prefix; bytes that are not UTF-8 are
    /// `BadString`.
    pub fn deserialize_str(&mut self) -> (r: Result<&'de str, Error>)
        requires
            old(self).has_prefixed(),
        ensures
            final(self).advanced(old(self), 4 + from_le4(old(self).rest())),
            ({
                let bytes = old(self).rest().subrange(4, 4 + from_le4(old(self).rest()));
                &&& valid_utf8(bytes) ==> (r matches Ok(s) && s@ == decode_utf8(bytes))
                &&& !valid_utf8(bytes) ==> r == Err::<&str, Error>(Error::BadString)
            }),
    {
        let bytes = self.deserialize_byte_buf();
        match str_from_utf8(bytes) {
            Some(s) => Ok(s),
            None => Err(Error::BadString),
        }
    }

    /// The tag of an option: true when a value follows (the tag is 1).
    pub fn deserialize_option(&mut self) -> (r: bool)
        requires
            old(self).has(1),
        ensures
            final(self).advanced(old(self), 1),
            r == (old(self).rest()[0] == 1),
    {
        self.next() == 1
    }

    /// The number of elements of a sequence.
    pub fn deserialize_seq(&mut self) -> (r: usize)
        requires
            old(self).has(4),
        ensures
            final(self).advanced(old(self), 4),
            r == from_le4(old(self).rest()),
    {
        let s = self.slice(4);
        read_le4(s, 0) as usize
    }

    /// The number of key-value pairs of a map.
    pub fn deserialize_map(&mut self) -> (r: usize)
        requires
            old(self).has(4),
        ensures
            final(self).advanced(old(self), 4),
            r == from_le4(old(self).rest()),
    {
        let s = self.slice(4);
        read_le4(s, 0) as usize
    }

    /// An enum variant's index (also how struct field identifiers are read).
    pub fn deserialize_identifier(&mut self) -> (r: u32)
        requires
            old(self).has(4),
        ensures
            final(self).advanced(old(self), 4),
            r == from_le4(old(self).rest()),
    {
        self.deserialize_u32()
    }
}

/// The count of elements left in a sequence, tuple or struct being read.
pub struct SequenceParse {
    pub len: usize,
}

impl SequenceParse {
    /// Whether another element follows; if one does, it is counted off.
    pub fn next_element(&mut self) -> (r: bool)
        ensures
            r == (old(self).len > 0),
            r ==> final(self).len == old(self).len - 1,
            !r ==> final(self).len == old(self).len,
    {
        if self.len == 0 {
            return false;
        }
        self.len -= 1;
        true
    }
}

/// The count of key-value pairs left in a map being read.
pub struct MapParse {
    pub len: usize,
}

impl MapParse {
    /// Whether another key follows; if one does, its pair is counted off.
    pub fn next_key(&mut self) -> (r: bool)
        ensures
            r == (old(self).len > 0),
            r ==> final(self).len == old(self).len - 1,
            !r ==> final(self).len == old(self).len,
    {
        if self.len == 0 {
            return false;
        }
        self.len -= 1;
        true
    }
}

} // verus!
