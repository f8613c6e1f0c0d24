//! The Exosphere byte protocol: a compact little-endian encoding of the serde
//! data model. Integers and floats are written little-endian at their natural
//! width, strings and byte strings and sequences and maps are prefixed with a
//! 32-bit length, enum variants with a 32-bit variant index, options with a
//! one-byte tag; structs and tuples carry no framing, as both sides know the
//! layout.

pub mod wire;
pub mod serializer;
pub mod deserializer;
pub mod frames;
pub mod values;

use vstd::prelude::*;

verus! {

/// What can go wrong while encoding or decoding a frame.
#[derive(Debug, PartialEq, Eq)]
pub enum Error {
    BadInteger,
    BadFloat,
    BadString,
    UnsizedSequence,
    UnsizedMap,
    InvalidType,
    Custom(String),
}

} // verus!
