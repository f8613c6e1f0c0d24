//! A minimal websocket endpoint: the HTTP upgrade request it accepts, the
//! frames it reads, and the headers of the frames it writes. The sockets
//! themselves are driven by the program around the library; here is what a
//! connection does with the bytes it has received.
use vstd::prelude::*;
use vstd::string::StringSliceAdditionalSpecFns;
use crate::ids::ClientId;
use crate::ring::{ByteRing, ring_contents, ring_capacity};
use crate::text::{is_ascii_ws, ascii_whitespace, bytes_eq, str_from_utf8};
use crate::handshake::{accept_key, compute_accept_key};
use vstd::utf8::valid_utf8;

verus! {

/// `s..=e` is where `bytes` is left after trimming ASCII whitespace from both
/// ends: `s` is its first non-whitespace byte, `e` its last.
pub open spec fn is_trim_of(bytes: Seq<u8>, s: int, e: int) -> bool {
    &&& 0 <= s <= e < bytes.len()
    &&& !is_ascii_ws(bytes[s])
    &&& !is_ascii_ws(bytes[e])
    &&& forall|j: int| 0 <= j < s ==> is_ascii_ws(#[trigger] bytes[j])
    &&& forall|j: int| e < j < bytes.len() ==> is_ascii_ws(#[trigger] bytes[j])
}

/// Holds when some byte is not whitespace.
pub open spec fn has_non_ws(bytes: Seq<u8>) -> bool {
    exists|i: int| 0 <= i < bytes.len() && !is_ascii_ws(#[trigger] bytes[i])
}

/// The bytes with ASCII whitespace trimmed from both ends.
pub open spec fn trimmed(bytes: Seq<u8>) -> Seq<u8> {
    let (s, e) = choose|s: int, e: int| is_trim_of(bytes, s, e);
    bytes.subrange(s, e + 1)
}

/// There is only one way to trim.
pub proof fn lemma_trim_unique(bytes: Seq<u8>, s: int, e: int)
    requires
        is_trim_of(bytes, s, e),
    ensures
        trimmed(bytes) == bytes.subrange(s, e + 1),
{
    let (s2, e2) = choose|s2: int, e2: int| is_trim_of(bytes, s2, e2);
    assert(is_trim_of(bytes, s2, e2));
    if s2 < s {
        assert(is_ascii_ws(bytes[s2]));
    }
    if s < s2 {
        assert(is_ascii_ws(bytes[s]));
    }
    if e2 < e {
        assert(is_ascii_ws(bytes[e]));
    }
    if e < e2 {
        assert(is_ascii_ws(bytes[e2]));
    }
}

/// Trim ASCII whitespace from both ends. The bytes must hold something that
/// is not whitespace.
pub fn byte_trim(bytes: &[u8]) -> (r: &[u8])
    requires
        has_non_ws(bytes@),
    ensures
        r@ == trimmed(bytes@),
{
    let mut start_index: usize = 0;
    let mut end_index: usize = bytes.len() - 1;
    while ascii_whitespace(bytes[start_index])
        invariant
            has_non_ws(bytes@),
            0 <= start_index < bytes@.len(),
            end_index == bytes@.len() - 1,
            forall|j: int| 0 <= j < start_index ==> is_ascii_ws(#[trigger] bytes@[j]),
        decreases bytes@.len() - start_index,
    {
        proof {
            if start_index + 1 == bytes@.len() {
                let w = choose|i: int| 0 <= i < bytes@.len() && !is_ascii_ws(#[trigger] bytes@[i]);
                assert(is_ascii_ws(bytes@[w]));
            }
        }
        start_index += 1;
    }
    while ascii_whitespace(bytes[end_index])
        invariant
            0 <= start_index <= end_index < bytes@.len(),
            !is_ascii_ws(bytes@[start_index as int]),
            forall|j: int| 0 <= j < start_index ==> is_ascii_ws(#[trigger] bytes@[j]),
            forall|j: int| end_index < j < bytes@.len() ==> is_ascii_ws(#[trigger] bytes@[j]),
        ensures
            0 <= start_index <= end_index < bytes@.len(),
            !is_ascii_ws(bytes@[end_index as int]),
            forall|j: int| 0 <= j < start_index ==> is_ascii_ws(#[trigger] bytes@[j]),
            forall|j: int| end_index < j < bytes@.len() ==> is_ascii_ws(#[trigger] bytes@[j]),
        decreases end_index,
    {
        if end_index == start_index {
            break;
        }
        end_index -= 1;
    }
    proof {
        lemma_trim_unique(bytes@, start_index as int, end_index as int);
    }
    &bytes[start_index..(end_index + 1)]
}

/// What the upgrade request has shown so far.
pub struct HttpUpgradeChecklist {
    pub connection_upgrade: bool,
    /// If either flag is false, or there is no accept key, the request is
    /// refused.
    pub upgrade_websocket: bool,
    pub websocket_accept: Option<String>,
}

impl HttpUpgradeChecklist {
    /// The request may be upgraded: both headers were seen, and a key.
    pub fn will_upgrade(&self) -> (r: bool)
        ensures
            r == (self.websocket_accept is Some && self.connection_upgrade
                && self.upgrade_websocket),
    {
        if let Some(_) = self.websocket_accept {
            if self.connection_upgrade && self.upgrade_websocket {
                return true;
            }
        }
        false
    }

    /// Nothing seen yet.
    pub fn default() -> (r: Self)
        ensures
            !r.connection_upgrade,
            !r.upgrade_websocket,
            r.websocket_accept is None,
    {
        Self { connection_upgrade: false, upgrade_websocket: false, websocket_accept: None }
    }
}

/// The header of the frame being read.
#[derive(Copy, Clone, Debug)]
pub struct WebsocketFrameBuilder {
    pub fin: bool,
    pub rsv: u8,
    pub opcode: u8,
    pub mask: bool,
    /// The 7-bit length field: the length itself, or 126 or 127 for an
    /// extended length.
    pub len: u8,
    pub ext_len: Option<usize>,
    pub mask_key: Option<[u8; 4]>,
}

/// The payload length a frame header gives: the extended length when one was
/// read, else the 7-bit field.
pub open spec fn frame_length(f: WebsocketFrameBuilder) -> usize {
    match f.ext_len {
        Some(len) => len,
        None => f.len as usize,
    }
}

/// The header of a new frame after its first two bytes: the fields they
/// carry, with no extended length and no masking key yet (those follow only
/// when the 7-bit length is 126 or 127, and when the mask bit is set).
pub open spec fn with_first_two(b0: u8, b1: u8) -> WebsocketFrameBuilder {
    WebsocketFrameBuilder {
        fin: (b0 & 0x80) >> 7 == 1,
        rsv: (b0 & 0x70) >> 4,
        opcode: b0 & 0x0F,
        mask: (b1 & 0x80) >> 7 == 1,
        len: b1 & 0x7F,
        ext_len: None,
        mask_key: None,
    }
}

impl WebsocketFrameBuilder {
    /// No header read.
    pub open spec fn spec_default() -> WebsocketFrameBuilder {
        WebsocketFrameBuilder {
            fin: false,
            rsv: 0,
            opcode: 0,
            mask: false,
            len: 0,
            ext_len: None,
            mask_key: None,
        }
    }

    pub fn length(&self) -> (r: usize)
        ensures
            r == frame_length(*self),
    {
        match self.ext_len {
            Some(len) => len,
            None => self.len as usize,
        }
    }

    /// No header read.
    pub fn default() -> (r: Self)
        ensures
            r == Self::spec_default(),
    {
        Self {
            fin: false,
            rsv: 0,
            opcode: 0,
            mask: false,
            len: 0,
            ext_len: None,
            mask_key: None,
        }
    }

    /// Start a new frame from its first two bytes, dropping the extended
    /// length and the masking key of the frame before.
    pub fn read_first_two(&mut self, b0: u8, b1: u8)
        ensures
            *final(self) == with_first_two(b0, b1),
    {
        self.ext_len = None;
        self.mask_key = None;
        self.fin = (b0 & 0b1000_0000) >> 7 == 1;
        self.rsv = (b0 & 0b0111_0000) >> 4;
        self.opcode = b0 & 0b0000_1111;
        self.mask = (b1 & 0b1000_0000) >> 7 == 1;
        self.len = b1 & 0b0111_1111;
    }
}

/// Big-endian 16-bit value of the first two bytes.
pub open spec fn from_be2(s: Seq<u8>) -> u16 {
    ((s[0] as u16) << 8) | (s[1] as u16)
}

/// Big-endian 64-bit value of the first eight bytes.
pub open spec fn from_be8(s: Seq<u8>) -> u64 {
    ((s[0] as u64) << 56) | ((s[1] as u64) << 48) | ((s[2] as u64) << 40) | ((s[3] as u64) << 32)
        | ((s[4] as u64) << 24) | ((s[5] as u64) << 16) | ((s[6] as u64) << 8) | (s[7] as u64)
}

/// Big-endian bytes of a 16-bit value.
pub open spec fn be2(x: u16) -> Seq<u8> {
    seq![((x >> 8) & 0xff) as u8, (x & 0xff) as u8]
}

/// Big-endian bytes of a 64-bit value.
pub open spec fn be8(x: u64) -> Seq<u8> {
    seq![
        ((x >> 56) & 0xff) as u8,
        ((x >> 48) & 0xff) as u8,
        ((x >> 40) & 0xff) as u8,
        ((x >> 32) & 0xff) as u8,
        ((x >> 24) & 0xff) as u8,
        ((x >> 16) & 0xff) as u8,
        ((x >> 8) & 0xff) as u8,
        (x & 0xff) as u8,
    ]
}

/// The header written before an outgoing binary message of `length` bytes:
/// a final binary frame, then the length in the 7-bit field up to 125; else
/// the marker 126 and the length in two big-endian bytes up to 65535; else
/// the marker 127 and the length in eight big-endian bytes.
pub open spec fn header_for(length: usize) -> Seq<u8> {
    if length <= 125 {
        seq![0x82u8, length as u8]
    } else if length <= 65535 {
        seq![0x82u8, 126u8] + be2(length as u16)
    } else {
        seq![0x82u8, 127u8] + be8(length as u64)
    }
}

/// Every header reads back as the frame layout has it: a final, unmasked
/// binary frame whose 7-bit field holds a length up to 125, else the marker
/// 126 followed by the length in two big-endian bytes up to 65535, else the
/// marker 127 followed by the length in eight big-endian bytes.
pub proof fn law_header_reads_back(length: usize)
    ensures
        ({
            let h = header_for(length);
            let g = with_first_two(h[0], h[1]);
            &&& g.fin
            &&& g.rsv == 0
            &&& g.opcode == 2
            &&& !g.mask
            &&& length <= 125 ==> h.len() == 2 && g.len == length
            &&& 126 <= length <= 65535 ==> h.len() == 4 && g.len == 126 && from_be2(h.skip(2))
                == length
            &&& length > 65535 ==> h.len() == 10 && g.len == 127 && from_be8(h.skip(2)) == length
        }),
{
    assert((0x82u8 & 0x80) >> 7 == 1 && (0x82u8 & 0x70) >> 4 == 0 && 0x82u8 & 0x0F == 2) by (bit_vector);
    let h = header_for(length);
    if length <= 125 {
        let b1 = length as u8;
        assert(b1 <= 125 ==> (b1 & 0x80) >> 7 == 0 && b1 & 0x7F == b1) by (bit_vector);
    } else if length <= 65535 {
        assert((126u8 & 0x80) >> 7 == 0 && 126u8 & 0x7F == 126) by (bit_vector);
        let x = length as u16;
        lemma_be2_roundtrip(x);
        assert(h.skip(2) =~= be2(x));
    } else {
        assert((127u8 & 0x80) >> 7 == 0 && 127u8 & 0x7F == 127) by (bit_vector);
        let x = length as u64;
        lemma_be8_roundtrip(x);
        assert(h.skip(2) =~= be8(x));
    }
}

/// Big-endian bytes read back as the 16-bit value they were made from.
pub proof fn lemma_be2_roundtrip(x: u16)
    ensures
        from_be2(be2(x)) == x,
{
    let a = ((x >> 8) & 0xff) as u8;
    let b = (x & 0xff) as u8;
    assert(((a as u16) << 8) | (b as u16) == x) by (bit_vector)
        requires
            a == ((x >> 8) & 0xff) as u8,
            b == (x & 0xff) as u8,
    ;
}

/// Big-endian bytes read back as the 64-bit value they were made from.
pub proof fn lemma_be8_roundtrip(x: u64)
    ensures
        from_be8(be8(x)) == x,
{
    let b0 = ((x >> 56) & 0xff) as u8;
    let b1 = ((x >> 48) & 0xff) as u8;
    let b2 = ((x >> 40) & 0xff) as u8;
    let b3 = ((x >> 32) & 0xff) as u8;
    let b4 = ((x >> 24) & 0xff) as u8;
    let b5 = ((x >> 16) & 0xff) as u8;
    let b6 = ((x >> 8) & 0xff) as u8;
    let b7 = (x & 0xff) as u8;
    assert(((b0 as u64) << 56) | ((b1 as u64) << 48) | ((b2 as u64) << 40) | ((b3 as u64) << 32)
        | ((b4 as u64) << 24) | ((b5 as u64) << 16) | ((b6 as u64) << 8) | (b7 as u64) == x)
        by (bit_vector)
        requires
            b0 == ((x >> 56) & 0xff) as u8,
            b1 == ((x >> 48) & 0xff) as u8,
            b2 == ((x >> 40) & 0xff) as u8,
            b3 == ((x >> 32) & 0xff) as u8,
            b4 == ((x >> 24) & 0xff) as u8,
            b5 == ((x >> 16) & 0xff) as u8,
            b6 == ((x >> 8) & 0xff) as u8,
            b7 == (x & 0xff) as u8,
    ;
}

/// The header of an outgoing binary message; see `header_for`.
pub fn make_header(length: usize) -> (r: Vec<u8>)
    ensures
        r@ == header_for(length),
{
    let mut header: Vec<u8> = Vec::with_capacity(10);
    header.push(0b1000_0010);
    if length <= 125 {
        header.push(length as u8);
    } else if length <= 65535 {
        header.push(126);
        let l = length as u16;
        header.push(((l >> 8) & 0xff) as u8);
        header.push((l & 0xff) as u8);
    } else {
        header.push(127);
        let l = length as u64;
        header.push(((l >> 56) & 0xff) as u8);
        header.push(((l >> 48) & 0xff) as u8);
        header.push(((l >> 40) & 0xff) as u8);
        header.push(((l >> 32) & 0xff) as u8);
        header.push(((l >> 24) & 0xff) as u8);
        header.push(((l >> 16) & 0xff) as u8);
        header.push(((l >> 8) & 0xff) as u8);
        header.push((l & 0xff) as u8);
    }
    assert(header@ =~= header_for(length));
    header
}

/// Where a connection is in reading the upgrade request, then frames.
#[derive(PartialEq, Eq, Structural, Copy, Clone, Debug)]
pub enum ClientControlState {
    HttpFirstLine,
    HttpHeaderName,
    HttpHeaderValue,
    /// Checks that the first byte of a header name is not whitespace; if it
    /// is, this is the empty line that ends the request.
    HttpHeaderNameStartCheckShim,
    WebSocketFirstTwo,
    WebSocketExtLength,
    WebSocketMasking,
    WebSocketPayload,
}

/// An event of the server's websocket API.
pub enum Event<Message> {
    ClientConnected(ClientId),
    ClientDisconnected(ClientId),
    MessageReceived(ClientId, Message),
}

} // verus!
