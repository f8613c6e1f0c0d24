//! The websocket opening handshake's accept key: the SHA-1 digest of the
//! client's key followed by the protocol's fixed GUID, in standard base64.
//! The digest is named (`sha1_digest`); the base64 encoding is stated.
use vstd::prelude::*;
use vstd::string::StringSliceAdditionalSpecFns;

verus! {

/// What `sha1` gives for these bytes (its 20-byte digest).
pub uninterp spec fn sha1_digest(data: Seq<u8>) -> Seq<u8>;

/// The character of a 6-bit group in the standard base64 alphabet:
/// `A`–`Z`, `a`–`z`, `0`–`9`, then `+` and `/`.
pub open spec fn base64_digit(n: u8) -> char {
    if n < 26 {
        (65 + n) as char
    } else if n < 52 {
        (97 + (n - 26)) as char
    } else if n < 62 {
        (48 + (n - 52)) as char
    } else if n == 62 {
        '+'
    } else {
        '/'
    }
}

/// Standard base64 with padding (RFC 4648): every three bytes become four
/// characters, each of six bits, first bits first; a last group of one or two
/// bytes is padded with `=` to four characters.
pub open spec fn base64_standard(d: Seq<u8>) -> Seq<char>
    decreases d.len(),
{
    if d.len() == 0 {
        Seq::empty()
    } else if d.len() == 1 {
        seq![base64_digit(d[0] >> 2), base64_digit((d[0] & 3) << 4), '=', '=']
    } else if d.len() == 2 {
        seq![
            base64_digit(d[0] >> 2),
            base64_digit(((d[0] & 3) << 4) | (d[1] >> 4)),
            base64_digit((d[1] & 15) << 2),
            '=',
        ]
    } else {
        seq![
            base64_digit(d[0] >> 2),
            base64_digit(((d[0] & 3) << 4) | (d[1] >> 4)),
            base64_digit(((d[1] & 15) << 2) | (d[2] >> 6)),
            base64_digit(d[2] & 63),
        ] + base64_standard(d.skip(3))
    }
}

/// `sha1::Sha1::digest` (through `Digest`): the digest of `data`, as named
/// by `sha1_digest`; the output is 20 bytes for SHA-1.
#[verifier::external_body]
fn sha1_of(data: &[u8]) -> (r: Vec<u8>)
    ensures
        r@ == sha1_digest(data@),
        r@.len() == 20,
{
    <sha1::Sha1 as sha1::Digest>::digest(data).to_vec()
}

/// `base64::Engine::encode` on the standard engine (standard alphabet, with
/// padding): the standard base64 of the bytes, `base64_standard`.
#[verifier::external_body]
fn base64_encode(data: &[u8]) -> (r: String)
    ensures
        r@ == base64_standard(data@),
{
    base64::Engine::encode(&base64::prelude::BASE64_STANDARD, data)
}

/// The GUID that RFC 6455 appends to the client's key.
pub open spec fn key_guid() -> Seq<u8> {
    "258EAFA5-E914-47DA-95CA-C5AB0DC85B11".spec_bytes()
}

/// The accept key answered for a client key.
pub open spec fn accept_key(key: Seq<u8>) -> Seq<char> {
    base64_standard(sha1_digest(key + key_guid()))
}

/// Compute the accept key for the bytes of a client key.
pub fn compute_accept_key(key: &[u8]) -> (r: String)
    ensures
        r@ == accept_key(key@),
{
    let guid = "258EAFA5-E914-47DA-95CA-C5AB0DC85B11".as_bytes();
    let mut concatenated: Vec<u8> = Vec::new();
    let mut i: usize = 0;
    while i < key.len()
        invariant
            0 <= i <= key@.len(),
            concatenated@ == key@.subrange(0, i as int),
        decreases key@.len() - i,
    {
        concatenated.push(key[i]);
        i = i + 1;
        assert(concatenated@ =~= key@.subrange(0, i as int));
    }
    let mut j: usize = 0;
    while j < guid.len()
        invariant
            0 <= j <= guid@.len(),
            guid@ == key_guid(),
            concatenated@ == key@ + guid@.subrange(0, j as int),
        decreases guid@.len() - j,
    {
        concatenated.push(guid[j]);
        j = j + 1;
        assert(concatenated@ =~= key@ + guid@.subrange(0, j as int));
    }
    assert(guid@.subrange(0, guid@.len() as int) =~= guid@);
    let digest = sha1_of(concatenated.as_slice());
    base64_encode(digest.as_slice())
}

} // verus!
