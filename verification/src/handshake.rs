//! The handshake key that a client sends, and the value that the server has
//! to answer it with.

use vstd::prelude::*;
use vstd::slice::slice_to_vec;
use vstd::utf8::encode_utf8;
use crate::frame::append_bytes;
use crate::mask::random_byte;
use crate::text::{lemma_utf8_len, same_text};

verus! {

/// The fixed identifier that the protocol appends to the key before the
/// digest is taken.
pub const MAGIC_GUID: &'static str = "258EAFA5-E914-47DA-95CA-C5AB0DC85B11";

/// The SHA-1 digest of `data`, as the crate `sha1` computes it.
pub uninterp spec fn sha1_digest(data: Seq<u8>) -> Seq<u8>;

/// The standard base64 text of `data`, with padding, as the crate `base64`
/// writes it.
pub uninterp spec fn base64_text(data: Seq<u8>) -> Seq<char>;

/// The bytes that the digest is taken of, for a key whose base64 text is
/// `key`: the text followed by the fixed identifier.
pub open spec fn accept_input_spec(key: Seq<char>) -> Seq<u8> {
    encode_utf8(key) + encode_utf8(MAGIC_GUID@)
}

/// The digest that answers a key: of the key's base64 text followed by the
/// fixed identifier.
pub open spec fn accept_digest(key: Seq<u8>) -> Seq<u8> {
    sha1_digest(accept_input_spec(base64_text(key)))
}

/// The header value that answers a key: the base64 text of its digest.
pub open spec fn accept_text(key: Seq<u8>) -> Seq<char> {
    base64_text(accept_digest(key))
}

/// `sha1::Sha1::from(data).digest().bytes()`: the twenty bytes of the SHA-1
/// digest of `data`. The digest depends on `data` alone. The crate counts
/// the bits of `data` in 64 bits; `requires` leaves out what has more.
#[verifier::external_body]
fn sha1_of(data: &[u8]) -> (digest: [u8; 20])
    requires
        data@.len() < 0x2000_0000_0000_0000,
    ensures
        digest@ == sha1_digest(data@),
{
    sha1::Sha1::from(data).digest().bytes()
}

/// `base64::encode`: the standard base64 text of `data`. The text depends
/// on `data` alone, and takes four bytes for every three bytes of `data`,
/// the last group padded. The crate panics where that size does not fit;
/// `requires` leaves such data out.
#[verifier::external_body]
fn base64_of(data: &[u8]) -> (text: String)
    requires
        data@.len() <= 0x1000_0000,
    ensures
        text@ == base64_text(data@),
        encode_utf8(text@).len() == 4 * ((data@.len() + 2) / 3),
{
    base64::encode(data)
}

/// The key of one connection attempt: sixteen bytes, sent as base64.
#[derive(Clone, Copy, Debug, PartialEq, Eq)]
pub struct HandshakeKey {
    bytes: [u8; 16],
}

impl View for HandshakeKey {
    type V = Seq<u8>;

    closed spec fn view(&self) -> Seq<u8> {
        self.bytes@
    }
}

impl HandshakeKey {
    /// The key of the given bytes.
    pub fn new(bytes: [u8; 16]) -> (key: HandshakeKey)
        ensures
            key@ == bytes@,
    {
        HandshakeKey { bytes }
    }

    /// The sixteen bytes of the key.
    pub fn bytes(&self) -> (bytes: [u8; 16])
        ensures
            bytes@ == self@,
    {
        self.bytes
    }

    /// A key has sixteen bytes.
    pub proof fn lemma_len(&self)
        ensures
            self@.len() == 16,
    {
    }

    /// The key as it is sent: in base64, which takes 24 bytes.
    pub fn serialize(&self) -> (text: String)
        ensures
            text@ == base64_text(self@),
            encode_utf8(text@).len() == 24,
    {
        base64_of(self.bytes.as_slice())
    }
}

/// A fresh random key. Any sixteen bytes may come back.
pub fn generate_key() -> (key: HandshakeKey)
    ensures
        key@.len() == 16,
{
    let mut bytes: [u8; 16] = [0u8; 16];
    let mut i: usize = 0;
    while i < 16
        invariant
            i <= 16,
        decreases 16 - i,
    {
        bytes[i] = random_byte();
        i = i + 1;
    }
    HandshakeKey { bytes }
}

/// The value that the server has to answer a key with.
#[derive(Clone, Copy, Debug, PartialEq, Eq)]
pub struct ExpectedAccept {
    digest: [u8; 20],
}

impl View for ExpectedAccept {
    type V = Seq<u8>;

    closed spec fn view(&self) -> Seq<u8> {
        self.digest@
    }
}

impl ExpectedAccept {
    /// The twenty bytes of the digest.
    pub fn digest(&self) -> (digest: [u8; 20])
        ensures
            digest@ == self@,
    {
        self.digest
    }

    /// The value as the server sends it: in base64, which takes 28 bytes.
    pub fn serialize(&self) -> (text: String)
        ensures
            text@ == base64_text(self@),
            encode_utf8(text@).len() == 28,
    {
        base64_of(self.digest.as_slice())
    }

    /// Whether `header` is this value, byte for byte.
    pub fn matches(&self, header: &str) -> (same: bool)
        ensures
            same == (header@ == base64_text(self@)),
    {
        let text = self.serialize();
        same_text(header, text.as_str())
    }
}

/// The bytes that the digest is taken of, for a key whose base64 text is
/// `key`.
pub fn accept_input(key: &str) -> (data: Vec<u8>)
    ensures
        data@ == accept_input_spec(key@),
{
    let mut data: Vec<u8> = slice_to_vec(key.as_bytes());
    append_bytes(&mut data, MAGIC_GUID.as_bytes());
    data
}

/// The value that answers `key`. It is a function of the key: the same key
/// gives the same value, call after call.
pub fn expected_accept(key: &HandshakeKey) -> (accept: ExpectedAccept)
    ensures
        accept@ == accept_digest(key@),
{
    let text = key.serialize();
    let data = accept_input(text.as_str());
    proof {
        reveal_strlit("258EAFA5-E914-47DA-95CA-C5AB0DC85B11");
        lemma_utf8_len(MAGIC_GUID@);
    }
    ExpectedAccept { digest: sha1_of(data.as_slice()) }
}

} // verus!
