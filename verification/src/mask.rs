//! Payload masking: each payload byte is XOR-ed with one byte of a four-byte key.

use vstd::prelude::*;

verus! {

/// The payload with byte `i` XOR-ed with byte `i mod 4` of the key.
pub open spec fn mask_bytes(payload: Seq<u8>, key: Seq<u8>) -> Seq<u8>
    recommends
        key.len() == 4,
{
    Seq::new(payload.len(), |i: int| payload[i] ^ key[i % 4])
}

/// XOR-ing a byte twice with the same key byte gives the byte back.
pub proof fn lemma_xor_twice(byte: u8, key: u8)
    ensures
        (byte ^ key) ^ key == byte,
{
    assert((byte ^ key) ^ key == byte) by (bit_vector);
}

/// Masking is its own inverse: for every payload and every key, removing the
/// mask from a masked payload with the same key gives the payload back.
pub proof fn lemma_mask_involution(payload: Seq<u8>, key: Seq<u8>)
    requires
        key.len() == 4,
    ensures
        mask_bytes(mask_bytes(payload, key), key) == payload,
{
    let once = mask_bytes(payload, key);
    let twice = mask_bytes(once, key);
    assert forall|i: int| 0 <= i < payload.len() implies twice[i] == payload[i] by {
        lemma_xor_twice(payload[i], key[i % 4]);
    }
    assert(twice =~= payload);
}

/// `rand::random`: one byte from the thread-local generator. Nothing is
/// claimed of it: every value may come back.
#[verifier::external_body]
pub(crate) fn random_byte() -> (byte: u8) {
    rand::random::<u8>()
}

/// A fresh random key for one outgoing frame. Any four bytes may come back.
pub fn gen_mask() -> (key: [u8; 4])
    ensures
        key@.len() == 4,
{
    [random_byte(), random_byte(), random_byte(), random_byte()]
}

/// Applies the mask `key` to `data`.
pub fn mask_data(key: [u8; 4], data: &[u8]) -> (out: Vec<u8>)
    ensures
        out@ == mask_bytes(data@, key@),
{
    let mut out: Vec<u8> = Vec::with_capacity(data.len());
    let mut i: usize = 0;
    while i < data.len()
        invariant
            i <= data.len(),
            out@ == mask_bytes(data@.subrange(0, i as int), key@),
        decreases data.len() - i,
    {
        out.push(data[i] ^ key[i % 4]);
        i = i + 1;
        assert(out@ =~= mask_bytes(data@.subrange(0, i as int), key@));
    }
    assert(data@.subrange(0, i as int) =~= data@);
    out
}

/// Removes the mask `key` from `data`; the same XOR as `mask_data`, so that
/// `unmask_data(key, mask_data(key, p))` is `p`.
pub fn unmask_data(key: [u8; 4], data: &[u8]) -> (out: Vec<u8>)
    ensures
        out@ == mask_bytes(data@, key@),
        mask_bytes(out@, key@) == data@,
{
    let out = mask_data(key, data);
    proof {
        lemma_mask_involution(data@, key@);
    }
    out
}

} // verus!
