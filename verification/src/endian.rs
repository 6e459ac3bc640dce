//! Big-endian integers, the byte order of every multi-byte field on the wire.

use vstd::prelude::*;
use byteorder::{BigEndian, ByteOrder};

verus! {

/// The number that `bytes` writes in big-endian order: the first byte is the
/// most significant.
pub open spec fn be_value(bytes: Seq<u8>) -> nat
    decreases bytes.len(),
{
    if bytes.len() == 0 {
        0
    } else {
        be_value(bytes.drop_last()) * 256 + bytes.last() as nat
    }
}

/// The `width` bytes that write `n` in big-endian order (the low `width`
/// bytes of `n`, where it does not fit).
pub open spec fn be_bytes(n: nat, width: nat) -> Seq<u8>
    decreases width,
{
    if width == 0 {
        Seq::<u8>::empty()
    } else {
        be_bytes(n / 256, (width - 1) as nat).push((n % 256) as u8)
    }
}

/// 256 to the power `width`: the number of values that `width` bytes can hold.
pub open spec fn byte_range(width: nat) -> nat
    decreases width,
{
    if width == 0 {
        1
    } else {
        256 * byte_range((width - 1) as nat)
    }
}

/// Two bytes hold the values below 65536.
pub proof fn lemma_byte_range_2()
    ensures
        byte_range(2) == 0x1_0000,
{
    reveal_with_fuel(byte_range, 3);
}

/// Eight bytes hold the values below 2^64.
pub proof fn lemma_byte_range_8()
    ensures
        byte_range(8) == 0x1_0000_0000_0000_0000,
{
    reveal_with_fuel(byte_range, 9);
}

/// `be_bytes` gives exactly `width` bytes.
pub proof fn lemma_be_bytes_len(n: nat, width: nat)
    ensures
        be_bytes(n, width).len() == width,
    decreases width,
{
    if width > 0 {
        lemma_be_bytes_len(n / 256, (width - 1) as nat);
    }
}

/// A big-endian byte string of `k` bytes writes a number below 256^k.
pub proof fn lemma_be_value_bound(bytes: Seq<u8>)
    ensures
        be_value(bytes) < byte_range(bytes.len()),
    decreases bytes.len(),
{
    if bytes.len() > 0 {
        lemma_be_value_bound(bytes.drop_last());
    }
}

/// Reading back what was written gives the number, where it fits the width.
pub proof fn lemma_be_value_of_bytes(n: nat, width: nat)
    requires
        n < byte_range(width),
    ensures
        be_value(be_bytes(n, width)) == n,
    decreases width,
{
    if width > 0 {
        let rest = be_bytes(n / 256, (width - 1) as nat);
        lemma_be_value_of_bytes(n / 256, (width - 1) as nat);
        assert(rest.push((n % 256) as u8).drop_last() =~= rest);
    }
}

/// Writing back what was read gives the bytes.
pub proof fn lemma_be_bytes_of_value(bytes: Seq<u8>)
    ensures
        be_bytes(be_value(bytes), bytes.len()) == bytes,
    decreases bytes.len(),
{
    if bytes.len() > 0 {
        lemma_be_bytes_of_value(bytes.drop_last());
        assert(bytes.drop_last().push(bytes.last()) =~= bytes);
    }
}

/// `byteorder::BigEndian::read_u16`: the big-endian value of the first two
/// bytes of `buf`. It panics on a shorter buffer, which `requires` excludes.
#[verifier::external_body]
pub(crate) fn read_u16_be(buf: &[u8]) -> (n: u16)
    requires
        buf@.len() >= 2,
    ensures
        n as nat == be_value(buf@.subrange(0, 2)),
{
    BigEndian::read_u16(buf)
}

/// `byteorder::BigEndian::read_u64`: the big-endian value of the first eight
/// bytes of `buf`. It panics on a shorter buffer, which `requires` excludes.
#[verifier::external_body]
pub(crate) fn read_u64_be(buf: &[u8]) -> (n: u64)
    requires
        buf@.len() >= 8,
    ensures
        n as nat == be_value(buf@.subrange(0, 8)),
{
    BigEndian::read_u64(buf)
}

/// `byteorder::BigEndian::write_u16` into a buffer of two bytes: the two
/// bytes of `n`, most significant first.
#[verifier::external_body]
pub(crate) fn write_u16_be(n: u16) -> (out: [u8; 2])
    ensures
        out@ == be_bytes(n as nat, 2),
{
    let mut out = [0u8; 2];
    BigEndian::write_u16(&mut out, n);
    out
}

/// `byteorder::BigEndian::write_u64` into a buffer of eight bytes: the eight
/// bytes of `n`, most significant first.
#[verifier::external_body]
pub(crate) fn write_u64_be(n: u64) -> (out: [u8; 8])
    ensures
        out@ == be_bytes(n as nat, 8),
{
    let mut out = [0u8; 8];
    BigEndian::write_u64(&mut out, n);
    out
}

} // verus!
