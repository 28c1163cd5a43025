//! Big-endian 32-bit words, the integer encoding of both framings.

use vstd::prelude::*;

verus! {

/// The value of four bytes read as a big-endian word.
pub open spec fn be32(bytes: Seq<u8>) -> u32
    recommends
        bytes.len() == 4,
{
    (bytes[0] as int * 0x100_0000 + bytes[1] as int * 0x1_0000 + bytes[2] as int * 0x100
        + bytes[3] as int) as u32
}

/// The four bytes of a word, most significant first.
pub open spec fn be32_bytes(value: u32) -> Seq<u8> {
    seq![
        (value / 0x100_0000) as u8,
        (value / 0x1_0000 % 0x100) as u8,
        (value / 0x100 % 0x100) as u8,
        (value % 0x100) as u8,
    ]
}

/// Decoding undoes encoding.
pub proof fn lemma_be32_of_bytes(value: u32)
    ensures
        be32_bytes(value).len() == 4,
        be32(be32_bytes(value)) == value,
{
}

/// Encoding undoes decoding.
pub proof fn lemma_bytes_of_be32(bytes: Seq<u8>)
    requires
        bytes.len() == 4,
    ensures
        be32_bytes(be32(bytes)) == bytes,
{
    let a = bytes[0] as int;
    let b = bytes[1] as int;
    let c = bytes[2] as int;
    let d = bytes[3] as int;
    let low = c * 0x100 + d;
    let mid = b * 0x1_0000 + low;
    let value = a * 0x100_0000 + mid;
    assert(0 <= low < 0x1_0000);
    assert(0 <= mid < 0x100_0000);
    assert(value == be32(bytes));
    assert(value % 0x100 == d);
    assert(value / 0x100 == a * 0x1_0000 + b * 0x100 + c);
    assert(value / 0x100 % 0x100 == c);
    assert(value / 0x1_0000 == a * 0x100 + b);
    assert(value / 0x1_0000 % 0x100 == b);
    assert(value / 0x100_0000 == a);
    assert(be32_bytes(be32(bytes)) =~= bytes);
}

/// Reads a big-endian word.
pub fn u32_from_be(bytes: &[u8; 4]) -> (value: u32)
    ensures
        value == be32(bytes@),
{
    let b0: u32 = bytes[0] as u32;
    let b1: u32 = bytes[1] as u32;
    let b2: u32 = bytes[2] as u32;
    let b3: u32 = bytes[3] as u32;
    b0 * 0x100_0000 + b1 * 0x1_0000 + b2 * 0x100 + b3
}

/// Writes a word as four bytes, most significant first.
pub fn u32_to_be(value: u32) -> (bytes: [u8; 4])
    ensures
        bytes@ == be32_bytes(value),
{
    let bytes: [u8; 4] = [
        (value / 0x100_0000) as u8,
        (value / 0x1_0000 % 0x100) as u8,
        (value / 0x100 % 0x100) as u8,
        (value % 0x100) as u8,
    ];
    assert(bytes@ =~= be32_bytes(value));
    bytes
}

} // verus!
