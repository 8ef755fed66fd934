//! Big-endian decoding of fixed-width unsigned integers from byte spans.

use vstd::prelude::*;

verus! {

/// The integer denoted by the first four bytes of `s`, most significant
/// byte first.
pub open spec fn be_u32_of(s: Seq<u8>) -> u32
    recommends
        s.len() >= 4,
{
    ((s[0] as int) * 0x100_0000 + (s[1] as int) * 0x1_0000 + (s[2] as int) * 0x100 + (
    s[3] as int)) as u32
}

/// The integer denoted by the first eight bytes of `s`, most significant
/// byte first.
pub open spec fn be_u64_of(s: Seq<u8>) -> u64
    recommends
        s.len() >= 8,
{
    ((s[0] as int) * 0x100_0000_0000_0000 + (s[1] as int) * 0x1_0000_0000_0000 + (
    s[2] as int) * 0x100_0000_0000 + (s[3] as int) * 0x1_0000_0000 + (s[4] as int) * 0x100_0000 + (
    s[5] as int) * 0x1_0000 + (s[6] as int) * 0x100 + (s[7] as int)) as u64
}

/// Reads a big-endian `u32` from the first four bytes of `bytes`; fails,
/// without panicking, when fewer than four bytes are present.
pub fn u32_from_be_byte_slice(bytes: &[u8]) -> (r: Option<u32>)
    ensures
        bytes@.len() < 4 ==> r is None,
        bytes@.len() >= 4 ==> r == Some(be_u32_of(bytes@)),
{
    if bytes.len() < 4 {
        return None;
    }
    let b0 = *vstd::slice::slice_index_get(bytes, 0) as u32;
    let b1 = *vstd::slice::slice_index_get(bytes, 1) as u32;
    let b2 = *vstd::slice::slice_index_get(bytes, 2) as u32;
    let b3 = *vstd::slice::slice_index_get(bytes, 3) as u32;
    Some(b0 * 0x100_0000 + b1 * 0x1_0000 + b2 * 0x100 + b3)
}

/// Reads a big-endian `u64` from the first eight bytes of `bytes`; fails,
/// without panicking, when fewer than eight bytes are present.
pub fn u64_from_be_byte_slice(bytes: &[u8]) -> (r: Option<u64>)
    ensures
        bytes@.len() < 8 ==> r is None,
        bytes@.len() >= 8 ==> r == Some(be_u64_of(bytes@)),
{
    if bytes.len() < 8 {
        return None;
    }
    let b0 = *vstd::slice::slice_index_get(bytes, 0) as u64;
    let b1 = *vstd::slice::slice_index_get(bytes, 1) as u64;
    let b2 = *vstd::slice::slice_index_get(bytes, 2) as u64;
    let b3 = *vstd::slice::slice_index_get(bytes, 3) as u64;
    let b4 = *vstd::slice::slice_index_get(bytes, 4) as u64;
    let b5 = *vstd::slice::slice_index_get(bytes, 5) as u64;
    let b6 = *vstd::slice::slice_index_get(bytes, 6) as u64;
    let b7 = *vstd::slice::slice_index_get(bytes, 7) as u64;
    Some(
        b0 * 0x100_0000_0000_0000 + b1 * 0x1_0000_0000_0000 + b2 * 0x100_0000_0000 + b3
            * 0x1_0000_0000 + b4 * 0x100_0000 + b5 * 0x1_0000 + b6 * 0x100 + b7,
    )
}

/// The four-byte big-endian encoding of `v`, most significant byte first.
pub open spec fn be_u32_bytes(v: u32) -> Seq<u8> {
    seq![
        ((v >> 24) & 0xff) as u8,
        ((v >> 16) & 0xff) as u8,
        ((v >> 8) & 0xff) as u8,
        (v & 0xff) as u8,
    ]
}

/// The eight-byte big-endian encoding of `v`, most significant byte first.
pub open spec fn be_u64_bytes(v: u64) -> Seq<u8> {
    seq![
        ((v >> 56) & 0xff) as u8,
        ((v >> 48) & 0xff) as u8,
        ((v >> 40) & 0xff) as u8,
        ((v >> 32) & 0xff) as u8,
        ((v >> 24) & 0xff) as u8,
        ((v >> 16) & 0xff) as u8,
        ((v >> 8) & 0xff) as u8,
        (v & 0xff) as u8,
    ]
}

/// Round trip: decoding the four-byte big-endian encoding of `v` yields
/// exactly `v`.
pub proof fn lemma_be_u32_round_trip(v: u32)
    ensures
        be_u32_bytes(v).len() == 4,
        be_u32_of(be_u32_bytes(v)) == v,
{
    assert((v >> 24) & 0xff < 0x100) by (bit_vector);
    assert((v >> 16) & 0xff < 0x100) by (bit_vector);
    assert((v >> 8) & 0xff < 0x100) by (bit_vector);
    assert(v & 0xff < 0x100) by (bit_vector);
    assert(((v >> 24) & 0xff) * 0x100_0000 + ((v >> 16) & 0xff) * 0x1_0000 + ((v >> 8) & 0xff)
        * 0x100 + (v & 0xff) == v) by (bit_vector);
}

/// Round trip: decoding the eight-byte big-endian encoding of `v` yields
/// exactly `v`.
pub proof fn lemma_be_u64_round_trip(v: u64)
    ensures
        be_u64_bytes(v).len() == 8,
        be_u64_of(be_u64_bytes(v)) == v,
{
    assert((v >> 56) & 0xff < 0x100) by (bit_vector);
    assert((v >> 48) & 0xff < 0x100) by (bit_vector);
    assert((v >> 40) & 0xff < 0x100) by (bit_vector);
    assert((v >> 32) & 0xff < 0x100) by (bit_vector);
    assert((v >> 24) & 0xff < 0x100) by (bit_vector);
    assert((v >> 16) & 0xff < 0x100) by (bit_vector);
    assert((v >> 8) & 0xff < 0x100) by (bit_vector);
    assert(v & 0xff < 0x100) by (bit_vector);
    assert(((v >> 56) & 0xff) * 0x100_0000_0000_0000 + ((v >> 48) & 0xff) * 0x1_0000_0000_0000 + ((
    v >> 40) & 0xff) * 0x100_0000_0000 + ((v >> 32) & 0xff) * 0x1_0000_0000 + ((v >> 24) & 0xff)
        * 0x100_0000 + ((v >> 16) & 0xff) * 0x1_0000 + ((v >> 8) & 0xff) * 0x100 + (v & 0xff)
        == v) by (bit_vector);
}

} // verus!
