//! Byte encodings: the SCALE codec's leaves, and joining byte strings.

use vstd::prelude::*;
use vstd::bytes::spec_u64_to_le_bytes;
use parity_scale_codec::Encode;

verus! {

/// Calls `parity_scale_codec::Encode::encode` on a `u64`, which gives its
/// eight bytes, least significant first.
#[verifier::external_body]
pub(crate) fn scale_encode_u64(x: u64) -> (bytes: Vec<u8>)
    ensures
        bytes@ == spec_u64_to_le_bytes(x),
{
    x.encode()
}

/// Calls `parity_scale_codec::Encode::encode` on a byte array, which gives
/// the bytes as they stand, with no length before them.
#[verifier::external_body]
pub(crate) fn scale_encode_array<const N: usize>(a: &[u8; N]) -> (bytes: Vec<u8>)
    ensures
        bytes@ == a@,
{
    a.encode()
}

/// How SCALE writes a byte string of fewer than 64 bytes: one byte that
/// holds four times the length, then the bytes.
pub open spec fn spec_scale_short_bytes(v: Seq<u8>) -> Seq<u8> {
    seq![(4 * v.len()) as u8] + v
}

/// Calls `parity_scale_codec::Encode::encode` on a `Vec<u8>`, which writes
/// the length in the codec's compact form and then the bytes. For a length
/// under 64 the compact form is the single byte `length << 2`.
#[verifier::external_body]
pub(crate) fn scale_encode_short_bytes(v: &Vec<u8>) -> (bytes: Vec<u8>)
    requires
        v@.len() < 64,
    ensures
        bytes@ == spec_scale_short_bytes(v@),
{
    v.encode()
}

/// Appends `src` to `dst`.
pub fn append_bytes(dst: &mut Vec<u8>, src: &[u8])
    ensures
        final(dst)@ == old(dst)@ + src@,
{
    let mut i: usize = 0;
    while i < src.len()
        invariant
            i <= src.len(),
            dst@ == old(dst)@ + src@.subrange(0, i as int),
        decreases src.len() - i,
    {
        dst.push(src[i]);
        i += 1;
        assert(dst@ =~= old(dst)@ + src@.subrange(0, i as int));
    }
    assert(src@.subrange(0, src@.len() as int) =~= src@);
}

/// A copy of a byte string.
pub fn copy_bytes(src: &[u8]) -> (dst: Vec<u8>)
    ensures
        dst@ == src@,
{
    let mut dst: Vec<u8> = Vec::new();
    append_bytes(&mut dst, src);
    assert(dst@ =~= src@);
    dst
}

} // verus!
