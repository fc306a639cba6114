use vstd::prelude::*;

verus! {

/// The number of bytes in a digest, and in every identifier derived from one.
pub const DIGEST_LEN: usize = 32;

/// The digest of a byte sequence under the collision-resistant hash that
/// anchors identity and topic derivation. The value is determined by the
/// input bytes alone; nothing further is assumed of it.
pub uninterp spec fn blake3_of(bytes: Seq<u8>) -> Seq<u8>;

/// Relies on `blake3::hash` (and `Hash::as_bytes`): the 32-byte digest is a
/// pure function of the input bytes, identical in every process.
#[verifier::external_body]
pub(crate) fn blake3_digest(input: &[u8]) -> (r: Vec<u8>)
    ensures
        r@ == blake3_of(input@),
        r@.len() == DIGEST_LEN,
{
    blake3::hash(input).as_bytes().to_vec()
}

} // verus!
