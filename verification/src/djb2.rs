//! Checksum-style hashing of handle identities.
//!
//! The database exposes stable `u64` hashes of a few spatially addressed
//! handles.  The hash itself is the DJB2 function supplied by the
//! `hashers` crate; this module wraps that one call and names its result.

use vstd::prelude::*;

verus! {

/// The DJB2 hash of a byte sequence, as computed by
/// `hashers::oz::DJB2Hasher`.  The result depends on the bytes alone.
pub uninterp spec fn djb2(bytes: Seq<u8>) -> u64;

/// Relies on `hashers::oz::DJB2Hasher`: `write` folds each byte into the
/// running state in order and `finish` returns that state, so the result
/// is a function of the written bytes alone.
#[verifier::external_body]
pub(crate) fn djb2_hash(bytes: &Vec<u8>) -> (r: u64)
    ensures
        r == djb2(bytes@),
{
    let mut hasher = hashers::oz::DJB2Hasher::default();
    std::hash::Hasher::write(&mut hasher, bytes.as_slice());
    std::hash::Hasher::finish(&hasher)
}

/// The little-endian bytes of a 32-bit value.
pub open spec fn le_bytes_of_u32(v: u32) -> Seq<u8> {
    seq![
        (v & 0xff) as u8,
        ((v >> 8) & 0xff) as u8,
        ((v >> 16) & 0xff) as u8,
        ((v >> 24) & 0xff) as u8,
    ]
}

/// Appends the little-endian bytes of `v` to `bytes`.
pub(crate) fn push_le_bytes_of_u32(bytes: &mut Vec<u8>, v: u32)
    ensures
        final(bytes)@ == old(bytes)@ + le_bytes_of_u32(v),
{
    bytes.push((v & 0xff) as u8);
    bytes.push(((v >> 8) & 0xff) as u8);
    bytes.push(((v >> 16) & 0xff) as u8);
    bytes.push(((v >> 24) & 0xff) as u8);
    assert(bytes@ =~= old(bytes)@ + le_bytes_of_u32(v));
}

} // verus!
