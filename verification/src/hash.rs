//! The hash under which a message is signed and claimed.

use crate::codec::{array_of, lemma_array_of};
use vstd::prelude::*;

verus! {

/// The Keccak-256 digest of `data`.
pub uninterp spec fn spec_keccak256(data: Seq<u8>) -> Seq<u8>;

/// The digest of `data` as a 32-byte value.
pub open spec fn message_hash(data: Seq<u8>) -> [u8; 32] {
    array_of::<32>(spec_keccak256(data))
}

/// Calls `Keccak256::digest` of sha3. The digest is a function of the bytes
/// alone; nothing more is claimed of it.
#[verifier::external_body]
fn keccak256_digest(data: &[u8]) -> (r: [u8; 32])
    ensures
        r@ == spec_keccak256(data@),
{
    let out = <sha3::Keccak256 as sha3::Digest>::digest(data);
    let mut r = [0u8; 32];
    r.copy_from_slice(&out);
    r
}

/// Hashes `data`.
pub fn keccak256(data: &[u8]) -> (r: [u8; 32])
    ensures
        r == message_hash(data@),
{
    let r: [u8; 32] = keccak256_digest(data);
    proof {
        lemma_array_of(r);
    }
    r
}

} // verus!
