//! The two 256-bit digests the address scheme uses: Keccak-256 over public
//! key coordinates and SHA-256 (applied twice) for the checksum.  Both
//! results are deterministic functions of the input bytes alone; they are
//! named, not written out.

use sha2::Digest;
use vstd::prelude::*;

verus! {

pub uninterp spec fn sha256_of(data: Seq<u8>) -> Seq<u8>;

pub uninterp spec fn keccak256_of(data: Seq<u8>) -> Seq<u8>;

/// Relies on sha2's `Sha256` (through the `Digest` trait): the digest is a
/// 32-byte function of the input bytes alone.
#[verifier::external_body]
pub(crate) fn sha256(data: &[u8]) -> (r: Vec<u8>)
    ensures
        r@ == sha256_of(data@),
        r@.len() == 32,
{
    sha2::Sha256::digest(data).to_vec()
}

/// Relies on sha3's `Keccak256` (through the `Digest` trait): the digest is a
/// 32-byte function of the input bytes alone.
#[verifier::external_body]
pub(crate) fn keccak256(data: &[u8]) -> (r: Vec<u8>)
    ensures
        r@ == keccak256_of(data@),
        r@.len() == 32,
{
    sha3::Keccak256::digest(data).to_vec()
}

/// SHA-256 applied twice, as the checksum scheme asks.
pub fn double_sha256(data: &[u8]) -> (r: Vec<u8>)
    ensures
        r@ == sha256_of(sha256_of(data@)),
        r@.len() == 32,
{
    let first = sha256(data);
    sha256(first.as_slice())
}

} // verus!
