//! Address derivation: from a 32-byte private scalar to the checksummed,
//! base-58 encoded account address, and the record kept when the address
//! qualifies.

use crate::bytes::push_range;
use crate::codec::{
    base58_decode, base58_decode_of, base58_encode, base58_of, hex_bytes_of, hex_encode,
    is_base58_byte,
};
use crate::filter::{spec_accept, trailing_run, trailing_run_length};
use crate::hashes::{double_sha256, keccak256, keccak256_of, sha256_of};
use crate::keys::{pubkey_coords_of, random_scalar_bytes, scalar_in_range, secp_pubkey_coords};
use vstd::prelude::*;

verus! {

/// The network prefix byte of a mainnet account address.
pub const TRON_PREFIX: u8 = 0x41;

/// The 20-byte account identifier: the low-order bytes of the Keccak-256
/// digest of the public key coordinates.
pub open spec fn account_id_of(coords: Seq<u8>) -> Seq<u8> {
    keccak256_of(coords).skip(12)
}

/// The account identifier with the network prefix in front (21 bytes).
pub open spec fn prefixed_id_of(coords: Seq<u8>) -> Seq<u8> {
    seq![TRON_PREFIX] + account_id_of(coords)
}

/// The checksum of a prefixed identifier: the first 4 bytes of its double
/// SHA-256 digest.
pub open spec fn checksum_of(data: Seq<u8>) -> Seq<u8> {
    sha256_of(sha256_of(data)).take(4)
}

/// The full 25-byte address payload: prefixed identifier plus checksum.
pub open spec fn address_payload_of(coords: Seq<u8>) -> Seq<u8> {
    prefixed_id_of(coords) + checksum_of(prefixed_id_of(coords))
}

/// The textual address a private scalar derives to.
pub open spec fn address_of(sk: Seq<u8>) -> Seq<u8> {
    base58_of(address_payload_of(pubkey_coords_of(sk)))
}

/// A match: an address whose trailing run reached the threshold, kept with
/// the private key that produced it.
pub struct TronAddress {
    /// The base-58 address, as ASCII bytes.
    pub address: Vec<u8>,
    /// The private scalar, as lowercase hex ASCII bytes.
    pub private_key: Vec<u8>,
    /// The trailing-run length of `address`.
    pub same_chars_count: usize,
}

/// What a record holds when it was derived from the scalar `sk` at threshold
/// `min_same_chars`.
pub open spec fn record_for(rec: TronAddress, sk: Seq<u8>, min_same_chars: nat) -> bool {
    &&& rec.address@ == address_of(sk)
    &&& rec.private_key@ == hex_bytes_of(sk)
    &&& rec.same_chars_count == trailing_run(address_of(sk))
    &&& rec.same_chars_count >= min_same_chars
}

/// An address whose base-58 decoding is a 25-byte payload whose last 4 bytes
/// are the double-SHA-256 checksum of its first 21 bytes.
pub open spec fn address_checksum_wf(address: Seq<u8>) -> bool {
    match base58_decode_of(address) {
        Some(p) => p.len() == 25 && p.subrange(21, 25) == checksum_of(p.subrange(0, 21)),
        None => false,
    }
}

/// Derives the address of one candidate scalar and keeps it when it
/// qualifies.  Returns `None` exactly when the scalar is out of range or the
/// derived address falls short of the threshold.
pub fn derive_candidate(sk: &[u8; 32], min_same_chars: usize) -> (r: Option<TronAddress>)
    ensures
        r is Some <==> scalar_in_range(sk@) && spec_accept(address_of(sk@), min_same_chars as nat),
        r matches Some(rec) ==> record_for(rec, sk@, min_same_chars as nat),
        r matches Some(rec) ==> address_checksum_wf(rec.address@),
        r matches Some(rec) ==> forall|i: int|
            0 <= i < rec.address@.len() ==> is_base58_byte(rec.address@[i]),
{
    let coords = match secp_pubkey_coords(sk) {
        Some(c) => c,
        None => {
            return None;
        },
    };
    let digest = keccak256(coords.as_slice());
    let mut payload: Vec<u8> = Vec::new();
    payload.push(TRON_PREFIX);
    push_range(&mut payload, digest.as_slice(), 12, 32);
    proof {
        assert(payload@ =~= prefixed_id_of(coords@));
    }
    let ghost prefixed = payload@;
    let check = double_sha256(payload.as_slice());
    push_range(&mut payload, check.as_slice(), 0, 4);
    proof {
        assert(check@.subrange(0, 4) =~= checksum_of(prefixed));
        assert(payload@ =~= address_payload_of(coords@));
        assert(payload@.subrange(0, 21) =~= prefixed);
        assert(payload@.subrange(21, 25) =~= checksum_of(prefixed));
    }
    let address = base58_encode(payload.as_slice());
    let run = trailing_run_length(address.as_slice());
    if run >= min_same_chars {
        let private_key = hex_encode(sk.as_slice());
        Some(TronAddress { address, private_key, same_chars_count: run })
    } else {
        None
    }
}

/// One full mining attempt: draw a random scalar, derive, filter.  Whatever
/// the draw, a returned record was derived from some in-range scalar and its
/// address carries a valid checksum.
pub fn generate_tron_address(min_same_chars: usize) -> (r: Option<TronAddress>)
    ensures
        r matches Some(rec) ==> exists|sk: Seq<u8>|
            scalar_in_range(sk) && #[trigger] record_for(rec, sk, min_same_chars as nat),
        r matches Some(rec) ==> address_checksum_wf(rec.address@),
{
    let sk = random_scalar_bytes();
    let r = derive_candidate(&sk, min_same_chars);
    proof {
        if r is Some {
            assert(scalar_in_range(sk@) && record_for(r.unwrap(), sk@, min_same_chars as nat));
        }
    }
    r
}

/// Decodes an address and recomputes its checksum: true exactly for the
/// well-formed ones.
pub fn address_checksum_ok(address: &[u8]) -> (r: bool)
    ensures
        r == address_checksum_wf(address@),
{
    let payload = match base58_decode(address) {
        Some(p) => p,
        None => {
            return false;
        },
    };
    if payload.len() != 25 {
        return false;
    }
    let head = vstd::slice::slice_subrange(payload.as_slice(), 0, 21);
    let digest = double_sha256(head);
    let ok = payload[21] == digest[0] && payload[22] == digest[1] && payload[23] == digest[2]
        && payload[24] == digest[3];
    proof {
        let p = payload@;
        let c = checksum_of(p.subrange(0, 21));
        assert(c =~= digest@.subrange(0, 4));
        if ok {
            assert(p.subrange(21, 25) =~= c);
        } else {
            if p.subrange(21, 25) == c {
                assert(p[21] == c[0] && p[22] == c[1] && p[23] == c[2] && p[24] == c[3]) by {
                    assert(p.subrange(21, 25)[0] == p[21]);
                    assert(p.subrange(21, 25)[1] == p[22]);
                    assert(p.subrange(21, 25)[2] == p[23]);
                    assert(p.subrange(21, 25)[3] == p[24]);
                }
                assert(false);
            }
        }
    }
    ok
}

/// Deriving twice from one scalar gives records that agree in every field.
pub proof fn lemma_derivation_deterministic(
    sk: Seq<u8>,
    min_same_chars: nat,
    r1: TronAddress,
    r2: TronAddress,
)
    requires
        record_for(r1, sk, min_same_chars),
        record_for(r2, sk, min_same_chars),
    ensures
        r1.address@ == r2.address@,
        r1.private_key@ == r2.private_key@,
        r1.same_chars_count == r2.same_chars_count,
{
}

} // verus!
