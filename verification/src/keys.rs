//! Private scalars and the elliptic-curve step of address derivation.
//!
//! A candidate private key is 32 random bytes; it is usable exactly when,
//! read as a big-endian integer, it lies in `[1, curve order)`.  The curve
//! arithmetic itself is secp256k1's; only its byte-level interface is stated
//! here.

use vstd::prelude::*;

verus! {

/// A byte string read as a big-endian unsigned integer.
pub open spec fn be_bytes_value(s: Seq<u8>) -> nat
    decreases s.len(),
{
    if s.len() == 0 {
        0
    } else {
        (be_bytes_value(s.drop_last()) * 256 + s.last()) as nat
    }
}

/// The order of the secp256k1 group generated by the base point.
pub open spec fn secp256k1_order() -> nat {
    0xfffffffffffffffffffffffffffffffebaaedce6af48a03bbfd25e8cd0364141nat
}

/// The 32-byte strings that secp256k1 accepts as private keys: nonzero and
/// strictly below the group order.
pub open spec fn scalar_in_range(s: Seq<u8>) -> bool {
    s.len() == 32 && 0 < be_bytes_value(s) && be_bytes_value(s) < secp256k1_order()
}

/// The X and Y coordinates (32 bytes each, no format byte) of the public key
/// belonging to a valid private scalar: a function of the scalar alone.
pub uninterp spec fn pubkey_coords_of(sk: Seq<u8>) -> Seq<u8>;

/// Relies on secp256k1: `SecretKey::from_secret_bytes` accepts exactly the
/// 32-byte arrays that are nonzero and below the curve group order as
/// big-endian integers; `PublicKey::from_secret_key` is the scalar multiple
/// of the curve base point, a function of the key alone; and
/// `serialize_uncompressed` lays the point out as `0x04 || X || Y` in 65
/// bytes.
#[verifier::external_body]
pub(crate) fn secp_pubkey_coords(sk: &[u8; 32]) -> (r: Option<Vec<u8>>)
    ensures
        r is Some <==> scalar_in_range(sk@),
        r matches Some(v) ==> v@ == pubkey_coords_of(sk@) && v@.len() == 64,
{
    let key = match secp256k1::SecretKey::from_secret_bytes(*sk) {
        Ok(k) => k,
        Err(_) => return None,
    };
    let point = secp256k1::PublicKey::from_secret_key(&key);
    Some(point.serialize_uncompressed()[1..].to_vec())
}

/// Relies on rand's `ThreadRng`, a cryptographically secure generator, to
/// fill the candidate scalar.  Nothing is promised of the bytes drawn.
#[verifier::external_body]
pub(crate) fn random_scalar_bytes() -> (r: [u8; 32]) {
    let mut bytes = [0u8; 32];
    rand::Rng::fill_bytes(&mut rand::rng(), &mut bytes);
    bytes
}

} // verus!
