use sha2::Digest;
use tron_vanity::hashes::double_sha256;

#[test]
fn double_sha256_matches_reference() {
    let out = double_sha256(b"");
    let expect = sha2::Sha256::digest(sha2::Sha256::digest(b""));
    assert_eq!(out, expect.to_vec());
    assert_eq!(
        hex::encode(&out),
        "5df6e0e2761359d30a8275058e299fcc0381534545f55cf43e41983f5d4c9456"
    );
}

#[test]
fn double_sha256_depends_on_input() {
    let a = double_sha256(b"abc");
    let b = double_sha256(b"abd");
    assert_ne!(a, b);
    assert_ne!(a, b"abc".to_vec());
    assert_eq!(a.len(), 32);
    assert_eq!(b.len(), 32);
}
