//! Textual codecs around the derived payloads: base-58 for the address
//! itself and lowercase hex for the private key.

use vstd::prelude::*;

verus! {

/// The base-58 encoding of a byte string, over the standard Bitcoin
/// alphabet, with each leading zero byte written as a leading `'1'`.
pub uninterp spec fn base58_of(data: Seq<u8>) -> Seq<u8>;

/// The byte string a base-58 text stands for, or `None` where some byte is
/// outside the alphabet.
pub uninterp spec fn base58_decode_of(text: Seq<u8>) -> Option<Seq<u8>>;

/// The bytes of the base-58 alphabet: ASCII digits and letters without
/// `'0'`, `'O'`, `'I'` and `'l'`.
pub open spec fn is_base58_byte(b: u8) -> bool {
    ||| 0x31 <= b <= 0x39
    ||| (0x41 <= b <= 0x5a && b != 0x49 && b != 0x4f)
    ||| (0x61 <= b <= 0x7a && b != 0x6c)
}

/// Relies on bs58's `encode` with its default (Bitcoin) alphabet: the
/// encoding is a function of the input bytes alone, every output byte is an
/// alphabet character, and decoding the output returns the input (base-58
/// texts and byte strings correspond one to one).
#[verifier::external_body]
pub(crate) fn base58_encode(data: &[u8]) -> (r: Vec<u8>)
    ensures
        r@ == base58_of(data@),
        base58_decode_of(r@) == Some(data@),
        forall|i: int| 0 <= i < r@.len() ==> is_base58_byte(r@[i]),
{
    bs58::encode(data).into_vec()
}

/// Relies on bs58's `decode` with its default (Bitcoin) alphabet: decoding
/// is a function of the input bytes alone, failing exactly on texts with a
/// byte outside the alphabet.
#[verifier::external_body]
pub(crate) fn base58_decode(text: &[u8]) -> (r: Option<Vec<u8>>)
    ensures
        match r {
            Some(v) => base58_decode_of(text@) == Some(v@),
            None => base58_decode_of(text@) is None,
        },
{
    bs58::decode(text).into_vec().ok()
}

/// The lowercase hex digit for a value below 16.
pub open spec fn hex_digit(n: u8) -> u8 {
    if n < 10 {
        (0x30 + n) as u8
    } else {
        (0x61 + (n - 10)) as u8
    }
}

/// Lowercase hex encoding: two digits per byte, high nibble first.
pub open spec fn hex_bytes_of(data: Seq<u8>) -> Seq<u8>
    decreases data.len(),
{
    if data.len() == 0 {
        Seq::empty()
    } else {
        seq![hex_digit(data.first() / 16), hex_digit(data.first() % 16)]
            + hex_bytes_of(data.drop_first())
    }
}

/// Relies on hex's `encode`: lowercase hex, two digits per byte, high nibble
/// first.
#[verifier::external_body]
pub(crate) fn hex_encode(data: &[u8]) -> (r: Vec<u8>)
    ensures
        r@ == hex_bytes_of(data@),
{
    hex::encode(data).into_bytes()
}

} // verus!
