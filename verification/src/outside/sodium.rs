//! Decoding, decryption and hashing by the `sodiumoxide` crate.

use sodiumoxide::base64;
use sodiumoxide::crypto::{box_, hash::sha256};
use vstd::prelude::*;

verus! {

/// Bytes in a precomputed key.
pub const KEY_SIZE: usize = 32;

/// Bytes in a nonce.
pub const NONCE_SIZE: usize = 24;

/// A precomputed key: a byte array that is zeroed when it goes out of scope.
#[verifier::external_type_specification]
#[verifier::external_body]
pub struct ExPrecomputedKey(box_::PrecomputedKey);

/// A nonce: a byte array.
#[verifier::external_type_specification]
#[verifier::external_body]
pub struct ExNonce(box_::Nonce);

/// The bytes of a precomputed key.
pub uninterp spec fn key_bytes(key: box_::PrecomputedKey) -> Seq<u8>;

/// The bytes of a nonce.
pub uninterp spec fn nonce_bytes(nonce: box_::Nonce) -> Seq<u8>;

/// What base64 text decodes to, in the URL-safe alphabet or the standard one; `None` where it
/// does not decode.
pub uninterp spec fn base64_decoded(text: Seq<char>, url_safe: bool) -> Option<Seq<u8>>;

/// What a ciphertext opens to under a nonce and a precomputed key; `None` where it does not
/// authenticate.
pub uninterp spec fn box_opened(cipher: Seq<u8>, nonce: Seq<u8>, key: Seq<u8>) -> Option<Seq<u8>>;

/// The SHA-256 digest of a byte string.
pub uninterp spec fn sha256_digest(data: Seq<u8>) -> Seq<u8>;

/// The two alphabets of padded base64.
#[derive(Clone, Copy)]
pub enum Alphabet {
    Standard,
    UrlSafe,
}

/// The bytes in the value of a decoding, if there is one.
pub open spec fn decoded_bytes(r: Result<Vec<u8>, ()>) -> Option<Seq<u8>> {
    match r {
        Ok(v) => Some(v@),
        Err(_) => None,
    }
}

/// `sodiumoxide::base64::decode` with one of the two padded variants.
#[verifier::external_body]
pub(crate) fn decode_base64(text: &str, alphabet: Alphabet) -> (r: Result<Vec<u8>, ()>)
    ensures
        decoded_bytes(r) == base64_decoded(text@, alphabet is UrlSafe),
{
    let variant = match alphabet {
        Alphabet::Standard => base64::Variant::Original,
        Alphabet::UrlSafe => base64::Variant::UrlSafe,
    };
    base64::decode(text, variant)
}

/// `PrecomputedKey::from_slice`: a key of exactly these bytes, if their number is right.
pub assume_specification[ box_::PrecomputedKey::from_slice ](bs: &[u8]) -> (key: Option<
    box_::PrecomputedKey,
>)
    ensures
        key is Some <==> bs@.len() == KEY_SIZE,
        key matches Some(k) ==> key_bytes(k) == bs@,
;

/// `Nonce::from_slice`: a nonce of exactly these bytes, if their number is right.
pub assume_specification[ box_::Nonce::from_slice ](bs: &[u8]) -> (nonce: Option<box_::Nonce>)
    ensures
        nonce is Some <==> bs@.len() == NONCE_SIZE,
        nonce matches Some(n) ==> nonce_bytes(n) == bs@,
;

/// `box_::open_precomputed`: verifies and decrypts. What comes out depends on the bytes of the
/// ciphertext, the nonce and the key alone.
pub assume_specification[ box_::open_precomputed ](
    c: &[u8],
    n: &box_::Nonce,
    k: &box_::PrecomputedKey,
) -> (r: Result<Vec<u8>, ()>)
    ensures
        decoded_bytes(r) == box_opened(c@, nonce_bytes(*n), key_bytes(*k)),
;

/// `sha256::hash`: the digest of the data.
#[verifier::external_body]
pub(crate) fn sha256_of(data: &[u8]) -> (digest: Vec<u8>)
    ensures
        digest@ == sha256_digest(data@),
{
    sha256::hash(data).as_ref().to_vec()
}

} // verus!
