//! Certificates and keys in PEM, read by the `openssl` crate.

use openssl::pkey::PKey;
use openssl::rsa::Rsa;
use openssl::x509::X509;
use vstd::prelude::*;

verus! {

/// The word `ENCRYPTED` stands in a PEM text from the byte `at` on.
pub open spec fn encrypted_at(pem: Seq<u8>, at: int) -> bool {
    &&& 0 <= at <= pem.len() - 9
    &&& pem.subrange(at, at + 9) == seq![69u8, 78, 67, 82, 89, 80, 84, 69, 68]
}

/// A PEM text may ask for a passphrase. Every header and label of an encrypted block holds the word
/// `ENCRYPTED`.
pub open spec fn may_ask_for_passphrase(pem: Seq<u8>) -> bool {
    exists|at: int| #[trigger] encrypted_at(pem, at)
}

/// The certificates in a PEM text, in order, each in DER; `None` where one cannot be read.
pub uninterp spec fn chain_parsed(pem: Seq<u8>) -> Option<Seq<Seq<u8>>>;

/// The RSA private key in a PEM text, in DER; `None` where there is none that can be read.
pub uninterp spec fn rsa_parsed(pem: Seq<u8>) -> Option<Seq<u8>>;

/// The bytes of several byte strings.
pub open spec fn ders(strings: Seq<Vec<u8>>) -> Seq<Seq<u8>> {
    strings.map_values(|der: Vec<u8>| der@)
}

/// The certificates in the value of a reading, if there is one.
pub open spec fn chain_of(r: Result<Vec<Vec<u8>>, String>) -> Option<Seq<Seq<u8>>> {
    match r {
        Ok(all) => Some(ders(all@)),
        Err(_) => None,
    }
}

/// The key in the value of a reading, if there is one.
pub open spec fn key_of(r: Result<Vec<u8>, String>) -> Option<Seq<u8>> {
    match r {
        Ok(der) => Some(der@),
        Err(_) => None,
    }
}

/// `X509::stack_from_pem`, with `X509Ref::to_der` of each certificate, or the text of the error.
/// Beyond `i32::MAX` bytes it panics. A block that is encrypted is read with a passphrase from the
/// terminal, so nothing is known of what a text with such a block gives; nothing is known of the
/// error either.
#[verifier::external_body]
pub(crate) fn parse_chain(pem: &[u8]) -> (r: Result<Vec<Vec<u8>>, String>)
    requires
        pem@.len() <= i32::MAX,
    ensures
        !may_ask_for_passphrase(pem@) ==> chain_of(r) == chain_parsed(pem@),
{
    X509::stack_from_pem(pem)
        .and_then(|all| all.iter().map(|x509| x509.to_der()).collect())
        .map_err(|e| e.to_string())
}

/// `Rsa::private_key_from_pem`, with `RsaRef::private_key_to_der` of the key, or the text of the
/// error. Beyond `i32::MAX` bytes it panics. A block that is encrypted is read with a passphrase from
/// the terminal, so nothing is known of what a text with such a block gives; nothing is known of the
/// error either.
#[verifier::external_body]
pub(crate) fn parse_rsa(pem: &[u8]) -> (r: Result<Vec<u8>, String>)
    requires
        pem@.len() <= i32::MAX,
    ensures
        !may_ask_for_passphrase(pem@) ==> key_of(r) == rsa_parsed(pem@),
{
    Rsa::private_key_from_pem(pem)
        .and_then(|rsa| rsa.private_key_to_der())
        .map_err(|e| e.to_string())
}

/// Whether the public key of a certificate is that of an RSA private key, both in DER; `None` where
/// one of them cannot be read.
pub uninterp spec fn keys_equal(cert: Seq<u8>, key: Seq<u8>) -> Option<bool>;

/// `PKeyRef::public_eq` of an RSA private key and the public key of a certificate, both read from
/// DER.
#[verifier::external_body]
pub(crate) fn match_keys(cert: &[u8], key: &[u8]) -> (equal: Option<bool>)
    ensures
        equal == keys_equal(cert@, key@),
{
    let public = X509::from_der(cert).ok()?.public_key().ok()?;
    let private = PKey::from_rsa(Rsa::private_key_from_der(key).ok()?).ok()?;
    Some(private.public_eq(&public))
}

} // verus!
