//! What the TLS side of the server is made of: the certificate, its chain, and its key.

use crate::backend::TlsPayload;
use crate::outside::pem::{
    chain_of, chain_parsed, ders, key_of, keys_equal, match_keys, may_ask_for_passphrase,
    parse_chain, parse_rsa, rsa_parsed,
};
use vstd::prelude::*;
use vstd::string::*;
use vstd::utf8::*;

verus! {

/// The parts that TLS is set up with, each in DER.
pub struct AcceptorParts {
    /// The certificate of the server: the first one of the payload.
    pub leaf: Option<Vec<u8>>,
    /// The certificates that vouch for it: all others of the payload, in order.
    pub chain: Vec<Vec<u8>>,
    /// The RSA private key.
    pub key: Vec<u8>,
}

/// Why there are no such parts, with the text of the cause.
pub enum AcceptorError {
    /// The certificates cannot be read.
    Certificate(String),
    /// The key cannot be read.
    Key(String),
    /// The key is not that of the certificate.
    Mismatch,
}

impl AcceptorError {
    /// The text of the error.
    pub fn to_text(&self) -> (text: String)
        ensures
            text@ == (match self {
                AcceptorError::Certificate(base) => base@,
                AcceptorError::Key(base) => base@,
                AcceptorError::Mismatch => "key values mismatch"@,
            }),
    {
        match self {
            AcceptorError::Certificate(base) => base.clone(),
            AcceptorError::Key(base) => base.clone(),
            AcceptorError::Mismatch => "key values mismatch".to_string(),
        }
    }
}

/// `r` are the parts for the certificates `all` and the key `key`, where they could be read. The
/// certificates are looked at first.
pub open spec fn made_of(
    all: Option<Seq<Seq<u8>>>,
    key: Option<Seq<u8>>,
    r: Result<AcceptorParts, AcceptorError>,
) -> bool {
    match (all, key) {
        (None, _) => r matches Err(e) && e is Certificate,
        (Some(_), None) => r matches Err(e) && e is Key,
        (Some(all), Some(key)) => {
            &&& r matches Ok(parts)
            &&& parts.key@ == key
            &&& parts.leaf is Some == (all.len() > 0)
            &&& parts.leaf matches Some(leaf) ==> leaf@ == all[0]
            &&& ders(parts.chain@) == if all.len() > 0 {
                all.drop_first()
            } else {
                all
            }
        },
    }
}

/// Makes the parts, from what came of reading the certificates and the key.
pub fn split_chain(all: Result<Vec<Vec<u8>>, String>, key: Result<Vec<u8>, String>) -> (r: Result<
    AcceptorParts,
    AcceptorError,
>)
    ensures
        made_of(chain_of(all), key_of(key), r),
        all matches Err(text) ==> r == Err::<AcceptorParts, AcceptorError>(
            AcceptorError::Certificate(text),
        ),
        all is Ok ==> (key matches Err(text) ==> r == Err::<AcceptorParts, AcceptorError>(
            AcceptorError::Key(text),
        )),
{
    let mut chain: Vec<Vec<u8>> = match all {
        Ok(all) => all,
        Err(text) => return Err(AcceptorError::Certificate(text)),
    };
    let key: Vec<u8> = match key {
        Ok(key) => key,
        Err(text) => return Err(AcceptorError::Key(text)),
    };
    let ghost before = chain@;
    if chain.len() == 0 {
        return Ok(AcceptorParts { leaf: None, chain, key });
    }
    let leaf: Vec<u8> = chain.remove(0);
    proof {
        assert(ders(chain@) =~= ders(before).drop_first());
    }
    Ok(AcceptorParts { leaf: Some(leaf), chain, key })
}

/// `r` are the parts for the certificates `all` and the key `key`, as in [`made_of`], if the key is
/// that of the certificate of the server.
pub open spec fn fitting(
    all: Option<Seq<Seq<u8>>>,
    key: Option<Seq<u8>>,
    r: Result<AcceptorParts, AcceptorError>,
) -> bool {
    if all is Some && key is Some && all->0.len() > 0 && keys_equal(all->0[0], key->0) != Some(
        true,
    ) {
        r matches Err(e) && e is Mismatch
    } else {
        made_of(all, key, r)
    }
}

/// Accepts parts, if there is no certificate, or what came of matching the key with it is that they
/// are equal.
pub fn accept_parts(parts: AcceptorParts, equal: Option<bool>) -> (r: Result<
    AcceptorParts,
    AcceptorError,
>)
    ensures
        r == if parts.leaf is None || equal == Some(true) {
            Ok::<AcceptorParts, AcceptorError>(parts)
        } else {
            Err(AcceptorError::Mismatch)
        },
{
    if parts.leaf.is_none() {
        return Ok(parts);
    }
    match equal {
        Some(true) => Ok(parts),
        _ => Err(AcceptorError::Mismatch),
    }
}

/// The bytes of a text.
pub open spec fn text_bytes(text: String) -> Seq<u8> {
    encode_utf8(text@)
}

/// Reads the parts from a certificate payload, and matches the key with the certificate. A payload that is encrypted, for which a passphrase is
/// read from the terminal, may give any certificates or any key.
pub fn acceptor_parts(cert: &TlsPayload) -> (r: Result<AcceptorParts, AcceptorError>)
    requires
        text_bytes(cert.certificate).len() <= i32::MAX,
        text_bytes(cert.private_key).len() <= i32::MAX,
    ensures
        !may_ask_for_passphrase(text_bytes(cert.certificate)) && !may_ask_for_passphrase(
            text_bytes(cert.private_key),
        ) ==> fitting(
            chain_parsed(text_bytes(cert.certificate)),
            rsa_parsed(text_bytes(cert.private_key)),
            r,
        ),
        exists|all: Option<Seq<Seq<u8>>>, key: Option<Seq<u8>>|
            {
                &&& #[trigger] fitting(all, key, r)
                &&& !may_ask_for_passphrase(text_bytes(cert.certificate)) ==> all == chain_parsed(
                    text_bytes(cert.certificate),
                )
                &&& !may_ask_for_passphrase(text_bytes(cert.private_key)) ==> key == rsa_parsed(
                    text_bytes(cert.private_key),
                )
            },
{
    let all: Result<Vec<Vec<u8>>, String> = parse_chain(cert.certificate.as_str().as_bytes());
    if let Err(text) = all {
        let r = Err(AcceptorError::Certificate(text));
        proof {
            assert(fitting(None, rsa_parsed(text_bytes(cert.private_key)), r));
        }
        return r;
    }
    let key: Result<Vec<u8>, String> = parse_rsa(cert.private_key.as_str().as_bytes());
    let ghost (seen_all, seen_key) = (chain_of(all), key_of(key));
    let r = match split_chain(all, key) {
        Ok(parts) => {
            let equal: Option<bool> = match &parts.leaf {
                Some(leaf) => match_keys(leaf.as_slice(), parts.key.as_slice()),
                None => None,
            };
            accept_parts(parts, equal)
        },
        Err(e) => Err(e),
    };
    proof {
        assert(fitting(seen_all, seen_key, r));
    }
    r
}

} // verus!
