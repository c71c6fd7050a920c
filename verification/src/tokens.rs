//! Verification of request tokens that were boxed with a precomputed key.

use crate::outside::clock::{
    current_moment, is_later, is_reading, later, parse_rfc3339, rfc3339_moment, Moment,
};
use crate::outside::sodium::{
    base64_decoded, box_opened, decode_base64, key_bytes, nonce_bytes, Alphabet, KEY_SIZE,
    NONCE_SIZE,
};
use crate::outside::text::string_from_utf8;
use crate::text::str_eq;
use sodiumoxide::crypto::box_;
use vstd::prelude::*;
use vstd::slice::*;
use vstd::string::*;
use vstd::utf8::*;

verus! {

/// What a token holds once it is opened and read.
pub struct TokenPayload {
    pub expires: String,
    pub hash: String,
}

/// Every kind of error in using a key or a token.
#[derive(Debug, Clone, Copy, PartialEq, Eq, Structural)]
pub enum TokenError {
    InvalidBase64,
    NoKey,
    KeyMalformed,
    TokenMalformed,
    NonceMalformed,
    DecryptFailed,
    InvalidPayload,
    InvalidChapterHash,
    TokenExpired,
}

impl TokenError {
    /// The name of the kind.
    pub open spec fn name(self) -> Seq<char> {
        match self {
            TokenError::InvalidBase64 => "InvalidBase64"@,
            TokenError::NoKey => "NoKey"@,
            TokenError::KeyMalformed => "KeyMalformed"@,
            TokenError::TokenMalformed => "TokenMalformed"@,
            TokenError::NonceMalformed => "NonceMalformed"@,
            TokenError::DecryptFailed => "DecryptFailed"@,
            TokenError::InvalidPayload => "InvalidPayload"@,
            TokenError::InvalidChapterHash => "InvalidChapterHash"@,
            TokenError::TokenExpired => "TokenExpired"@,
        }
    }

    /// The text of the error.
    pub open spec fn display(self) -> Seq<char> {
        "TokenError::"@ + self.name()
    }

    /// The body of the response to a request with such a token.
    pub open spec fn response_body(self) -> Seq<char> {
        "error validating provided token ("@ + self.display() + ")"@
    }

    /// The status of the response: gone for an expired token, else bad request.
    pub open spec fn status(self) -> u16 {
        if self is TokenExpired {
            410
        } else {
            400
        }
    }

    /// The text of the error.
    pub fn to_text(&self) -> (text: String)
        ensures
            text@ == self.display(),
    {
        let name: &'static str = match self {
            TokenError::InvalidBase64 => "InvalidBase64",
            TokenError::NoKey => "NoKey",
            TokenError::KeyMalformed => "KeyMalformed",
            TokenError::TokenMalformed => "TokenMalformed",
            TokenError::NonceMalformed => "NonceMalformed",
            TokenError::DecryptFailed => "DecryptFailed",
            TokenError::InvalidPayload => "InvalidPayload",
            TokenError::InvalidChapterHash => "InvalidChapterHash",
            TokenError::TokenExpired => "TokenExpired",
        };
        let mut text: String = "TokenError::".to_string();
        text.append(name);
        text
    }

    /// The body of the response to a request with such a token.
    pub fn error_response(&self) -> (body: String)
        ensures
            body@ == self.response_body(),
    {
        let mut body: String = "error validating provided token (".to_string();
        body.append(self.to_text().as_str());
        body.append(")");
        body
    }

    /// The status of the response to a request with such a token.
    pub fn status_code(&self) -> (status: u16)
        ensures
            status == self.status(),
    {
        match self {
            TokenError::TokenExpired => 410,
            _ => 400,
        }
    }
}

/// What a token opens to: its first bytes are the nonce, the rest is the ciphertext.
pub open spec fn opened_token(key: Option<Seq<u8>>, token: Seq<u8>) -> Result<Seq<u8>, TokenError> {
    if token.len() <= NONCE_SIZE {
        Err(TokenError::TokenMalformed)
    } else {
        match key {
            None => Err(TokenError::NoKey),
            Some(k) => match box_opened(
                token.skip(NONCE_SIZE as int),
                token.take(NONCE_SIZE as int),
                k,
            ) {
                None => Err(TokenError::DecryptFailed),
                Some(plain) => Ok(plain),
            },
        }
    }
}

/// The verdict on a payload at the moment `now`, for a request of the chapter `chap_hash`.
pub open spec fn verdict(
    payload: Option<TokenPayload>,
    chap_hash: Seq<char>,
    now: Moment,
) -> Result<(), TokenError> {
    match payload {
        None => Err(TokenError::InvalidPayload),
        Some(p) => if p.hash@ != chap_hash {
            Err(TokenError::InvalidChapterHash)
        } else {
            match rfc3339_moment(p.expires@) {
                None => Err(TokenError::InvalidPayload),
                Some(expires) => if later(expires, now) {
                    Ok(())
                } else {
                    Err(TokenError::TokenExpired)
                },
            }
        },
    }
}

/// `payload` is what `parse` may make of the bytes `plain`: nothing, where they are not UTF-8.
pub open spec fn read_as<F: Fn(&str) -> Option<TokenPayload>>(
    parse: F,
    plain: Seq<u8>,
    payload: Option<TokenPayload>,
) -> bool {
    if valid_utf8(plain) {
        exists|text: &str|
            text@ == decode_utf8(plain) && #[trigger] parse.ensures((text,), payload)
    } else {
        payload is None
    }
}

/// `result` is a possible outcome of verifying a token: some payload was read from the opened token
/// and judged at a moment that the clock gave.
pub open spec fn token_outcome<F: Fn(&str) -> Option<TokenPayload>>(
    key: Option<Seq<u8>>,
    token: Seq<u8>,
    chap_hash: Seq<char>,
    parse: F,
    result: Result<(), TokenError>,
) -> bool {
    match opened_token(key, token) {
        Err(e) => result == Err::<(), TokenError>(e),
        Ok(plain) => exists|payload: Option<TokenPayload>, now: Moment|
            {
                &&& read_as(parse, plain, payload)
                &&& is_reading(now)
                &&& result == #[trigger] verdict(payload, chap_hash, now)
            },
    }
}

/// `result` is a possible outcome of verifying a token in URL-safe base64.
pub open spec fn url_token_outcome<F: Fn(&str) -> Option<TokenPayload>>(
    key: Option<Seq<u8>>,
    token: Seq<char>,
    chap_hash: Seq<char>,
    parse: F,
    result: Result<(), TokenError>,
) -> bool {
    match base64_decoded(token, true) {
        None => result == Err::<(), TokenError>(TokenError::InvalidBase64),
        Some(bytes) => token_outcome(key, bytes, chap_hash, parse, result),
    }
}

/// Judges a payload at a given moment, for a request of the chapter `chap_hash`.
pub fn judge_payload(payload: Option<TokenPayload>, chap_hash: &str, now: Moment) -> (r: Result<
    (),
    TokenError,
>)
    ensures
        r == verdict(payload, chap_hash@, now),
{
    match payload {
        None => Err(TokenError::InvalidPayload),
        Some(p) => {
            if !str_eq(p.hash.as_str(), chap_hash) {
                return Err(TokenError::InvalidChapterHash);
            }
            match parse_rfc3339(p.expires.as_str()) {
                None => Err(TokenError::InvalidPayload),
                Some(expires) => if is_later(expires, now) {
                    Ok(())
                } else {
                    Err(TokenError::TokenExpired)
                },
            }
        },
    }
}

/// Verifies the tokens of requests with a precomputed key.
///
/// Start with `new`, give it a key with `push_key` or `push_key_b64`, then verify tokens with
/// `verify_token` or `verify_url_token`. Both take the function that reads a payload from the text
/// inside the token.
pub struct TokenVerifier(Option<box_::PrecomputedKey>);

impl TokenVerifier {
    /// The bytes of the key, if there is one.
    pub closed spec fn key(self) -> Option<Seq<u8>> {
        match self.0 {
            Some(k) => Some(key_bytes(k)),
            None => None,
        }
    }

    /// A verifier without a key.
    pub fn new() -> (verifier: Self)
        ensures
            verifier.key() is None,
    {
        TokenVerifier(None)
    }

    /// Decodes base64 text, in the URL-safe alphabet or in the standard one.
    pub fn decode_b64(b64: &str, is_url_variant: bool) -> (r: Result<Vec<u8>, TokenError>)
        ensures
            match base64_decoded(b64@, is_url_variant) {
                Some(bytes) => r matches Ok(v) && v@ == bytes,
                None => r == Err::<Vec<u8>, TokenError>(TokenError::InvalidBase64),
            },
    {
        let alphabet = if is_url_variant {
            Alphabet::UrlSafe
        } else {
            Alphabet::Standard
        };
        match decode_base64(b64, alphabet) {
            Ok(bytes) => Ok(bytes),
            Err(_) => Err(TokenError::InvalidBase64),
        }
    }

    /// Makes a key of bytes.
    fn key_from_bytes(bytes: &[u8]) -> (r: Result<box_::PrecomputedKey, TokenError>)
        ensures
            match r {
                Ok(k) => bytes@.len() == KEY_SIZE && key_bytes(k) == bytes@,
                Err(e) => bytes@.len() != KEY_SIZE && e == TokenError::KeyMalformed,
            },
    {
        match box_::PrecomputedKey::from_slice(bytes) {
            Some(k) => Ok(k),
            None => Err(TokenError::KeyMalformed),
        }
    }

    /// Takes a new key for opening tokens. A malformed one leaves the verifier as it was.
    pub fn push_key(&mut self, bytes: &[u8]) -> (r: Result<(), TokenError>)
        ensures
            if bytes@.len() == KEY_SIZE {
                r is Ok && final(self).key() == Some(bytes@)
            } else {
                r == Err::<(), TokenError>(TokenError::KeyMalformed) && *final(self) == *old(self)
            },
    {
        match Self::key_from_bytes(bytes) {
            Ok(k) => {
                self.0 = Some(k);
                Ok(())
            },
            Err(e) => Err(e),
        }
    }

    /// Takes a new key, in base64, for opening tokens. A malformed one leaves the verifier as it
    /// was.
    pub fn push_key_b64(&mut self, key_str: &str) -> (r: Result<(), TokenError>)
        ensures
            match base64_decoded(key_str@, false) {
                None => r == Err::<(), TokenError>(TokenError::InvalidBase64) && *final(self)
                    == *old(self),
                Some(bytes) => if bytes.len() == KEY_SIZE {
                    r is Ok && final(self).key() == Some(bytes)
                } else {
                    r == Err::<(), TokenError>(TokenError::KeyMalformed) && *final(self)
                        == *old(self)
                },
            },
    {
        match Self::decode_b64(key_str, false) {
            Ok(bytes) => self.push_key(bytes.as_slice()),
            Err(e) => Err(e),
        }
    }

    /// Splits a token into nonce and ciphertext.
    fn token_to_cipher(token: &[u8]) -> (r: Result<(box_::Nonce, Vec<u8>), TokenError>)
        ensures
            match r {
                Ok((nonce, cipher)) => {
                    &&& token@.len() > NONCE_SIZE
                    &&& nonce_bytes(nonce) == token@.take(NONCE_SIZE as int)
                    &&& cipher@ == token@.skip(NONCE_SIZE as int)
                },
                Err(e) => token@.len() <= NONCE_SIZE && e == TokenError::TokenMalformed,
            },
    {
        if token.len() <= NONCE_SIZE {
            return Err(TokenError::TokenMalformed);
        }
        let nonce: &[u8] = slice_subrange(token, 0, NONCE_SIZE);
        let cipher: &[u8] = slice_subrange(token, NONCE_SIZE, token.len());
        proof {
            assert(nonce@ =~= token@.take(NONCE_SIZE as int));
            assert(cipher@ =~= token@.skip(NONCE_SIZE as int));
        }
        match box_::Nonce::from_slice(nonce) {
            Some(n) => Ok((n, slice_to_vec(cipher))),
            None => Err(TokenError::NonceMalformed),
        }
    }

    /// Opens a ciphertext with a key. The only error is that it cannot be decrypted.
    fn decrypt_token(key: &box_::PrecomputedKey, nonce: &box_::Nonce, cipher: &[u8]) -> (r: Result<
        Vec<u8>,
        TokenError,
    >)
        ensures
            match box_opened(cipher@, nonce_bytes(*nonce), key_bytes(*key)) {
                None => r == Err::<Vec<u8>, TokenError>(TokenError::DecryptFailed),
                Some(plain) => r matches Ok(v) && v@ == plain,
            },
    {
        match box_::open_precomputed(cipher, nonce, key) {
            Ok(plain) => Ok(plain),
            Err(_) => Err(TokenError::DecryptFailed),
        }
    }

    /// Opens a token: gives the bytes inside it.
    pub fn open_token(&self, token: &[u8]) -> (r: Result<Vec<u8>, TokenError>)
        ensures
            match opened_token(self.key(), token@) {
                Ok(plain) => r matches Ok(v) && v@ == plain,
                Err(e) => r == Err::<Vec<u8>, TokenError>(e),
            },
    {
        match Self::token_to_cipher(token) {
            Ok((nonce, cipher)) => match &self.0 {
                Some(key) => Self::decrypt_token(key, &nonce, cipher.as_slice()),
                None => Err(TokenError::NoKey),
            },
            Err(e) => Err(e),
        }
    }

    /// Opens a token with the key of the verifier, then verifies that it names the chapter and is
    /// not expired. `parse` reads the payload from the text inside the token.
    pub fn verify_token<F: Fn(&str) -> Option<TokenPayload>>(
        &self,
        token: &[u8],
        chap_hash: &str,
        parse: F,
    ) -> (r: Result<(), TokenError>)
        requires
            forall|text: &str| parse.requires((text,)),
        ensures
            token_outcome(self.key(), token@, chap_hash@, parse, r),
    {
        let plain: Vec<u8> = match self.open_token(token) {
            Ok(plain) => plain,
            Err(e) => return Err(e),
        };
        let ghost bytes = plain@;
        let payload = match string_from_utf8(plain) {
            Some(text) => parse(text.as_str()),
            None => None,
        };
        let ghost seen = payload;
        proof {
            assert(read_as(parse, bytes, seen));
        }
        let now: Moment = current_moment();
        let r = judge_payload(payload, chap_hash, now);
        proof {
            assert(r == verdict(seen, chap_hash@, now));
        }
        r
    }

    /// Verifies a token in URL-safe base64. See `verify_token`.
    pub fn verify_url_token<F: Fn(&str) -> Option<TokenPayload>>(
        &self,
        token_str: &str,
        chap_hash: &str,
        parse: F,
    ) -> (r: Result<(), TokenError>)
        requires
            forall|text: &str| parse.requires((text,)),
        ensures
            url_token_outcome(self.key(), token_str@, chap_hash@, parse, r),
    {
        match Self::decode_b64(token_str, true) {
            Ok(token) => self.verify_token(token.as_slice(), chap_hash, parse),
            Err(e) => Err(e),
        }
    }
}

/// A token is accepted only if it opens under the key, its text reads as a payload, the payload names
/// the chapter, and its expiry lies after the moment, given by the clock, at which it was judged.
pub proof fn accepted_tokens_are_valid<F: Fn(&str) -> Option<TokenPayload>>(
    key: Option<Seq<u8>>,
    token: Seq<u8>,
    chap_hash: Seq<char>,
    parse: F,
)
    requires
        token_outcome(key, token, chap_hash, parse, Ok(())),
    ensures
        opened_token(key, token) is Ok,
        exists|p: TokenPayload, now: Moment|
            {
                &&& #[trigger] read_as(parse, opened_token(key, token)->Ok_0, Some(p))
                &&& p.hash@ == chap_hash
                &&& rfc3339_moment(p.expires@) is Some
                &&& is_reading(now)
                &&& #[trigger] later(rfc3339_moment(p.expires@)->0, now)
            },
{
    let plain = opened_token(key, token)->Ok_0;
    let (payload, now): (Option<TokenPayload>, Moment) = choose|
        payload: Option<TokenPayload>,
        now: Moment,
    |
        read_as(parse, plain, payload) && is_reading(now) && Ok::<(), TokenError>(())
            == #[trigger] verdict(payload, chap_hash, now);
    let p = payload->0;
    assert(payload == Some(p));
    assert(later(rfc3339_moment(p.expires@)->0, now));
}

/// A payload is accepted exactly if it was read, names the chapter, and its expiry is a moment after
/// `now`.
pub proof fn accepted_payloads(payload: Option<TokenPayload>, chap_hash: Seq<char>, now: Moment)
    ensures
        verdict(payload, chap_hash, now) is Ok <==> {
            &&& payload matches Some(p)
            &&& p.hash@ == chap_hash
            &&& rfc3339_moment(p.expires@) matches Some(expires)
            &&& later(expires, now)
        },
{
}

/// A verifier without a key accepts no token.
pub proof fn nothing_passes_without_a_key<F: Fn(&str) -> Option<TokenPayload>>(
    token: Seq<u8>,
    chap_hash: Seq<char>,
    parse: F,
    result: Result<(), TokenError>,
)
    requires
        token_outcome(None, token, chap_hash, parse, result),
    ensures
        result == Err::<(), TokenError>(
            if token.len() <= NONCE_SIZE {
                TokenError::TokenMalformed
            } else {
                TokenError::NoKey
            },
        ),
{
}

/// A payload that is expired at one moment stays expired, one that is accepted was accepted at every
/// earlier moment, and every other error comes at every moment.
pub proof fn expiry_is_final(
    payload: Option<TokenPayload>,
    chap_hash: Seq<char>,
    now: Moment,
    after: Moment,
)
    requires
        !later(now, after),
    ensures
        verdict(payload, chap_hash, now) == Err::<(), TokenError>(TokenError::TokenExpired)
            ==> verdict(payload, chap_hash, after) == Err::<(), TokenError>(
            TokenError::TokenExpired,
        ),
        verdict(payload, chap_hash, after) is Ok ==> verdict(payload, chap_hash, now) is Ok,
        verdict(payload, chap_hash, now) matches Err(e) ==> e != TokenError::TokenExpired
            ==> verdict(payload, chap_hash, after) == Err::<(), TokenError>(e),
{
}

} // verus!
