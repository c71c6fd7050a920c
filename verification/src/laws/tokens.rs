//! Laws of tokens: which ones open, which payloads pass, and what the others are answered.

use crate::lifecycle::ping_backend;
use crate::outside::clock::{is_later, is_reading, later, rfc3339_moment, Moment};
use crate::outside::sodium::{base64_decoded, box_opened};
use crate::tokens::{
    judge_payload, read_as, token_outcome, url_token_outcome, TokenError, TokenPayload,
    TokenVerifier,
};
use vstd::prelude::*;
use vstd::utf8::{decode_utf8, valid_utf8};

verus! {

/// A verifier without a key opens no token.
pub proof fn a_new_verifier_opens_nothing(
    verifier: TokenVerifier,
    token: &[u8],
    r: Result<Vec<u8>, TokenError>,
)
    requires
        call_ensures(TokenVerifier::new, (), verifier),
        call_ensures(TokenVerifier::open_token, (&verifier, token), r),
    ensures
        token@.len() > 24 ==> r == Err::<Vec<u8>, TokenError>(TokenError::NoKey),
        token@.len() <= 24 ==> r == Err::<Vec<u8>, TokenError>(TokenError::TokenMalformed),
{
}

/// A key of 32 bytes that was pushed opens tokens: the first 24 bytes of a token are the nonce, and all
/// the rest is the ciphertext, of which there is some.
pub proof fn a_pushed_key_opens_tokens(
    verifier: &mut TokenVerifier,
    key: &[u8],
    pushed: Result<(), TokenError>,
    nonce: Seq<u8>,
    cipher: Seq<u8>,
    token: &[u8],
    r: Result<Vec<u8>, TokenError>,
)
    requires
        key@.len() == 32,
        call_ensures(TokenVerifier::push_key, (verifier, key), pushed),
        nonce.len() == 24,
        cipher.len() > 0,
        token@ == nonce + cipher,
        call_ensures(TokenVerifier::open_token, (&*final(verifier), token), r),
    ensures
        pushed is Ok,
        match box_opened(cipher, nonce, key@) {
            Some(plain) => r matches Ok(v) && v@ == plain,
            None => r == Err::<Vec<u8>, TokenError>(TokenError::DecryptFailed),
        },
{
    assert(token@.take(24) =~= nonce);
    assert(token@.skip(24) =~= cipher);
}

/// A key of any other length is refused, and the verifier opens what it opened before.
pub proof fn a_malformed_key_changes_nothing(
    verifier: &mut TokenVerifier,
    key: &[u8],
    pushed: Result<(), TokenError>,
)
    requires
        key@.len() != 32,
        call_ensures(TokenVerifier::push_key, (verifier, key), pushed),
    ensures
        pushed == Err::<(), TokenError>(TokenError::KeyMalformed),
        *final(verifier) == *old(verifier),
{
}

/// A key in text is pushed as the bytes that it decodes to, in the standard alphabet.
pub proof fn a_key_in_text_is_decoded(
    verifier: &mut TokenVerifier,
    text: &str,
    pushed: Result<(), TokenError>,
)
    requires
        call_ensures(TokenVerifier::push_key_b64, (verifier, text), pushed),
    ensures
        match base64_decoded(text@, false) {
            Some(bytes) => {
                &&& pushed is Ok == (bytes.len() == 32)
                &&& pushed is Ok ==> final(verifier).key() == Some(bytes)
                &&& pushed matches Err(e) ==> e == TokenError::KeyMalformed
            },
            None => pushed == Err::<(), TokenError>(TokenError::InvalidBase64),
        },
        pushed is Err ==> *final(verifier) == *old(verifier),
{
}

/// A ping without a new key changes nothing; one with a key pushes it.
pub proof fn a_ping_pushes_its_key(
    verifier: &mut TokenVerifier,
    key: Option<&str>,
    r: Result<(), TokenError>,
)
    requires
        call_ensures(ping_backend, (verifier, key), r),
    ensures
        key is None ==> r is Ok && *final(verifier) == *old(verifier),
        r is Err ==> *final(verifier) == *old(verifier),
        key matches Some(text) ==> r is Ok == (base64_decoded(text@, false) matches Some(bytes)
            && bytes.len() == 32),
        key matches Some(text) ==> r is Ok ==> final(verifier).key() == base64_decoded(
            text@,
            false,
        ),
{
}

/// Base64 in URLs is decoded in the URL-safe alphabet, any other in the standard one.
pub proof fn base64_has_two_alphabets(
    text: &str,
    url_safe: bool,
    r: Result<Vec<u8>, TokenError>,
)
    requires
        call_ensures(TokenVerifier::decode_b64, (text, url_safe), r),
    ensures
        r is Ok == base64_decoded(text@, url_safe) is Some,
        r matches Ok(bytes) ==> Some(bytes@) == base64_decoded(text@, url_safe),
        r matches Err(e) ==> e == TokenError::InvalidBase64,
{
}

/// Moments are ordered by their seconds, and within a second by their nanoseconds. None is later than
/// itself, and of two that differ one is later.
pub proof fn moments_are_ordered(a: Moment, b: Moment, c: Moment, r: bool)
    requires
        call_ensures(is_later, (a, b), r),
    ensures
        r == later(a, b),
        a.0 > b.0 ==> r,
        a.0 < b.0 ==> !r,
        a.0 == b.0 ==> r == (a.1 > b.1),
        !later(a, a),
        later(a, b) && later(b, c) ==> later(a, c),
        a != b ==> later(a, b) != later(b, a),
{
}

/// What a payload is answered: the chapter is looked at before the time, and the time has to lie
/// strictly after the moment of the judgement.
pub proof fn payloads_are_judged(
    payload: Option<TokenPayload>,
    chapter: &str,
    now: Moment,
    r: Result<(), TokenError>,
)
    requires
        call_ensures(judge_payload, (payload, chapter, now), r),
    ensures
        payload is None ==> r == Err::<(), TokenError>(TokenError::InvalidPayload),
        payload matches Some(p) ==> p.hash@ != chapter@ ==> r == Err::<(), TokenError>(
            TokenError::InvalidChapterHash,
        ),
        payload matches Some(p) ==> p.hash@ == chapter@ ==> match rfc3339_moment(p.expires@) {
            None => r == Err::<(), TokenError>(TokenError::InvalidPayload),
            Some((seconds, nanos)) => if seconds > now.0 || (seconds == now.0 && nanos > now.1) {
                r is Ok
            } else {
                r == Err::<(), TokenError>(TokenError::TokenExpired)
            },
        },
{
}

/// A token in a URL is accepted only if it decodes, opens under the key, reads as a payload, names the
/// chapter, and expires after a moment that the clock gave.
pub proof fn accepted_url_tokens_are_valid<F: Fn(&str) -> Option<TokenPayload>>(
    verifier: &TokenVerifier,
    token: &str,
    chapter: &str,
    parse: F,
    r: Result<(), TokenError>,
)
    requires
        call_ensures(TokenVerifier::verify_url_token::<F>, (verifier, token, chapter, parse), r),
        r is Ok,
    ensures
        base64_decoded(token@, true) matches Some(bytes) && bytes.len() > 24 && verifier.key() is Some
            && (box_opened(bytes.skip(24), bytes.take(24), verifier.key()->0) matches Some(plain)
            && exists|p: TokenPayload, now: Moment|
            {
                &&& #[trigger] read_as(parse, plain, Some(p))
                &&& p.hash@ == chapter@
                &&& rfc3339_moment(p.expires@) is Some
                &&& is_reading(now)
                &&& #[trigger] later(rfc3339_moment(p.expires@)->0, now)
            } && valid_utf8(plain) && exists|text: &str, p: TokenPayload|
            {
                &&& text@ == decode_utf8(plain)
                &&& #[trigger] parse.ensures((text,), Some(p))
                &&& p.hash@ == chapter@
            }),
{
    let bytes = base64_decoded(token@, true)->0;
    assert(token_outcome(verifier.key(), bytes, chapter@, parse, r));
    assert(r == Ok::<(), TokenError>(()));
    crate::tokens::accepted_tokens_are_valid(verifier.key(), bytes, chapter@, parse);
}

/// A token that decodes and opens, and whose every reading names the chapter and expires after every
/// moment that the clock may give, is accepted.
pub proof fn valid_url_tokens_are_accepted<F: Fn(&str) -> Option<TokenPayload>>(
    verifier: &TokenVerifier,
    token: &str,
    chapter: &str,
    parse: F,
    r: Result<(), TokenError>,
    plain: Seq<u8>,
)
    requires
        call_ensures(TokenVerifier::verify_url_token::<F>, (verifier, token, chapter, parse), r),
        base64_decoded(token@, true) is Some,
        base64_decoded(token@, true)->0.len() > 24,
        verifier.key() is Some,
        box_opened(
            base64_decoded(token@, true)->0.skip(24),
            base64_decoded(token@, true)->0.take(24),
            verifier.key()->0,
        ) == Some(plain),
        forall|payload: Option<TokenPayload>| #[trigger]
            read_as(parse, plain, payload) ==> payload is Some && payload->0.hash@ == chapter@
                && rfc3339_moment(payload->0.expires@) is Some && forall|now: Moment|
                #[trigger] is_reading(now) ==> later(rfc3339_moment(payload->0.expires@)->0, now),
    ensures
        r is Ok,
{
}

/// A token that does not decode, is too short, or does not open is answered with what went wrong
/// first.
pub proof fn broken_url_tokens_are_refused<F: Fn(&str) -> Option<TokenPayload>>(
    verifier: &TokenVerifier,
    token: &str,
    chapter: &str,
    parse: F,
    r: Result<(), TokenError>,
)
    requires
        call_ensures(TokenVerifier::verify_url_token::<F>, (verifier, token, chapter, parse), r),
    ensures
        match base64_decoded(token@, true) {
            None => r == Err::<(), TokenError>(TokenError::InvalidBase64),
            Some(bytes) => if bytes.len() <= 24 {
                r == Err::<(), TokenError>(TokenError::TokenMalformed)
            } else if verifier.key() is None {
                r == Err::<(), TokenError>(TokenError::NoKey)
            } else if box_opened(bytes.skip(24), bytes.take(24), verifier.key()->0) is None {
                r == Err::<(), TokenError>(TokenError::DecryptFailed)
            } else {
                r matches Err(e) ==> e == TokenError::InvalidPayload || e
                    == TokenError::InvalidChapterHash || e == TokenError::TokenExpired
            },
        },
{
}

/// A token that opens is judged by what is inside. Bytes that are no text, or a text that holds no
/// payload, are an invalid payload. One that is always read for another chapter is for the wrong
/// chapter; one that is always read as expired, at every moment that the clock may give, is expired.
pub proof fn opened_tokens_are_judged<F: Fn(&str) -> Option<TokenPayload>>(
    verifier: &TokenVerifier,
    token: &[u8],
    chapter: &str,
    parse: F,
    r: Result<(), TokenError>,
    plain: Seq<u8>,
)
    requires
        call_ensures(TokenVerifier::verify_token::<F>, (verifier, token, chapter, parse), r),
        token@.len() > 24,
        verifier.key() is Some,
        box_opened(token@.skip(24), token@.take(24), verifier.key()->0) == Some(plain),
    ensures
        !valid_utf8(plain) ==> r == Err::<(), TokenError>(TokenError::InvalidPayload),
        (forall|text: &str, payload: Option<TokenPayload>|
            text@ == decode_utf8(plain) && #[trigger] parse.ensures((text,), payload)
                ==> payload is None) ==> r == Err::<(), TokenError>(TokenError::InvalidPayload),
        valid_utf8(plain) && (forall|text: &str, payload: Option<TokenPayload>|
            text@ == decode_utf8(plain) && #[trigger] parse.ensures((text,), payload) ==> payload
                is Some && payload->0.hash@ != chapter@) ==> r == Err::<(), TokenError>(
            TokenError::InvalidChapterHash,
        ),
        valid_utf8(plain) && (forall|text: &str, payload: Option<TokenPayload>|
            text@ == decode_utf8(plain) && #[trigger] parse.ensures((text,), payload) ==> payload
                is Some && payload->0.hash@ == chapter@ && rfc3339_moment(
                payload->0.expires@,
            ) is None) ==> r == Err::<(), TokenError>(TokenError::InvalidPayload),
        valid_utf8(plain) && (forall|text: &str, payload: Option<TokenPayload>|
            text@ == decode_utf8(plain) && #[trigger] parse.ensures((text,), payload) ==> payload
                is Some && payload->0.hash@ == chapter@ && rfc3339_moment(
                payload->0.expires@,
            ) is Some && forall|now: Moment|
                #[trigger]
                is_reading(now) ==> !later(rfc3339_moment(payload->0.expires@)->0, now)) ==> r
            == Err::<(), TokenError>(TokenError::TokenExpired),
{
}

/// Bytes of a token that are verified directly are treated as those of a token in a URL.
pub proof fn tokens_are_verified_alike<F: Fn(&str) -> Option<TokenPayload>>(
    verifier: &TokenVerifier,
    text: &str,
    bytes: &[u8],
    chapter: &str,
    parse: F,
    r: Result<(), TokenError>,
)
    requires
        base64_decoded(text@, true) == Some(bytes@),
        call_ensures(TokenVerifier::verify_token::<F>, (verifier, bytes, chapter, parse), r),
    ensures
        url_token_outcome(verifier.key(), text@, chapter@, parse, r),
        bytes@.len() <= 24 ==> r == Err::<(), TokenError>(TokenError::TokenMalformed),
{
}

/// The answer to a request with a bad token: gone for one that is expired, else a bad request, with a
/// body that names the error.
pub proof fn token_errors_are_answered(error: TokenError, text: String, body: String, status: u16)
    requires
        call_ensures(TokenError::to_text, (&error,), text),
        call_ensures(TokenError::error_response, (&error,), body),
        call_ensures(TokenError::status_code, (&error,), status),
    ensures
        status == 410 || status == 400,
        status == 410 <==> error == TokenError::TokenExpired,
        body@ == "error validating provided token ("@ + text@ + ")"@,
        text@ == (match error {
            TokenError::InvalidBase64 => "TokenError::InvalidBase64"@,
            TokenError::NoKey => "TokenError::NoKey"@,
            TokenError::KeyMalformed => "TokenError::KeyMalformed"@,
            TokenError::TokenMalformed => "TokenError::TokenMalformed"@,
            TokenError::NonceMalformed => "TokenError::NonceMalformed"@,
            TokenError::DecryptFailed => "TokenError::DecryptFailed"@,
            TokenError::InvalidPayload => "TokenError::InvalidPayload"@,
            TokenError::InvalidChapterHash => "TokenError::InvalidChapterHash"@,
            TokenError::TokenExpired => "TokenError::TokenExpired"@,
        }),
{
    reveal_strlit("TokenError::");
    reveal_strlit("InvalidBase64");
    reveal_strlit("NoKey");
    reveal_strlit("KeyMalformed");
    reveal_strlit("TokenMalformed");
    reveal_strlit("NonceMalformed");
    reveal_strlit("DecryptFailed");
    reveal_strlit("InvalidPayload");
    reveal_strlit("InvalidChapterHash");
    reveal_strlit("TokenExpired");
    reveal_strlit("TokenError::InvalidBase64");
    reveal_strlit("TokenError::NoKey");
    reveal_strlit("TokenError::KeyMalformed");
    reveal_strlit("TokenError::TokenMalformed");
    reveal_strlit("TokenError::NonceMalformed");
    reveal_strlit("TokenError::DecryptFailed");
    reveal_strlit("TokenError::InvalidPayload");
    reveal_strlit("TokenError::InvalidChapterHash");
    reveal_strlit("TokenError::TokenExpired");
    match error {
        TokenError::InvalidBase64 => assert(text@ =~= "TokenError::InvalidBase64"@),
        TokenError::NoKey => assert(text@ =~= "TokenError::NoKey"@),
        TokenError::KeyMalformed => assert(text@ =~= "TokenError::KeyMalformed"@),
        TokenError::TokenMalformed => assert(text@ =~= "TokenError::TokenMalformed"@),
        TokenError::NonceMalformed => assert(text@ =~= "TokenError::NonceMalformed"@),
        TokenError::DecryptFailed => assert(text@ =~= "TokenError::DecryptFailed"@),
        TokenError::InvalidPayload => assert(text@ =~= "TokenError::InvalidPayload"@),
        TokenError::InvalidChapterHash => assert(text@ =~= "TokenError::InvalidChapterHash"@),
        TokenError::TokenExpired => assert(text@ =~= "TokenError::TokenExpired"@),
    }
}

} // verus!
