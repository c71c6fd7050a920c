use scalpel::lifecycle::ping_backend;
use scalpel::tokens::{judge_payload, TokenError, TokenPayload, TokenVerifier};
use serde_json as json;
use sodiumoxide::{base64, crypto::box_};

const NONCE_SIZE: usize = 24;

// arbitrary chapter hash for token payloads
const CHAP_HASH: &str = "000000";

/// A client and a server with a precomputed key between them.
struct PCryptoData {
    our_p: box_::PrecomputedKey,
    their_p: box_::PrecomputedKey,
}

impl PCryptoData {
    fn new() -> Self {
        sodiumoxide::init().unwrap();
        let our = box_::gen_keypair();
        let their = box_::gen_keypair();
        PCryptoData {
            our_p: box_::precompute(&their.0, &our.1),
            their_p: box_::precompute(&our.0, &their.1),
        }
    }

    /// A base64 key and a base64-url token that opens to `data` under it.
    fn key_token_pair(&self, data: &[u8]) -> (String, String) {
        let nonce = box_::gen_nonce();
        let ciphertext = box_::seal_precomputed(data, &nonce, &self.our_p);
        let token_bytes = [&nonce[..NONCE_SIZE], &ciphertext].concat();
        (
            base64::encode(&self.their_p, base64::Variant::Original),
            base64::encode(&token_bytes, base64::Variant::UrlSafe),
        )
    }
}

fn in_one_hour() -> chrono::DateTime<chrono::Utc> {
    chrono::Utc::now() + chrono::Duration::hours(1)
}

/// Reads the payload of a token from its JSON text.
fn read_payload(text: &str) -> Option<TokenPayload> {
    let value: json::Value = json::from_str(text).ok()?;
    Some(TokenPayload {
        expires: value.get("expires")?.as_str()?.to_string(),
        hash: value.get("hash")?.as_str()?.to_string(),
    })
}

fn object(fields: Vec<(&str, json::Value)>) -> json::Value {
    let mut map = json::Map::new();
    for (name, value) in fields {
        map.insert(name.to_string(), value);
    }
    json::Value::Object(map)
}

fn payload(expires: &str, hash: &str) -> String {
    object(vec![
        ("expires", json::Value::from(expires)),
        ("hash", json::Value::from(hash)),
    ])
    .to_string()
}

#[test]
fn valid_token_validation() {
    let data = object(vec![
        ("expires", json::Value::from(in_one_hour().to_rfc3339())),
        ("hash", json::Value::from(CHAP_HASH)),
    ])
    .to_string();
    let (token_key, token) = PCryptoData::new().key_token_pair(data.as_bytes());

    let mut verifier = TokenVerifier::new();
    verifier.push_key_b64(&token_key).unwrap();
    verifier
        .verify_url_token(&token, CHAP_HASH, read_payload)
        .unwrap();
}

#[test]
fn extraneous_token_fields() {
    let data = object(vec![
        ("expires", json::Value::from(in_one_hour().to_rfc3339())),
        ("hash", json::Value::from(CHAP_HASH)),
        // fields that should be ignored by verifier
        ("str_field", json::Value::from("EXAMPLE")),
        ("i32_field", json::Value::from(256i32)),
        (
            "obj_field",
            object(vec![("hello", json::Value::from("world"))]),
        ),
        ("arr_field", json::Value::from(vec![128i32, 256i32])),
    ])
    .to_string();
    let (token_key, token) = PCryptoData::new().key_token_pair(data.as_bytes());

    let mut verifier = TokenVerifier::new();
    verifier.push_key_b64(&token_key).unwrap();
    verifier
        .verify_url_token(&token, CHAP_HASH, read_payload)
        .unwrap();
}

#[test]
fn invalid_key_construct() {
    // random b64 bytes that should result in an invalid key
    const INVALID_KEY: &str = "74IZ1UfOKt3laiFzEtfBzg==";

    let mut verifier = TokenVerifier::new();
    match verifier.push_key_b64(INVALID_KEY) {
        Err(e) => assert!(e == TokenError::KeyMalformed),
        Ok(_) => panic!("Result was unexpectedly Ok"),
    }
}

#[test]
fn short_token() {
    let short_token = base64::encode(&box_::gen_nonce()[..NONCE_SIZE], base64::Variant::UrlSafe);

    let (token_key, _) = PCryptoData::new().key_token_pair(&[]);
    let mut verifier = TokenVerifier::new();
    verifier.push_key_b64(&token_key).unwrap();

    match verifier.verify_url_token(&short_token, CHAP_HASH, read_payload) {
        Err(e) => assert!(e == TokenError::TokenMalformed),
        Ok(_) => panic!("Result was unexpectedly Ok"),
    }
}

#[test]
fn base64_alphabets_differ() {
    assert_eq!(
        TokenVerifier::decode_b64("Zm9vYmE=", false),
        Ok(b"fooba".to_vec())
    );
    assert_eq!(TokenVerifier::decode_b64("-_8=", true), Ok(vec![0xfb, 0xff]));
    assert_eq!(
        TokenVerifier::decode_b64("+/8=", false),
        Ok(vec![0xfb, 0xff])
    );
    assert_eq!(
        TokenVerifier::decode_b64("-_8=", false),
        Err(TokenError::InvalidBase64)
    );
    assert_eq!(
        TokenVerifier::decode_b64("+/8=", true),
        Err(TokenError::InvalidBase64)
    );
}

#[test]
fn token_in_wrong_base64() {
    let verifier = TokenVerifier::new();
    assert_eq!(
        verifier.verify_url_token("not base64!", CHAP_HASH, read_payload),
        Err(TokenError::InvalidBase64)
    );
    let mut verifier = TokenVerifier::new();
    assert_eq!(
        verifier.push_key_b64("not base64!"),
        Err(TokenError::InvalidBase64)
    );
}

#[test]
fn no_key_no_entry() {
    let verifier = TokenVerifier::new();
    assert_eq!(
        verifier.verify_token(&[7u8; 64], CHAP_HASH, read_payload),
        Err(TokenError::NoKey)
    );
    // the length of the token is looked at first
    assert_eq!(
        verifier.verify_token(&[7u8; 24], CHAP_HASH, read_payload),
        Err(TokenError::TokenMalformed)
    );
}

#[test]
fn wrong_key_does_not_open() {
    let data = payload(&in_one_hour().to_rfc3339(), CHAP_HASH);
    let (_, token) = PCryptoData::new().key_token_pair(data.as_bytes());
    let (other_key, _) = PCryptoData::new().key_token_pair(&[]);
    let mut verifier = TokenVerifier::new();
    verifier.push_key_b64(&other_key).unwrap();
    assert_eq!(
        verifier.verify_url_token(&token, CHAP_HASH, read_payload),
        Err(TokenError::DecryptFailed)
    );
}

#[test]
fn malformed_key_keeps_the_old_one() {
    let data = payload(&in_one_hour().to_rfc3339(), CHAP_HASH);
    let (token_key, token) = PCryptoData::new().key_token_pair(data.as_bytes());
    let mut verifier = TokenVerifier::new();
    verifier.push_key_b64(&token_key).unwrap();
    assert_eq!(
        verifier.push_key(&[0u8; 31]),
        Err(TokenError::KeyMalformed)
    );
    assert_eq!(
        verifier.verify_url_token(&token, CHAP_HASH, read_payload),
        Ok(())
    );
}

#[test]
fn open_token_gives_the_bytes() {
    let (token_key, token) = PCryptoData::new().key_token_pair(b"hello");
    let mut verifier = TokenVerifier::new();
    verifier.push_key_b64(&token_key).unwrap();
    let bytes = TokenVerifier::decode_b64(&token, true).unwrap();
    assert_eq!(bytes.len(), 24 + 16 + 5);
    assert_eq!(verifier.open_token(&bytes), Ok(b"hello".to_vec()));
}

#[test]
fn payloads_that_cannot_be_read() {
    let crypto = PCryptoData::new();
    let not_utf8: &[u8] = &[0xff, 0xfe];
    let expired_form = payload("tomorrow", CHAP_HASH);
    for data in [not_utf8, b"{}", b"no json", expired_form.as_bytes()] {
        let (token_key, token) = crypto.key_token_pair(data);
        let mut verifier = TokenVerifier::new();
        verifier.push_key_b64(&token_key).unwrap();
        assert_eq!(
            verifier.verify_url_token(&token, CHAP_HASH, read_payload),
            Err(TokenError::InvalidPayload)
        );
    }
}

#[test]
fn text_inside_the_token_reaches_the_reader() {
    let (token_key, token) = PCryptoData::new().key_token_pair("gr\u{fc}n".as_bytes());
    let mut verifier = TokenVerifier::new();
    verifier.push_key_b64(&token_key).unwrap();
    let expires = in_one_hour().to_rfc3339();
    let read = |text: &str| {
        Some(TokenPayload {
            expires: expires.clone(),
            hash: text.to_string(),
        })
    };
    assert_eq!(
        verifier.verify_url_token(&token, "gr\u{fc}n", read),
        Ok(())
    );
}

#[test]
fn other_chapter_and_expired() {
    let crypto = PCryptoData::new();
    let (token_key, token) =
        crypto.key_token_pair(payload(&in_one_hour().to_rfc3339(), "111111").as_bytes());
    let mut verifier = TokenVerifier::new();
    verifier.push_key_b64(&token_key).unwrap();
    assert_eq!(
        verifier.verify_url_token(&token, CHAP_HASH, read_payload),
        Err(TokenError::InvalidChapterHash)
    );
    let (token_key, token) =
        crypto.key_token_pair(payload("2001-01-01T00:00:00Z", CHAP_HASH).as_bytes());
    verifier.push_key_b64(&token_key).unwrap();
    assert_eq!(
        verifier.verify_url_token(&token, CHAP_HASH, read_payload),
        Err(TokenError::TokenExpired)
    );
}

fn judged(expires: &str, now: (i64, u32)) -> Result<(), TokenError> {
    judge_payload(
        Some(TokenPayload {
            expires: expires.to_string(),
            hash: CHAP_HASH.to_string(),
        }),
        CHAP_HASH,
        now,
    )
}

#[test]
fn expiry_is_strict_and_final() {
    // 2021-01-01T00:00:00Z
    let at = 1609459200i64;
    assert_eq!(judged("2021-01-01T00:00:00Z", (at - 1, 999_999_999)), Ok(()));
    assert_eq!(
        judged("2021-01-01T00:00:00Z", (at, 0)),
        Err(TokenError::TokenExpired)
    );
    assert_eq!(
        judged("2021-01-01T00:00:00Z", (at + 1000, 0)),
        Err(TokenError::TokenExpired)
    );
    // the offset counts
    assert_eq!(judged("2021-01-01T00:00:00-01:00", (at, 0)), Ok(()));
    assert_eq!(
        judged("2021-01-01T01:00:00+01:00", (at, 0)),
        Err(TokenError::TokenExpired)
    );
    // fractions count
    assert_eq!(judged("2021-01-01T00:00:00.5Z", (at, 499_999_999)), Ok(()));
    assert_eq!(
        judged("2021-01-01T00:00:00.5Z", (at, 500_000_000)),
        Err(TokenError::TokenExpired)
    );
    // every other error comes at every moment
    for moment in [(at, 0), (at + 1000, 0)] {
        assert_eq!(judged("soon", moment), Err(TokenError::InvalidPayload));
    }
    assert_eq!(
        judge_payload(None, CHAP_HASH, (at, 0)),
        Err(TokenError::InvalidPayload)
    );
}

#[test]
fn token_errors_as_responses() {
    assert_eq!(TokenError::NoKey.to_text(), "TokenError::NoKey");
    assert_eq!(
        TokenError::NonceMalformed.error_response(),
        "error validating provided token (TokenError::NonceMalformed)"
    );
    assert_eq!(TokenError::TokenExpired.status_code(), 410);
    assert_eq!(TokenError::DecryptFailed.status_code(), 400);
}

#[test]
fn pings_hand_over_keys() {
    let (token_key, token) = PCryptoData::new()
        .key_token_pair(payload(&in_one_hour().to_rfc3339(), CHAP_HASH).as_bytes());
    let mut verifier = TokenVerifier::new();
    assert_eq!(ping_backend(&mut verifier, None), Ok(()));
    assert_eq!(
        verifier.verify_url_token(&token, CHAP_HASH, read_payload),
        Err(TokenError::NoKey)
    );
    assert_eq!(ping_backend(&mut verifier, Some(&token_key)), Ok(()));
    assert_eq!(
        ping_backend(&mut verifier, Some("AAAA")),
        Err(TokenError::KeyMalformed)
    );
    assert_eq!(
        verifier.verify_url_token(&token, CHAP_HASH, read_payload),
        Ok(())
    );
}
