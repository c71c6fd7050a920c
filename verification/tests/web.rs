use bytes::Bytes;
use openssl::asn1::Asn1Time;
use openssl::hash::MessageDigest;
use openssl::pkey::{PKey, Private};
use openssl::rsa::Rsa;
use openssl::x509::{X509NameBuilder, X509};
use scalpel::backend::{
    classify_reply, Backend, BackendError, PingReply, PingResponse, PingStore, ReplyKind,
    TlsPayload,
};
use scalpel::cache::entry::ImageEntry;
use scalpel::cache::key::ImageKey;
use scalpel::config::AppConfig;
use scalpel::http::acceptor::{accept_parts, acceptor_parts, split_chain, AcceptorError};
use scalpel::http::chunked::{
    upstream_error_text, BytesAgg, ChunkedUpstreamPoll, UpstreamEvent, UPSTREAM_ERROR_STATUS,
};
use scalpel::http::handler::{
    handle_cache_miss, image_path, is_browser_cached, media_type_or_png, response_from_cache,
    upstream_content_type, upstream_last_modified, upstream_url, EntityTag, HitResponse,
    IfNoneMatch, ImageRequest, Lookup, MissResponse, UpstreamUrlError, NO_UPSTREAM_TEXT,
};
use scalpel::http::server::{
    bind_addr, check_sni, default_headers, server_info, sni_matches, speaks_tls, tls_settings,
    PortBindError, OLD_CIPHERS,
};
use scalpel::http::service::{
    answer_request, md_service, not_found_service, prom_service, MdPathArgs,
};
use scalpel::text::{contains, str_eq, to_decimal, to_hex};
use scalpel::tokens::{TokenError, TokenPayload, TokenVerifier};
use scalpel::utils::Secret;
use std::sync::Arc;

fn config() -> AppConfig {
    AppConfig {
        client_secret: Secret("secret".to_string()),
        max_grace_period: 60,
        skip_tokens: false,
        disable_ssl: false,
        cache_size_mebibytes: 40960,
        cache_engine: "rocksdb".to_string(),
        rocks_opt: None,
        fs_opt: None,
        port: 443,
        bind_address: "127.0.0.1".to_string(),
        worker_threads: None,
        keep_alive: 60,
        enforce_secure_tls: true,
        disable_ad_headers: true,
        reject_invalid_sni: true,
        gzip_compress: false,
        external_ip: None,
        external_port: None,
        external_max_speed: None,
    }
}

fn tls(created_at: &str) -> TlsPayload {
    TlsPayload {
        created_at: created_at.to_string(),
        private_key: "key".to_string(),
        certificate: "cert".to_string(),
    }
}

fn response(image_server: &str, token_key: &str, tls: Option<TlsPayload>) -> PingResponse {
    PingResponse {
        image_server: image_server.to_string(),
        latest_build: 31,
        url: "https://Client.example:443".to_string(),
        token_key: token_key.to_string(),
        compromised: false,
        paused: false,
        client_id: "id".to_string(),
        tls,
    }
}

#[test]
fn ping_requests() {
    let backend = Backend::new(Arc::new(config()));
    let request = backend.ping_request();
    assert_eq!(request.secret, "secret");
    assert_eq!(request.port, 443);
    assert_eq!(request.disk_space, 42_949_672_960);
    assert_eq!(request.network_speed, 0);
    assert_eq!(request.build_version, 31);
    assert_eq!(request.ip_address, None);
    assert_eq!(request.tls_created_at, None);
    assert_eq!(backend.stop_request().secret, "secret");

    let backend = Backend::new(Arc::new(AppConfig {
        external_ip: Some("1.2.3.4".to_string()),
        external_port: Some(8443),
        external_max_speed: Some(81),
        cache_size_mebibytes: u32::MAX,
        ..config()
    }));
    let request = backend.ping_request();
    assert_eq!(request.port, 8443);
    assert_eq!(request.network_speed, 10_125);
    assert_eq!(request.disk_space, 4_503_599_626_321_920);
    assert_eq!(request.ip_address, Some("1.2.3.4".to_string()));
}

#[test]
fn pings_update_the_store() {
    let mut backend = Backend::new(Arc::new(config()));
    assert!(backend.ping_info().is_none());
    assert_eq!(backend.get_upstream(), None);

    let reply = PingReply::Accepted(response("HTTPS://Up.example", "k1", Some(tls("t1"))));
    let (crt, key) = backend.try_ping(reply).unwrap().ok().unwrap();
    assert_eq!(crt.unwrap().created_at, "t1");
    assert_eq!(key, Some("k1".to_string()));
    assert_eq!(backend.get_upstream(), Some("https://up.example/"));
    assert_eq!(backend.ping_info().unwrap().client_url, "https://Client.example:443");
    assert_eq!(backend.ping_request().tls_created_at, Some("t1".to_string()));

    // the same key is not told again, and the certificate stays
    let reply = PingReply::Accepted(response("http://other.example/x", "k1", None));
    let (crt, key) = backend.try_ping(reply).unwrap().ok().unwrap();
    assert!(crt.is_none());
    assert_eq!(key, None);
    assert_eq!(backend.get_upstream(), Some("http://other.example/x"));
    assert_eq!(backend.ping_info().unwrap().tls.created_at, "t1");

    let reply = PingReply::Accepted(response("http://other.example", "k2", Some(tls("t2"))));
    let (crt, key) = backend.ping(reply).ok().unwrap();
    assert_eq!(crt.unwrap().created_at, "t2");
    assert_eq!(key, Some("k2".to_string()));
    assert_eq!(backend.ping_info().unwrap().tls.created_at, "t2");
}

#[test]
fn unusable_replies_change_nothing() {
    let mut backend = Backend::new(Arc::new(config()));
    let reply = PingReply::Accepted(response("https://up.example", "k1", None));
    assert!(backend.try_ping(reply).is_none());
    let reply = PingReply::Accepted(response("no url", "k1", Some(tls("t1"))));
    assert!(backend.try_ping(reply).is_none());
    assert!(backend.try_ping(PingReply::Other(200, None)).is_none());
    assert!(backend.ping_info().is_none());
}

#[test]
fn refused_replies() {
    assert!(classify_reply(200) == ReplyKind::Accepted);
    assert!(classify_reply(401) == ReplyKind::Refused);
    assert!(classify_reply(204) == ReplyKind::Unexpected);

    let mut backend = Backend::new(Arc::new(config()));
    let r = backend.ping(PingReply::Other(401, None));
    assert!(matches!(&r, Err(BackendError::InvalidSecret)));
    assert_eq!(r.err().unwrap().to_text(), "invalid client secret provided");
    let r = backend.ping(PingReply::Other(503, Some("busy".to_string())));
    assert_eq!(
        r.err().unwrap().to_text(),
        "unexpected HTTP response: STATUS_CODE \"503 Service Unavailable\" BODY \"busy\""
    );
    assert!(backend.ping_info().is_none());

    assert!(backend.stop(200, None).is_ok());
    assert!(matches!(backend.stop(401, None), Err(BackendError::InvalidSecret)));
    match backend.stop(500, None) {
        Err(BackendError::UnexpectedResponse(500, body)) => assert_eq!(body, "NO BODY"),
        _ => panic!("the reply is refused"),
    }
}

fn store(upstream: &str, client: &str) -> PingStore {
    PingStore {
        tls: tls("t"),
        token_key: "k".to_string(),
        upstream_url: upstream.to_string(),
        client_url: client.to_string(),
    }
}

#[test]
fn upstream_urls() {
    let key = ImageKey::new("abc".to_string(), "1 2.png".to_string(), true);
    assert_eq!(image_path(&key), "/data-saver/abc/1 2.png");
    let info = store("https://up.example/base/x?y", "https://c.example");
    assert_eq!(
        upstream_url(Some(&info), &key).ok(),
        Some("https://up.example/data-saver/abc/1%202.png".to_string())
    );
    assert!(matches!(upstream_url(None, &key), Err(UpstreamUrlError::NoUpstream)));
    let info = store("mailto:x", "https://c.example");
    let error = upstream_url(Some(&info), &key).err().unwrap();
    assert!(matches!(&error, UpstreamUrlError::Malformed(_)));
    assert_eq!(error.to_text(), "relative URL with a cannot-be-a-base base");
    assert_eq!(UpstreamUrlError::NoUpstream.to_text(), NO_UPSTREAM_TEXT);
    assert_eq!(NO_UPSTREAM_TEXT, "no upstream URL available (how did we get here?)");
}

#[test]
fn upstream_headers() {
    assert_eq!(upstream_content_type(Some("IMAGE/Jpeg")), "image/jpeg");
    assert_eq!(upstream_content_type(Some("nonsense")), "image/png");
    assert_eq!(upstream_content_type(None), "image/png");
    assert_eq!(media_type_or_png(Some("x/y".to_string())), "x/y");
    assert_eq!(media_type_or_png(None), "image/png");
    assert_eq!(
        upstream_last_modified(Some("Sun, 06 Nov 1994 08:49:37 GMT"), 5),
        784_111_777
    );
    assert_eq!(upstream_last_modified(Some("yesterday"), 5), 5);
    assert_eq!(upstream_last_modified(None, 6), 6);
}

#[test]
fn misses() {
    let res = handle_cache_miss(Ok(200));
    assert!(matches!(&res, MissResponse::Proxy));
    assert_eq!((res.status(), res.is_failure()), (200, false));
    let res = handle_cache_miss(Ok(404));
    assert!(matches!(&res, MissResponse::NotFound));
    assert_eq!((res.status(), res.is_failure()), (404, false));
    let res = handle_cache_miss(Ok(301));
    assert_eq!((res.status(), res.is_failure()), (502, true));
    assert!(matches!(res, MissResponse::BadGateway(b)
        if b == "invalid upstream status code: 301 Moved Permanently"));
    let res = handle_cache_miss(Ok(799));
    assert!(matches!(res, MissResponse::BadGateway(b)
        if b == "invalid upstream status code: 799 <unknown status code>"));
    let res = handle_cache_miss(Err("connection refused".to_string()));
    assert_eq!((res.status(), res.is_failure()), (502, true));
    assert!(matches!(res, MissResponse::BadGateway(b) if b == "connection refused"));
}

fn entry() -> ImageEntry {
    ImageEntry::saved_at(Bytes::from("abc"), "image/gif".to_string(), 1)
}

fn tag(weak: bool, tag: &str) -> EntityTag {
    EntityTag {
        weak,
        tag: tag.to_string(),
    }
}

fn hit(gzip: bool, if_none_match: Option<IfNoneMatch>, accept: Option<&str>) -> HitResponse {
    let req = ImageRequest {
        if_none_match,
        accept_encoding: accept.map(|a| a.to_string()),
    };
    match response_from_cache(gzip, &req, Some(entry())) {
        Lookup::Hit(res) => res,
        Lookup::Miss => panic!("the image was found"),
    }
}

fn headers_of_a_hit() -> Vec<(&'static str, String)> {
    vec![
        ("Content-Type", "image/gif".to_string()),
        ("ETag", format!("\"{}\"", entry().get_checksum_hex())),
        ("Vary", "Accept-Encoding".to_string()),
        ("X-Cache", "HIT".to_string()),
    ]
}

#[test]
fn hits_send_the_image() {
    let res = hit(true, None, Some("deflate"));
    assert_eq!(res.status, 200);
    assert_eq!(res.content_type, "image/gif");
    assert_eq!(res.etag, entry().get_checksum_hex());
    assert_eq!(res.body, Some(Bytes::from("abc")));
    assert_eq!(res.bytes_up, 3);
    assert_eq!(res.headers, headers_of_a_hit());
    assert!(!res.gzip);
    assert!(hit(true, None, Some("deflate, gzip;q=0.5")).gzip);
    assert!(!hit(false, None, Some("gzip")).gzip);
    assert!(!hit(true, None, None).gzip);
    let none = ImageRequest {
        if_none_match: None,
        accept_encoding: None,
    };
    assert!(matches!(response_from_cache(true, &none, None), Lookup::Miss));
}

#[test]
fn known_images_are_not_sent_again() {
    let etag = entry().get_checksum_hex();
    let items = vec![tag(false, "other"), tag(false, &etag)];
    let res = hit(true, Some(IfNoneMatch::Items(items)), Some("gzip"));
    assert_eq!(res.status, 304);
    assert_eq!(res.etag, etag);
    assert_eq!(res.body, None);
    assert_eq!(res.bytes_up, 0);
    assert_eq!(res.headers, headers_of_a_hit());
    assert!(!res.gzip);
    assert_eq!(hit(true, Some(IfNoneMatch::Any), None).status, 200);
    let weak = IfNoneMatch::Items(vec![tag(true, &etag)]);
    assert_eq!(hit(true, Some(weak), None).status, 200);
    assert!(!is_browser_cached(&Some(IfNoneMatch::Items(vec![])), &etag));
    assert!(etag.chars().all(|c| c.is_ascii_digit() || ('a'..='f').contains(&c)));
}

#[test]
fn gathering_bytes() {
    let mut agg = BytesAgg::new(2);
    assert!(agg.put(b"abc"));
    assert!(agg.put(b"de"));
    assert_eq!(agg.len(), 5);
    assert!(!agg.is_poisoned());
    assert_eq!(agg.take(), Some(Bytes::from("abcde")));
    assert_eq!(agg.len(), 0);
    assert!(!agg.put(b"f"));
    assert_eq!(agg.take(), None);
    agg.poison();
    assert!(agg.is_poisoned());
    assert!(!agg.put(b"f"));
    assert_eq!(agg.take(), None);
    assert!(agg.is_poisoned());
}

fn chunk(text: &'static str) -> UpstreamEvent {
    UpstreamEvent::Chunk(Bytes::from(text))
}

#[test]
fn complete_streams_are_saved() {
    let mut stream = ChunkedUpstreamPoll::new(0);
    assert!(matches!(stream.poll_next(chunk("ab")), UpstreamEvent::Chunk(b) if &b[..] == b"ab"));
    assert!(matches!(stream.poll_next(UpstreamEvent::Pending), UpstreamEvent::Pending));
    stream.poll_next(chunk("c"));
    assert_eq!(stream.gathered_len(), 3);
    assert!(matches!(stream.poll_next(UpstreamEvent::End), UpstreamEvent::End));
    let closing = stream.close();
    assert_eq!(closing.save, Some(Bytes::from("abc")));
    assert_eq!(closing.transferred, Some(3));
    assert!(!closing.failed);
    // a second time there is nothing to do
    let closing = stream.close();
    assert_eq!(closing.save, None);
    assert_eq!(closing.transferred, None);
    assert!(!closing.failed);
}

#[test]
fn incomplete_streams_are_not_saved() {
    let mut stream = ChunkedUpstreamPoll::new(0);
    stream.poll_next(chunk("ab"));
    let closing = stream.close();
    assert_eq!(closing.save, None);
    assert_eq!(closing.transferred, Some(2));
    assert!(!closing.failed);
}

#[test]
fn failed_streams_are_not_saved() {
    let mut stream = ChunkedUpstreamPoll::new(0);
    stream.poll_next(chunk("ab"));
    assert!(matches!(stream.poll_next(UpstreamEvent::Error), UpstreamEvent::Error));
    stream.poll_next(chunk("c"));
    stream.poll_next(UpstreamEvent::End);
    assert_eq!(stream.gathered_len(), 0);
    let closing = stream.close();
    assert_eq!(closing.save, None);
    assert_eq!(closing.transferred, None);
    assert!(closing.failed);
    assert_eq!(UPSTREAM_ERROR_STATUS, 502);
    assert_eq!(upstream_error_text("broken"), "upstream error: broken");
}

fn args(token: Option<&str>, archive: &str) -> MdPathArgs {
    MdPathArgs {
        token: token.map(|t| t.to_string()),
        archive_type: archive.to_string(),
        chap_hash: "hash".to_string(),
        image: "1.png".to_string(),
    }
}

fn no_payload(_: &str) -> Option<TokenPayload> {
    None
}

#[test]
fn archives_are_checked_first() {
    let verifier = TokenVerifier::new();
    let r = md_service(args(None, "music"), true, &verifier, no_payload);
    let reply = r.err().unwrap();
    assert_eq!(reply.status, 404);
    assert_eq!(
        reply.body,
        "invalid archive type. must be one of [\"data\", \"data-saver\"]"
    );
}

#[test]
fn tokens_are_checked_unless_skipped() {
    let verifier = TokenVerifier::new();
    let key = md_service(args(None, "data"), true, &verifier, no_payload).ok().unwrap();
    assert_eq!(
        (key.chapter(), key.image(), key.archive_name()),
        ("hash", "1.png", "data")
    );
    let key = md_service(args(Some("?"), "data-saver"), true, &verifier, no_payload).ok().unwrap();
    assert_eq!(key.archive_name(), "data-saver");

    let reply = md_service(args(None, "data"), false, &verifier, no_payload).err().unwrap();
    assert_eq!((reply.status, reply.body.as_str()), (401, "no token provided"));
    let reply = md_service(args(Some("?"), "data"), false, &verifier, no_payload).err().unwrap();
    assert_eq!(
        (reply.status, reply.body.as_str()),
        (400, "error validating provided token (TokenError::InvalidBase64)")
    );
}

#[test]
fn only_good_tokens_are_served() {
    let token = || args(Some("t"), "data");
    assert!(answer_request(token(), false, Some(Ok(()))).is_ok());
    let expired = Some(Err(TokenError::TokenExpired));
    let reply = answer_request(token(), false, expired).err().unwrap();
    assert_eq!(
        (reply.status, reply.body.as_str()),
        (410, "error validating provided token (TokenError::TokenExpired)")
    );
    assert!(answer_request(token(), true, expired).is_ok());
    assert!(answer_request(token(), true, None).is_ok());
    assert!(answer_request(token(), false, None).is_err());
}

#[test]
fn other_services() {
    let reply = not_found_service();
    assert_eq!((reply.status, reply.body.as_str()), (404, "no valid route found"));
    let reply = prom_service(Ok("metrics".to_string()));
    assert_eq!((reply.status, reply.body.as_str()), (200, "metrics"));
    let reply = prom_service(Err("bad".to_string()));
    assert_eq!((reply.status, reply.body.as_str()), (500, "error encoding metrics: bad"));
}

#[test]
fn headers_of_the_server() {
    assert_eq!(
        server_info("1.0.0", "https://repo.example"),
        "Scalpel MD@Home v1.0.0 (31) - https://repo.example"
    );
    assert_eq!(bind_addr(&config()), "127.0.0.1:443");
    assert!(speaks_tls(&config()));
    assert!(!speaks_tls(&AppConfig {
        disable_ssl: true,
        ..config()
    }));
    let required = vec![
        ("X-Content-Type-Options", "nosniff".to_string()),
        ("Access-Control-Allow-Origin", "*".to_string()),
        ("Access-Control-Expose-Headers", "*".to_string()),
        ("Access-Control-Expose-Methods", "GET".to_string()),
        ("Cache-Control", "public, max-age=1209600".to_string()),
        ("Timing-Allow-Origin", "*".to_string()),
    ];
    assert_eq!(default_headers(&config(), "1.0.0", "u"), required);
    let advertising = AppConfig {
        disable_ad_headers: false,
        ..config()
    };
    let mut all = required;
    all.push(("Server", "Scalpel MD@Home v1.0.0 (31) - u".to_string()));
    all.push(("X-Powered-By", "Actix Web".to_string()));
    all.push(("X-Version", "1.0.0".to_string()));
    assert_eq!(default_headers(&advertising, "1.0.0", "u"), all);
}

#[test]
fn server_names() {
    let info = store("https://up.example", "https://Client.example:443/x");
    assert!(check_sni(Some(&info), Some("client.example")));
    assert!(check_sni(Some(&info), Some("localhost")));
    assert!(check_sni(None, Some("localhost")));
    assert!(!check_sni(Some(&info), Some("other.example")));
    assert!(!check_sni(Some(&info), None));
    assert!(!check_sni(None, Some("client.example")));
    let info = store("https://up.example", "no url");
    assert!(!check_sni(Some(&info), Some("no url")));
    assert!(sni_matches(Some("a"), Some("a")));
    assert!(!sni_matches(Some("scalpel"), Some("a")));
}

#[test]
fn settings_of_tls() {
    let settings = tls_settings(&config());
    assert_eq!(settings.old_ciphers, None);
    assert_eq!(settings.session_cache_size, 4096);
    assert!(settings.check_sni);
    let settings = tls_settings(&AppConfig {
        enforce_secure_tls: false,
        reject_invalid_sni: false,
        ..config()
    });
    assert_eq!(settings.old_ciphers, Some(OLD_CIPHERS));
    assert!(!settings.check_sni);
    assert_eq!(OLD_CIPHERS.split(':').count(), 26);
    assert!(OLD_CIPHERS.starts_with("ECDHE-ECDSA-AES128-GCM-SHA256:"));
    assert!(OLD_CIPHERS.ends_with(":DES-CBC3-SHA"));
    assert_eq!(
        PortBindError("in use".to_string()).to_text(),
        "error binding HTTP server to port (base: in use)"
    );
}

#[test]
fn texts() {
    assert!(str_eq("gr\u{fc}n", "gr\u{fc}n"));
    assert!(!str_eq("a", "ab"));
    assert!(!str_eq("ab", "ac"));
    assert!(contains("deflate, gzip", "gzip"));
    assert!(contains("x", ""));
    assert!(!contains("gzi", "gzip"));
    assert!(!contains("", "a"));
    assert_eq!(to_decimal(0), "0");
    assert_eq!(to_decimal(10), "10");
    assert_eq!(to_decimal(u64::MAX), "18446744073709551615");
    assert_eq!(to_hex(&[0, 0x0f, 0xa5]), "000fa5");
}

#[test]
fn certificates_hide_their_keys() {
    assert_eq!(tls("now").debug_text(), "TlsPayload { created_at: \"now\" }");
    assert_eq!(tls("a\"b").debug_text(), "TlsPayload { created_at: \"a\\\"b\" }");
}

fn certificate(name: &str, key: &PKey<Private>) -> X509 {
    let mut subject = X509NameBuilder::new().unwrap();
    subject.append_entry_by_text("CN", name).unwrap();
    let subject = subject.build();
    let mut builder = X509::builder().unwrap();
    builder.set_subject_name(&subject).unwrap();
    builder.set_issuer_name(&subject).unwrap();
    builder.set_pubkey(key).unwrap();
    builder.set_not_before(&Asn1Time::days_from_now(0).unwrap()).unwrap();
    builder.set_not_after(&Asn1Time::days_from_now(1).unwrap()).unwrap();
    builder.sign(key, MessageDigest::sha256()).unwrap();
    builder.build()
}

fn pem_payload(certs: &[&X509], key: &str) -> TlsPayload {
    let pem: Vec<u8> = certs.iter().flat_map(|c| c.to_pem().unwrap()).collect();
    TlsPayload {
        created_at: "now".to_string(),
        private_key: key.to_string(),
        certificate: String::from_utf8(pem).unwrap(),
    }
}

#[test]
fn the_first_certificate_is_the_leaf() {
    let rsa = Rsa::generate(2048).unwrap();
    let key_pem = String::from_utf8(rsa.private_key_to_pem().unwrap()).unwrap();
    let key_der = rsa.private_key_to_der().unwrap();
    let key = PKey::from_rsa(rsa).unwrap();
    let certs = [
        certificate("a", &key),
        certificate("b", &key),
        certificate("c", &key),
    ];
    let der = |i: usize| certs[i].to_der().unwrap();

    let parts = acceptor_parts(&pem_payload(&[&certs[1], &certs[0], &certs[2]], &key_pem))
        .ok()
        .unwrap();
    assert_eq!(parts.leaf, Some(der(1)));
    assert_eq!(parts.chain, vec![der(0), der(2)]);
    assert_eq!(parts.key, key_der);

    let parts = acceptor_parts(&pem_payload(&[&certs[2]], &key_pem)).ok().unwrap();
    assert_eq!(parts.leaf, Some(der(2)));
    assert!(parts.chain.is_empty());

    // no certificate at all is no error yet
    let parts = acceptor_parts(&pem_payload(&[], &key_pem)).ok().unwrap();
    assert_eq!(parts.leaf, None);
    assert!(parts.chain.is_empty());
    assert_eq!(parts.key, key_der);

    // a key of another certificate
    let other = Rsa::generate(2048).unwrap().private_key_to_pem().unwrap();
    let other = String::from_utf8(other).unwrap();
    let error = acceptor_parts(&pem_payload(&[&certs[0]], &other)).err().unwrap();
    assert!(matches!(&error, AcceptorError::Mismatch));
    assert_eq!(error.to_text(), "key values mismatch");

    // a key that cannot be read
    let r = acceptor_parts(&pem_payload(&[&certs[0]], "no key"));
    assert!(matches!(r, Err(AcceptorError::Key(_))));

    // certificates that cannot be read are found first
    let mut broken = pem_payload(&[&certs[0]], "no key");
    broken.certificate = "-----BEGIN CERTIFICATE-----\nAAAA\n-----END CERTIFICATE-----\n".to_string();
    assert!(matches!(acceptor_parts(&broken), Err(AcceptorError::Certificate(_))));
}

#[test]
fn chains_are_split_after_the_first_certificate() {
    let parts = split_chain(Ok(vec![vec![1], vec![2], vec![3]]), Ok(vec![9])).ok().unwrap();
    assert_eq!(parts.leaf, Some(vec![1]));
    assert_eq!(parts.chain, vec![vec![2], vec![3]]);
    assert_eq!(parts.key, vec![9]);
    let r = split_chain(Err("x".to_string()), Err("y".to_string()));
    assert_eq!(r.err().unwrap().to_text(), "x");
    let r = split_chain(Ok(vec![]), Err("y".to_string()));
    assert_eq!(r.err().unwrap().to_text(), "y");
}

#[test]
fn a_reply_taken_over_twice_changes_nothing() {
    let mut backend = Backend::new(Arc::new(config()));
    let reply = || PingReply::Accepted(response("https://up.example", "k1", Some(tls("t1"))));
    let (_, key) = backend.ping(reply()).ok().unwrap();
    assert_eq!(key, Some("k1".to_string()));
    let (_, key) = backend.ping(reply()).ok().unwrap();
    assert_eq!(key, None);
    let info = backend.ping_info().unwrap();
    assert_eq!(info.tls.created_at, "t1");
    assert_eq!(info.token_key, "k1");
    assert_eq!(info.upstream_url, "https://up.example/");
    assert_eq!(info.client_url, "https://Client.example:443");
}

#[test]
fn only_good_replies_change_what_is_known() {
    let mut backend = Backend::new(Arc::new(config()));
    assert!(backend.ping(PingReply::Other(500, None)).is_err());
    assert_eq!(backend.ping_request().tls_created_at, None);
    assert_eq!(backend.get_upstream(), None);
    let good = PingReply::Accepted(response("https://a.example", "k", Some(tls("t1"))));
    assert!(backend.ping(good).is_ok());
    let good = PingReply::Accepted(response("https://b.example", "k", None));
    assert!(backend.ping(good).is_ok());
    assert!(backend.ping(PingReply::Other(401, None)).is_err());
    assert!(backend.try_ping(PingReply::Accepted(response("?", "k", Some(tls("t2"))))).is_none());
    assert!(backend.stop(200, None).is_ok());
    assert_eq!(backend.ping_request().tls_created_at, Some("t1".to_string()));
    assert_eq!(backend.get_upstream(), Some("https://b.example/"));
}

#[test]
fn keys_have_to_match_the_certificate() {
    let parts = |certs| split_chain(Ok(certs), Ok(vec![9])).ok().unwrap();
    let one = || vec![vec![1u8]];
    assert!(accept_parts(parts(one()), Some(true)).is_ok());
    assert!(matches!(accept_parts(parts(one()), Some(false)), Err(AcceptorError::Mismatch)));
    assert!(matches!(accept_parts(parts(one()), None), Err(AcceptorError::Mismatch)));
    assert!(accept_parts(parts(vec![]), None).is_ok());
}

#[test]
fn addresses_of_the_backend() {
    assert_eq!(Backend::ping_url(), Ok("https://api.mangadex.network/ping".to_string()));
    assert_eq!(Backend::stop_url(), Ok("https://api.mangadex.network/stop".to_string()));
}

#[test]
fn headers_of_misses() {
    let headers = handle_cache_miss(Ok(200)).headers("image/jpeg", 784_111_777);
    assert_eq!(
        headers,
        vec![
            ("Content-Type", "image/jpeg".to_string()),
            ("Last-Modified", "Sun, 06 Nov 1994 08:49:37 GMT".to_string()),
            ("X-Cache", "MISS".to_string()),
        ]
    );
    assert!(handle_cache_miss(Ok(404)).headers("image/jpeg", 0).is_empty());
    assert!(handle_cache_miss(Err("x".to_string())).headers("image/jpeg", 0).is_empty());
}

fn header_values(values: &[&str]) -> Vec<Vec<u8>> {
    values.iter().map(|v| v.as_bytes().to_vec()).collect()
}

#[test]
fn if_none_match_is_read() {
    let read = |values: &[&str]| ImageRequest::read(&header_values(values), None).if_none_match;
    assert!(read(&[]).is_none());
    assert!(matches!(read(&["*"]), Some(IfNoneMatch::Any)));
    assert!(matches!(read(&[" * ", "\"a\""]), Some(IfNoneMatch::Any)));
    match read(&["\"a\", W/\"b\", nonsense", "\"c\""]) {
        Some(IfNoneMatch::Items(items)) => {
            let items: Vec<(bool, &str)> = items.iter().map(|t| (t.weak, t.tag.as_str())).collect();
            assert_eq!(items, vec![(false, "a"), (true, "b"), (false, "c")]);
        }
        _ => panic!("the header lists tags"),
    }
    // a value that is no visible text, and one that is no value of a header
    assert!(ImageRequest::read(&vec![vec![0xff]], None).if_none_match.is_none());
    assert!(ImageRequest::read(&vec![b"a\nb".to_vec()], None).if_none_match.is_none());

    let etag = entry().get_checksum_hex();
    let known = header_values(&[format!("\"{}\"", etag).as_str()]);
    let req = ImageRequest::read(&known, Some("gzip".to_string()));
    assert_eq!(req.accept_encoding, Some("gzip".to_string()));
    assert!(is_browser_cached(&req.if_none_match, &etag));
}

#[test]
fn one_reply_updates_once() {
    let mut backend = Backend::new(Arc::new(config()));
    let res = response("https://up.example", "k1", Some(tls("t1")));
    assert_eq!(backend.update_from_response(&res), Some("k1".to_string()));
    assert_eq!(backend.update_from_response(&res), None);
    assert_eq!(backend.get_upstream(), Some("https://up.example/"));
}
