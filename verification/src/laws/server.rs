//! Laws of the server: its headers, its address, and TLS.

use crate::backend::{PingStore, TlsPayload};
use crate::config::AppConfig;
use crate::http::acceptor::{
    accept_parts, acceptor_parts, split_chain, text_bytes, AcceptorError, AcceptorParts,
};
use crate::http::server::{
    bind_addr, check_sni, default_headers, server_info, sni_matches, speaks_tls, tls_settings,
    Header, PortBindError, TlsSettings,
};
use crate::laws::images::has_header;
use crate::laws::text::number_of;
use crate::outside::pem::{
    chain_of, chain_parsed, ders, key_of, keys_equal, may_ask_for_passphrase, rsa_parsed,
};
use crate::outside::web::url_host;
use crate::text::to_decimal;
use vstd::prelude::*;

verus! {

proof fn lemma_has(headers: Seq<Header>, i: int, name: Seq<char>, value: Seq<char>)
    requires
        0 <= i < headers.len(),
        crate::http::server::headers_text(headers)[i] == (name, value),
    ensures
        has_header(headers, name, value),
{
    assert(headers[i].0@ == name && headers[i].1@ == value);
}

/// Every response has the headers that the network asks for, and those that advertise the server
/// unless that is disabled.
pub proof fn headers_are_complete(
    config: &AppConfig,
    version: &str,
    url: &str,
    headers: Vec<Header>,
    info: String,
)
    requires
        call_ensures(default_headers, (config, version, url), headers),
        call_ensures(server_info, (version, url), info),
    ensures
        has_header(headers@, "X-Content-Type-Options"@, "nosniff"@),
        has_header(headers@, "Access-Control-Allow-Origin"@, "*"@),
        has_header(headers@, "Access-Control-Expose-Headers"@, "*"@),
        has_header(headers@, "Access-Control-Expose-Methods"@, "GET"@),
        has_header(headers@, "Cache-Control"@, "public, max-age=1209600"@),
        has_header(headers@, "Timing-Allow-Origin"@, "*"@),
        config.disable_ad_headers ==> headers@.len() == 6,
        !config.disable_ad_headers ==> {
            &&& headers@.len() == 9
            &&& has_header(headers@, "Server"@, info@)
            &&& has_header(headers@, "X-Powered-By"@, "Actix Web"@)
            &&& has_header(headers@, "X-Version"@, version@)
        },
{
    let text = crate::http::server::headers_text(headers@);
    assert(text.len() == headers@.len());
    lemma_has(headers@, 0, "X-Content-Type-Options"@, "nosniff"@);
    lemma_has(headers@, 1, "Access-Control-Allow-Origin"@, "*"@);
    lemma_has(headers@, 2, "Access-Control-Expose-Headers"@, "*"@);
    lemma_has(headers@, 3, "Access-Control-Expose-Methods"@, "GET"@);
    lemma_has(headers@, 4, "Cache-Control"@, "public, max-age=1209600"@);
    lemma_has(headers@, 5, "Timing-Allow-Origin"@, "*"@);
    if !config.disable_ad_headers {
        lemma_has(headers@, 6, "Server"@, info@);
        lemma_has(headers@, 7, "X-Powered-By"@, "Actix Web"@);
        lemma_has(headers@, 8, "X-Version"@, version@);
    }
}

/// The server describes itself by its name, its version, the version of the protocol, and its origin.
pub proof fn the_server_describes_itself(version: &str, url: &str, info: String, protocol: String)
    requires
        call_ensures(server_info, (version, url), info),
        call_ensures(to_decimal, (31,), protocol),
    ensures
        info@ == "Scalpel MD@Home v"@ + version@ + " ("@ + protocol@ + ") - "@ + url@,
{
    reveal_strlit("Scalpel MD@Home");
    reveal_strlit(" v");
    reveal_strlit("Scalpel MD@Home v");
    assert("Scalpel MD@Home"@ + " v"@ =~= "Scalpel MD@Home v"@);
    assert(info@ =~= "Scalpel MD@Home v"@ + version@ + " ("@ + protocol@ + ") - "@ + url@);
}

/// The server is bound to the configured address and port, and speaks TLS unless that is disabled.
pub proof fn the_server_is_bound_as_configured(
    config: &AppConfig,
    addr: String,
    port: String,
    tls: bool,
)
    requires
        call_ensures(bind_addr, (config,), addr),
        call_ensures(to_decimal, (config.port as u64,), port),
        call_ensures(speaks_tls, (config,), tls),
    ensures
        addr@ == config.bind_address@ + ":"@ + port@,
        number_of(port@) == config.port,
        tls != config.disable_ssl,
{
    crate::laws::text::decimals_denote_their_number(config.port as u64, port);
}

/// A client is let in exactly if it asks for `localhost`, or for the host in the URL that the backend
/// gave this client.
pub proof fn clients_ask_for_this_server(
    info: Option<&PingStore>,
    name: Option<&str>,
    accepted: bool,
    host: Option<&str>,
    matched: bool,
)
    requires
        call_ensures(check_sni, (info, name), accepted),
        call_ensures(sni_matches, (name, host), matched),
    ensures
        name is None ==> !accepted && !matched,
        name matches Some(n) ==> n@ == "localhost"@ ==> accepted && matched,
        name matches Some(n) ==> n@ != "localhost"@ ==> accepted == (info matches Some(store)
            && url_host(store.client_url@) == Some(n@)),
        name matches Some(n) ==> n@ != "localhost"@ ==> matched == (host matches Some(h) && h@
            == n@),
{
}

/// The old ciphers are allowed unless secure TLS is enforced, and server names are checked where that
/// is configured.
pub proof fn tls_is_set_up_as_configured(config: &AppConfig, settings: TlsSettings)
    requires
        call_ensures(tls_settings, (config,), settings),
    ensures
        settings.old_ciphers is None == config.enforce_secure_tls,
        settings.session_cache_size == 4096,
        settings.check_sni == config.reject_invalid_sni,
{
}

/// A port that cannot be bound is told with its cause.
pub proof fn bind_errors_tell_their_cause(error: PortBindError, text: String)
    requires
        call_ensures(PortBindError::to_text, (&error,), text),
    ensures
        text@ == "error binding HTTP server to port (base: "@ + error.0@ + ")"@,
{
}

/// The certificates of a payload are all used, in order: the first is that of the server, the others
/// are its chain. Where the certificates or the key cannot be read there are no parts.
pub proof fn certificates_are_all_used(
    all: Result<Vec<Vec<u8>>, String>,
    key: Result<Vec<u8>, String>,
    r: Result<AcceptorParts, AcceptorError>,
)
    requires
        call_ensures(split_chain, (all, key), r),
    ensures
        r is Ok == (all is Ok && key is Ok),
        r matches Ok(parts) ==> {
            &&& ders(all->Ok_0@) == (match parts.leaf {
                Some(leaf) => seq![leaf@],
                None => seq![],
            }) + ders(parts.chain@)
            &&& parts.leaf is None ==> parts.chain@.len() == 0
            &&& parts.key@ == key->Ok_0@
        },
        all matches Err(text) ==> r == Err::<AcceptorParts, AcceptorError>(
            AcceptorError::Certificate(text),
        ),
        all is Ok && key is Err ==> r == Err::<AcceptorParts, AcceptorError>(
            AcceptorError::Key(key->Err_0),
        ),
{
    if all is Ok && key is Ok {
        let given = ders(all->Ok_0@);
        assert(chain_of(all) == Some(given));
        assert(key_of(key) == Some(key->Ok_0@));
        let parts = r->Ok_0;
        assert(ders(parts.chain@).len() == parts.chain@.len());
        if given.len() > 0 {
            assert(seq![parts.leaf->0@] + ders(parts.chain@) =~= given);
        } else {
            assert(seq![] + ders(parts.chain@) =~= given);
        }
    }
}

/// Parts with a certificate are accepted only if the key was found to be that of the certificate.
pub proof fn keys_have_to_fit(
    parts: AcceptorParts,
    equal: Option<bool>,
    r: Result<AcceptorParts, AcceptorError>,
)
    requires
        call_ensures(accept_parts, (parts, equal), r),
    ensures
        r is Ok == (parts.leaf is None || equal == Some(true)),
        r matches Ok(accepted) ==> accepted == parts,
        r matches Err(e) ==> e is Mismatch,
{
}

/// The parts of a payload that is not encrypted are the certificates and the key that are in it, and
/// the key is that of the first certificate.
pub proof fn payloads_are_read(
    cert: &TlsPayload,
    r: Result<AcceptorParts, AcceptorError>,
)
    requires
        call_ensures(acceptor_parts, (cert,), r),
        !may_ask_for_passphrase(text_bytes(cert.certificate)),
        !may_ask_for_passphrase(text_bytes(cert.private_key)),
    ensures
        r matches Ok(parts) ==> {
            &&& chain_parsed(text_bytes(cert.certificate)) == Some(
                (match parts.leaf {
                    Some(leaf) => seq![leaf@],
                    None => seq![],
                }) + ders(parts.chain@),
            )
            &&& rsa_parsed(text_bytes(cert.private_key)) == Some(parts.key@)
            &&& parts.leaf matches Some(leaf) ==> keys_equal(leaf@, parts.key@) == Some(true)
        },
        r matches Err(e) ==> {
            &&& e is Certificate == chain_parsed(text_bytes(cert.certificate)) is None
            &&& e is Key ==> rsa_parsed(text_bytes(cert.private_key)) is None
            &&& e is Mismatch ==> keys_equal(
                chain_parsed(text_bytes(cert.certificate))->0[0],
                rsa_parsed(text_bytes(cert.private_key))->0,
            ) != Some(true)
        },
{
    if let Ok(parts) = r {
        let given = chain_parsed(text_bytes(cert.certificate))->0;
        if given.len() > 0 {
            assert(seq![parts.leaf->0@] + ders(parts.chain@) =~= given);
        } else {
            assert(seq![] + ders(parts.chain@) =~= given);
        }
    }
}

/// Parts that cannot be used tell their cause.
pub proof fn acceptor_errors_tell_their_cause(error: AcceptorError, text: String)
    requires
        call_ensures(AcceptorError::to_text, (&error,), text),
    ensures
        error matches AcceptorError::Certificate(base) ==> text@ == base@,
        error matches AcceptorError::Key(base) ==> text@ == base@,
        error is Mismatch ==> text@ == "key values mismatch"@,
{
}

} // verus!
