//! Laws of the exchange with the backend, as it is seen through the functions of the client.

use crate::backend::{
    classify_reply, Backend, BackendError, PingReply, PingRequest, PingResponse, PingStore,
    ReplyKind, StopRequest, TlsPayload,
};
use crate::config::AppConfig;
use crate::outside::text::debug_form;
use crate::outside::web::{status_text, url_parsed, url_resolved};
use std::sync::Arc;
use vstd::prelude::*;

verus! {

/// A ping tells what is configured: the secret, the outer port, the size of the cache in bytes, the
/// network speed in bytes per second, and the outer address.
pub proof fn pings_tell_the_configuration(
    config: Arc<AppConfig>,
    backend: Backend,
    request: PingRequest,
    stop: StopRequest,
)
    requires
        call_ensures(Backend::new, (config,), backend),
        call_ensures(Backend::ping_request, (&backend,), request),
        call_ensures(Backend::stop_request, (&backend,), stop),
    ensures
        request.secret@ == config.client_secret.0@,
        stop.secret@ == config.client_secret.0@,
        request.port == if config.external_port is Some {
            config.external_port->0
        } else {
            config.port
        },
        request.disk_space == 1048576 * config.cache_size_mebibytes,
        config.external_max_speed matches Some(kilobits) ==> request.network_speed * 8 <= kilobits
            * 1000 < request.network_speed * 8 + 8,
        config.external_max_speed is None ==> request.network_speed == 0,
        request.build_version == 31,
        request.ip_address == config.external_ip,
        request.tls_created_at is None,
{
}

/// The messages go to the backend, to one path each.
pub proof fn messages_have_their_address(
    ping: Result<String, String>,
    stop: Result<String, String>,
)
    requires
        call_ensures(Backend::ping_url, (), ping),
        call_ensures(Backend::stop_url, (), stop),
    ensures
        match url_resolved("https://api.mangadex.network"@, "/ping"@) {
            Ok(url) => ping matches Ok(u) && u@ == url,
            Err(e) => ping matches Err(text) && text@ == e,
        },
        match url_resolved("https://api.mangadex.network"@, "/stop"@) {
            Ok(url) => stop matches Ok(u) && u@ == url,
            Err(e) => stop matches Err(text) && text@ == e,
        },
{
}

/// Before the first ping nothing is known.
pub proof fn nothing_is_known_at_first(
    config: Arc<AppConfig>,
    backend: Backend,
    info: Option<&PingStore>,
    url: Option<&str>,
)
    requires
        call_ensures(Backend::new, (config,), backend),
        call_ensures(Backend::ping_info, (&backend,), info),
        call_ensures(Backend::get_upstream, (&backend,), url),
    ensures
        info is None,
        url is None,
{
}

/// After a good reply everything in it is known, the certificate that it brings is handed out, and its
/// token key is handed out exactly if it was not known before. A certificate that was known stays
/// where the reply brings none. The configuration stays.
pub proof fn good_replies_are_taken_over(
    backend: &mut Backend,
    res: PingResponse,
    before: Option<&PingStore>,
    request_before: PingRequest,
    r: Result<(Option<TlsPayload>, Option<String>), BackendError>,
    after: Option<&PingStore>,
    url: Option<&str>,
    request: PingRequest,
)
    requires
        call_ensures(Backend::ping_info, (&*old(backend),), before),
        call_ensures(Backend::ping_request, (&*old(backend),), request_before),
        res.tls is Some || before is Some,
        url_parsed(res.image_server@) is Some,
        call_ensures(Backend::ping, (backend, PingReply::Accepted(res)), r),
        call_ensures(Backend::ping_info, (&*final(backend),), after),
        call_ensures(Backend::get_upstream, (&*final(backend),), url),
        call_ensures(Backend::ping_request, (&*final(backend),), request),
    ensures
        r is Ok,
        r->Ok_0.0 == res.tls,
        r->Ok_0.1 is None <==> before is Some && before->0.token_key@ == res.token_key@,
        r->Ok_0.1 matches Some(key) ==> key@ == res.token_key@,
        after is Some,
        after->0.token_key@ == res.token_key@,
        after->0.client_url@ == res.url@,
        Some(after->0.upstream_url@) == url_parsed(res.image_server@),
        url is Some,
        Some(url->0@) == url_parsed(res.image_server@),
        res.tls matches Some(tls) ==> after->0.tls == tls,
        res.tls is None ==> after->0.tls == before->0.tls,
        request.tls_created_at == Some(after->0.tls.created_at),
        request.secret@ == request_before.secret@,
        request.port == request_before.port,
{
}

/// A response that can be taken over is taken over whole: its key, its addresses, and its certificate
/// where it has one. The key is handed out exactly if it was not known before.
pub proof fn responses_are_taken_over(
    backend: &mut Backend,
    res: &PingResponse,
    before: Option<&PingStore>,
    key: Option<String>,
    after: Option<&PingStore>,
)
    requires
        call_ensures(Backend::ping_info, (&*old(backend),), before),
        call_ensures(Backend::update_from_response, (backend, res), key),
        call_ensures(Backend::ping_info, (&*final(backend),), after),
    ensures
        final(backend).config() == old(backend).config(),
        key is None <==> before is Some && before->0.token_key@ == res.token_key@,
        key matches Some(k) ==> k@ == res.token_key@,
        after is Some,
        after->0.token_key@ == res.token_key@,
        after->0.client_url@ == res.url@,
        Some(after->0.upstream_url@) == url_parsed(res.image_server@),
        res.tls matches Some(tls) ==> after->0.tls == tls,
        res.tls is None && before is Some ==> after->0.tls == before->0.tls,
{
}

/// A reply that is not good changes nothing. One that says the secret is not known is told as such, any
/// other with its status and its body.
pub proof fn other_replies_change_nothing(
    backend: &mut Backend,
    status: u16,
    body: Option<String>,
    r: Result<(Option<TlsPayload>, Option<String>), BackendError>,
)
    requires
        status != 200,
        call_ensures(Backend::ping, (backend, PingReply::Other(status, body)), r),
    ensures
        *final(backend) == *old(backend),
        r is Err,
        status == 401 <==> r->Err_0 is InvalidSecret,
        status != 401 ==> {
            &&& r->Err_0 matches BackendError::UnexpectedResponse(s, text)
            &&& s == status
            &&& text@ == if body is Some {
                body->0@
            } else {
                "NO BODY"@
            }
        },
{
}

/// A reply is taken over on trial exactly if it can be: a good one needs a certificate, from it or from
/// before, and a well formed image server. Else nothing changes.
pub proof fn replies_are_tried(
    backend: &mut Backend,
    res: PingResponse,
    before: Option<&PingStore>,
    r: Option<Result<(Option<TlsPayload>, Option<String>), BackendError>>,
    after: Option<&PingStore>,
)
    requires
        call_ensures(Backend::ping_info, (&*old(backend),), before),
        call_ensures(Backend::try_ping, (backend, PingReply::Accepted(res)), r),
        call_ensures(Backend::ping_info, (&*final(backend),), after),
    ensures
        r is Some == ((res.tls is Some || before is Some) && url_parsed(res.image_server@) is Some),
        r is None ==> *final(backend) == *old(backend),
        r is Some ==> {
            &&& r->0 is Ok
            &&& r->0->Ok_0.0 == res.tls
            &&& r->0->Ok_0.1 is None <==> before is Some && before->0.token_key@ == res.token_key@
            &&& r->0->Ok_0.1 matches Some(key) ==> key@ == res.token_key@
            &&& after is Some
            &&& after->0.token_key@ == res.token_key@
            &&& after->0.client_url@ == res.url@
            &&& Some(after->0.upstream_url@) == url_parsed(res.image_server@)
            &&& res.tls matches Some(tls) ==> after->0.tls == tls
            &&& res.tls is None ==> after->0.tls == before->0.tls
        },
{
}

/// A reply that is not good is tried like any other.
pub proof fn other_replies_are_tried(
    backend: &mut Backend,
    status: u16,
    body: Option<String>,
    r: Option<Result<(Option<TlsPayload>, Option<String>), BackendError>>,
)
    requires
        call_ensures(Backend::try_ping, (backend, PingReply::Other(status, body)), r),
    ensures
        *final(backend) == *old(backend),
        r is None == (status == 200),
        r matches Some(r) ==> r is Err && (r->Err_0 is InvalidSecret == (status == 401)),
        status != 200 && status != 401 ==> {
            &&& r->0->Err_0 matches BackendError::UnexpectedResponse(s, text)
            &&& s == status
            &&& text@ == if body is Some {
                body->0@
            } else {
                "NO BODY"@
            }
        },
{
}

/// The message that the client stops succeeds exactly with the status 200; else it fails as a ping
/// does.
pub proof fn stops_are_answered(
    backend: &Backend,
    status: u16,
    body: Option<String>,
    r: Result<(), BackendError>,
    kind: ReplyKind,
)
    requires
        call_ensures(Backend::stop, (backend, status, body), r),
        call_ensures(classify_reply, (status,), kind),
    ensures
        r is Ok == (status == 200),
        kind is Accepted == (status == 200),
        kind is Refused == (status == 401),
        kind is Unexpected == (status != 200 && status != 401),
        r matches Err(e) ==> (e is InvalidSecret) == (status == 401),
        status != 200 && status != 401 ==> {
            &&& r->Err_0 matches BackendError::UnexpectedResponse(s, text)
            &&& s == status
            &&& text@ == if body is Some {
                body->0@
            } else {
                "NO BODY"@
            }
        },
{
}

/// Errors tell the status and the body that came.
pub proof fn backend_errors_tell_their_cause(error: BackendError, text: String)
    requires
        call_ensures(BackendError::to_text, (&error,), text),
    ensures
        error is InvalidSecret ==> text@ == "invalid client secret provided"@,
        error matches BackendError::UnexpectedResponse(status, body) ==> text@
            == "unexpected HTTP response: STATUS_CODE \""@ + status_text(status) + "\" BODY \""@
            + body@ + "\""@,
{
}

/// The debug text of a certificate is the same for every key and every chain.
pub proof fn certificates_do_not_show_their_key(
    a: TlsPayload,
    b: TlsPayload,
    shown_a: String,
    shown_b: String,
)
    requires
        call_ensures(TlsPayload::debug_text, (&a,), shown_a),
        call_ensures(TlsPayload::debug_text, (&b,), shown_b),
        a.created_at@ == b.created_at@,
    ensures
        shown_a@ == shown_b@,
        shown_a@ == "TlsPayload { created_at: "@ + debug_form(a.created_at@) + " }"@,
{
}

/// A copy of a certificate holds the same texts.
pub proof fn certificates_are_copied(tls: TlsPayload, copy: TlsPayload)
    requires
        call_ensures(TlsPayload::clone, (&tls,), copy),
    ensures
        copy.created_at@ == tls.created_at@,
        copy.private_key@ == tls.private_key@,
        copy.certificate@ == tls.certificate@,
{
}

} // verus!
