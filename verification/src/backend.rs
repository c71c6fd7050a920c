//! The exchange with the backend: what is sent to it, and what is made of its replies.

use crate::config::AppConfig;
use crate::outside::text::{debug_form, debug_quoted};
use crate::outside::web::{
    describe_status, parse_url, resolve_url, result_text, status_text, url_parsed, url_resolved,
};
use crate::text::str_eq;
use crate::utils::SPEC;
use std::sync::Arc;
use vstd::prelude::*;
use vstd::string::*;

verus! {

/// The URL of the backend.
pub const BASE_URL: &'static str = "https://api.mangadex.network";

/// The message that the client is alive.
pub struct PingRequest {
    pub secret: String,
    pub port: u16,
    pub disk_space: u64,
    pub network_speed: u64,
    pub build_version: u16,
    pub ip_address: Option<String>,
    pub tls_created_at: Option<String>,
}

/// The reply to a ping.
pub struct PingResponse {
    pub image_server: String,
    pub latest_build: u16,
    pub url: String,
    pub token_key: String,
    pub compromised: bool,
    pub paused: bool,
    pub client_id: String,
    pub tls: Option<TlsPayload>,
}

/// A TLS certificate with its key.
pub struct TlsPayload {
    pub created_at: String,
    pub private_key: String,
    pub certificate: String,
}

impl Clone for TlsPayload {
    fn clone(&self) -> (copy: Self)
        ensures
            copy == *self,
    {
        TlsPayload {
            created_at: self.created_at.clone(),
            private_key: self.private_key.clone(),
            certificate: self.certificate.clone(),
        }
    }
}

impl TlsPayload {
    /// The text that stands for the certificate in debug output. It divulges nothing but when the
    /// certificate was created.
    pub fn debug_text(&self) -> (text: String)
        ensures
            text@ == "TlsPayload { created_at: "@ + debug_form(self.created_at@) + " }"@,
    {
        let mut text: String = "TlsPayload { created_at: ".to_string();
        text.append(debug_quoted(self.created_at.as_str()).as_str());
        text.append(" }");
        text
    }
}

/// The message that the client stops.
pub struct StopRequest {
    pub secret: String,
}

/// What a reply of the backend may be refused for.
pub enum BackendError {
    /// The backend does not know the client secret.
    InvalidSecret,
    /// A status that was not expected, with the body that came with it.
    UnexpectedResponse(u16, String),
}

impl BackendError {
    /// The text of the error.
    pub open spec fn display(self) -> Seq<char> {
        match self {
            BackendError::InvalidSecret => "invalid client secret provided"@,
            BackendError::UnexpectedResponse(status, body) => "unexpected HTTP response: STATUS_CODE \""@
                + status_text(status) + "\" BODY \""@ + body@ + "\""@,
        }
    }

    /// The text of the error.
    pub fn to_text(&self) -> (text: String)
        requires
            self matches BackendError::UnexpectedResponse(status, _) ==> 100 <= *status < 1000,
        ensures
            text@ == self.display(),
    {
        match self {
            BackendError::InvalidSecret => "invalid client secret provided".to_string(),
            BackendError::UnexpectedResponse(status, body) => {
                let mut text: String = "unexpected HTTP response: STATUS_CODE \"".to_string();
                text.append(describe_status(*status).as_str());
                text.append("\" BODY \"");
                text.append(body.as_str());
                text.append("\"");
                text
            },
        }
    }
}

/// What is left to do with a reply, by its status.
#[derive(Clone, Copy, PartialEq, Eq, Structural)]
pub enum ReplyKind {
    /// The reply is good: its body is to be read.
    Accepted,
    /// The client secret was refused.
    Refused,
    /// Something else: its body tells more.
    Unexpected,
}

/// The kind of a reply: good if its status is 200, a refusal if it is 401.
pub open spec fn reply_kind(status: u16) -> ReplyKind {
    if status == 200 {
        ReplyKind::Accepted
    } else if status == 401 {
        ReplyKind::Refused
    } else {
        ReplyKind::Unexpected
    }
}

/// The kind of a reply.
pub fn classify_reply(status: u16) -> (kind: ReplyKind)
    ensures
        kind == reply_kind(status),
{
    if status == 200 {
        ReplyKind::Accepted
    } else if status == 401 {
        ReplyKind::Refused
    } else {
        ReplyKind::Unexpected
    }
}

/// `error` is the error for a reply that is not good; a body that could not be read is replaced.
pub open spec fn is_error_of(error: BackendError, status: u16, body: Option<String>) -> bool {
    match reply_kind(status) {
        ReplyKind::Accepted => false,
        ReplyKind::Refused => error is InvalidSecret,
        ReplyKind::Unexpected => {
            &&& error matches BackendError::UnexpectedResponse(s, b)
            &&& s == status
            &&& b@ == match body {
                Some(text) => text@,
                None => "NO BODY"@,
            }
        },
    }
}

/// The error for a reply that is not good.
fn reply_error(status: u16, body: Option<String>) -> (error: BackendError)
    requires
        reply_kind(status) !is Accepted,
    ensures
        is_error_of(error, status, body),
{
    if status == 401 {
        return BackendError::InvalidSecret;
    }
    match body {
        Some(text) => BackendError::UnexpectedResponse(status, text),
        None => BackendError::UnexpectedResponse(status, "NO BODY".to_string()),
    }
}

/// A reply to a ping, read as far as its status asks for.
pub enum PingReply {
    /// The reply was good; this is its body.
    Accepted(PingResponse),
    /// The reply was not good; its body, if it could be read.
    Other(u16, Option<String>),
}

/// What the last ping told.
pub struct PingStore {
    pub tls: TlsPayload,
    pub token_key: String,
    /// The URL of the server that images come from.
    pub upstream_url: String,
    /// The URL of this client, as the backend gives it.
    pub client_url: String,
}

/// A reply can be taken over: it brings a certificate or there is one already, and the URL of the
/// image server is well formed.
pub open spec fn usable(last: Option<PingStore>, res: PingResponse) -> bool {
    &&& res.tls is Some || last is Some
    &&& url_parsed(res.image_server@) is Some
}

/// The certificate to use after a reply: the new one, if it brings one, else the last one.
pub open spec fn tls_after(last: Option<PingStore>, res: PingResponse) -> TlsPayload {
    match res.tls {
        Some(tls) => tls,
        None => last->0.tls,
    }
}

/// `store` is what is known after the reply `res`.
pub open spec fn store_after(
    last: Option<PingStore>,
    res: PingResponse,
    store: PingStore,
) -> bool {
    &&& store.tls == tls_after(last, res)
    &&& store.token_key@ == res.token_key@
    &&& Some(store.upstream_url@) == url_parsed(res.image_server@)
    &&& store.client_url@ == res.url@
}

/// The token key of the reply is another than the last one, or the first.
pub open spec fn brings_new_key(last: Option<PingStore>, res: PingResponse) -> bool {
    match last {
        Some(store) => store.token_key@ != res.token_key@,
        None => true,
    }
}

/// The time of the certificate that a ping tells to the backend, by what is known.
pub open spec fn created_at_sent(info: Option<PingStore>) -> Option<String> {
    match info {
        Some(store) => Some(store.tls.created_at),
        None => None,
    }
}

/// The URL of the server that images come from, by what is known.
pub open spec fn upstream_known(info: Option<PingStore>) -> Option<Seq<char>> {
    match info {
        Some(store) => Some(store.upstream_url@),
        None => None,
    }
}

/// `after` is the state of a client that was in the state `before`, once a usable reply was taken over,
/// and `key` is the token key, if it is a new one.
pub open spec fn updated(
    before: Backend,
    res: PingResponse,
    key: Option<String>,
    after: Backend,
) -> bool {
    &&& after.config() == before.config()
    &&& after.info() matches Some(store) && store_after(before.info(), res, store)
    &&& match key {
        Some(k) => brings_new_key(before.info(), res) && k@ == res.token_key@,
        None => !brings_new_key(before.info(), res),
    }
}

/// `after` is what is known once the reply to a ping was taken over, if it could be.
pub open spec fn known_after(
    before: Option<PingStore>,
    reply: PingReply,
    after: Option<PingStore>,
) -> bool {
    match reply {
        PingReply::Accepted(res) => if usable(before, res) {
            after matches Some(store) && store_after(before, res, store)
        } else {
            after == before
        },
        PingReply::Other(..) => after == before,
    }
}

/// The client's side of the exchange with the backend.
pub struct Backend {
    config: Arc<AppConfig>,
    ping_info: Option<PingStore>,
}

impl Backend {
    /// The configuration.
    pub closed spec fn config(self) -> AppConfig {
        *self.config
    }

    /// What the last ping told, if there was one.
    pub closed spec fn info(self) -> Option<PingStore> {
        self.ping_info
    }

    /// Ready to ping; there was no ping yet.
    pub fn new(config: Arc<AppConfig>) -> (backend: Self)
        ensures
            backend.config() == *config,
            backend.info() is None,
    {
        Backend { config, ping_info: None }
    }

    /// Where pings go to, or the text of the error in making the URL.
    pub fn ping_url() -> (url: Result<String, String>)
        ensures
            result_text(url) == url_resolved(BASE_URL@, "/ping"@),
    {
        resolve_url(BASE_URL, "/ping")
    }

    /// Where the message that the client stops goes to, or the text of the error in making the URL.
    pub fn stop_url() -> (url: Result<String, String>)
        ensures
            result_text(url) == url_resolved(BASE_URL@, "/stop"@),
    {
        resolve_url(BASE_URL, "/stop")
    }

    /// The message for the next ping.
    pub fn ping_request(&self) -> (request: PingRequest)
        ensures
            request.secret@ == self.config().client_secret.0@,
            request.port == (match self.config().external_port {
                Some(port) => port,
                None => self.config().port,
            }),
            request.disk_space == self.config().cache_size_mebibytes * 1024 * 1024,
            request.network_speed == (match self.config().external_max_speed {
                Some(kilobits) => kilobits * 1000 / 8,
                None => 0int,
            }),
            request.build_version == SPEC,
            request.ip_address == self.config().external_ip,
            request.tls_created_at == created_at_sent(self.info()),
    {
        let tls_created_at: Option<String> = match &self.ping_info {
            Some(store) => Some(store.tls.created_at.clone()),
            None => None,
        };
        let network_speed: u64 = match self.config.external_max_speed {
            Some(kilobits) => kilobits as u64 * 1000 / 8,
            None => 0,
        };
        let ip_address: Option<String> = match &self.config.external_ip {
            Some(ip) => Some(ip.clone()),
            None => None,
        };
        PingRequest {
            secret: self.config.client_secret.0.clone(),
            port: self.config.external_port.unwrap_or(self.config.port),
            disk_space: self.config.cache_size_mebibytes as u64 * 1024 * 1024,
            network_speed,
            build_version: SPEC,
            ip_address,
            tls_created_at,
        }
    }

    /// Takes over a reply. Gives the token key, if it is a new one.
    pub fn update_from_response(&mut self, res: &PingResponse) -> (key: Option<String>)
        requires
            usable(old(self).info(), *res),
        ensures
            updated(*old(self), *res, key, *final(self)),
    {
        let is_new: bool = match &self.ping_info {
            Some(store) => !str_eq(store.token_key.as_str(), res.token_key.as_str()),
            None => true,
        };
        let tls: TlsPayload = match &res.tls {
            Some(tls) => tls.clone(),
            None => self.ping_info.as_ref().unwrap().tls.clone(),
        };
        let upstream_url: String = parse_url(res.image_server.as_str()).unwrap();
        let client_url: String = res.url.clone();
        self.ping_info = Some(
            PingStore { tls, token_key: res.token_key.clone(), upstream_url, client_url },
        );
        if is_new {
            Some(res.token_key.clone())
        } else {
            None
        }
    }

    /// Takes over the reply to a ping. A good one gives the certificate that it brings, if any, and
    /// the token key, if it is a new one. Any other leaves everything as it was.
    pub fn ping(&mut self, reply: PingReply) -> (r: Result<
        (Option<TlsPayload>, Option<String>),
        BackendError,
    >)
        requires
            reply matches PingReply::Accepted(res) ==> usable(old(self).info(), res),
            reply matches PingReply::Other(status, _) ==> reply_kind(status) !is Accepted,
        ensures
            final(self).config() == old(self).config(),
            known_after(old(self).info(), reply, final(self).info()),
            match reply {
                PingReply::Accepted(res) => {
                    &&& r matches Ok((tls, key))
                    &&& tls == res.tls
                    &&& match key {
                        Some(k) => brings_new_key(old(self).info(), res) && k@ == res.token_key@,
                        None => !brings_new_key(old(self).info(), res),
                    }
                },
                PingReply::Other(status, body) => {
                    &&& *final(self) == *old(self)
                    &&& r matches Err(error)
                    &&& is_error_of(error, status, body)
                },
            },
    {
        match reply {
            PingReply::Accepted(res) => {
                let key: Option<String> = self.update_from_response(&res);
                Ok((res.tls, key))
            },
            PingReply::Other(status, body) => Err(reply_error(status, body)),
        }
    }

    /// Takes over the reply to a ping, if it can be: see [`Backend::ping`]. Else nothing changes.
    pub fn try_ping(&mut self, reply: PingReply) -> (r: Option<
        Result<(Option<TlsPayload>, Option<String>), BackendError>,
    >)
        ensures
            final(self).config() == old(self).config(),
            r is None == (match reply {
                PingReply::Accepted(res) => !usable(old(self).info(), res),
                PingReply::Other(status, _) => reply_kind(status) is Accepted,
            }),
            r is None ==> *final(self) == *old(self),
            known_after(old(self).info(), reply, final(self).info()),
            r matches Some(r) ==> match reply {
                PingReply::Accepted(res) => {
                    &&& r matches Ok((tls, key))
                    &&& tls == res.tls
                    &&& match key {
                        Some(k) => brings_new_key(old(self).info(), res) && k@ == res.token_key@,
                        None => !brings_new_key(old(self).info(), res),
                    }
                },
                PingReply::Other(status, body) => {
                    &&& *final(self) == *old(self)
                    &&& r matches Err(error)
                    &&& is_error_of(error, status, body)
                },
            },
    {
        match &reply {
            PingReply::Accepted(res) => {
                if res.tls.is_none() && self.ping_info.is_none() {
                    return None;
                }
                if parse_url(res.image_server.as_str()).is_none() {
                    return None;
                }
            },
            PingReply::Other(status, _) => {
                if *status == 200 {
                    return None;
                }
            },
        }
        Some(self.ping(reply))
    }

    /// The message that the client stops.
    pub fn stop_request(&self) -> (request: StopRequest)
        ensures
            request.secret@ == self.config().client_secret.0@,
    {
        StopRequest { secret: self.config.client_secret.0.clone() }
    }

    /// What the reply to the message that the client stops amounts to.
    pub fn stop(&self, status: u16, body: Option<String>) -> (r: Result<(), BackendError>)
        ensures
            r is Ok == (reply_kind(status) is Accepted),
            r matches Err(error) ==> is_error_of(error, status, body),
    {
        if status == 200 {
            Ok(())
        } else {
            Err(reply_error(status, body))
        }
    }

    /// What the last ping told; nothing, if there was none yet.
    pub fn ping_info(&self) -> (info: Option<&PingStore>)
        ensures
            match self.info() {
                Some(store) => info == Some(&store),
                None => info is None,
            },
    {
        self.ping_info.as_ref()
    }

    /// The URL of the server that images come from; nothing, if there was no ping yet.
    pub fn get_upstream(&self) -> (url: Option<&str>)
        ensures
            match upstream_known(self.info()) {
                Some(known) => url matches Some(u) && u@ == known,
                None => url is None,
            },
    {
        match &self.ping_info {
            Some(store) => Some(store.upstream_url.as_str()),
            None => None,
        }
    }
}

/// After a reply, another one brings a new token key exactly if its key differs: a key that did not
/// change is told once.
pub proof fn a_key_is_told_once(
    last: Option<PingStore>,
    first: PingResponse,
    store: PingStore,
    second: PingResponse,
)
    requires
        store_after(last, first, store),
    ensures
        brings_new_key(Some(store), second) == (second.token_key@ != first.token_key@),
{
}

/// A certificate stays in use until a reply brings another one, and once there is one, every reply
/// with a well formed image server can be taken over.
pub proof fn a_certificate_stays(
    last: Option<PingStore>,
    first: PingResponse,
    store: PingStore,
    second: PingResponse,
    next: PingStore,
)
    requires
        store_after(last, first, store),
        store_after(Some(store), second, next),
        second.tls is None,
    ensures
        next.tls == store.tls,
        usable(Some(store), second) == url_parsed(second.image_server@) is Some,
{
}

/// Taking over the same reply once more changes nothing, and its token key is not told again.
pub proof fn a_reply_counts_once(
    start: Backend,
    res: PingResponse,
    first_key: Option<String>,
    once: Backend,
    second_key: Option<String>,
    twice: Backend,
)
    requires
        usable(start.info(), res),
        updated(start, res, first_key, once),
        updated(once, res, second_key, twice),
    ensures
        usable(once.info(), res),
        second_key is None,
        twice.config() == once.config(),
        once.info() is Some,
        twice.info() is Some,
        twice.info()->0.tls == once.info()->0.tls,
        twice.info()->0.token_key@ == once.info()->0.token_key@,
        twice.info()->0.upstream_url@ == once.info()->0.upstream_url@,
        twice.info()->0.client_url@ == once.info()->0.client_url@,
{
}

/// One exchange with the backend.
pub enum Exchange {
    /// A ping, with the reply to it.
    Ping(PingReply),
    /// A ping that had no reply.
    LostPing,
    /// The message that the client stops.
    Stop,
}

/// `after` is the state of the client that was in the state `before`, once there was an exchange.
pub open spec fn exchanged(before: Backend, exchange: Exchange, after: Backend) -> bool {
    match exchange {
        Exchange::Ping(reply) => {
            &&& after.config() == before.config()
            &&& known_after(before.info(), reply, after.info())
        },
        _ => after == before,
    }
}

/// `states` are the states of a client that begins without a ping, one more for each exchange.
pub open spec fn history(states: Seq<Backend>, exchanges: Seq<Exchange>) -> bool {
    &&& states.len() == exchanges.len() + 1
    &&& states[0].info() is None
    &&& forall|i: int|
        0 <= i < exchanges.len() ==> exchanged(states[i], #[trigger] exchanges[i], states[i + 1])
}

/// The response of the last ping that succeeded. The first one to succeed has to bring a certificate.
pub open spec fn last_response(exchanges: Seq<Exchange>) -> Option<PingResponse>
    decreases exchanges.len(),
{
    if exchanges.len() == 0 {
        None
    } else {
        let earlier = last_response(exchanges.drop_last());
        match exchanges.last() {
            Exchange::Ping(PingReply::Accepted(res)) => if (res.tls is Some || earlier is Some)
                && url_parsed(res.image_server@) is Some {
                Some(res)
            } else {
                earlier
            },
            _ => earlier,
        }
    }
}

/// The last certificate that a ping that succeeded brought.
pub open spec fn last_certificate(exchanges: Seq<Exchange>) -> Option<TlsPayload>
    decreases exchanges.len(),
{
    if exchanges.len() == 0 {
        None
    } else {
        match exchanges.last() {
            Exchange::Ping(PingReply::Accepted(res)) => if res.tls is Some && url_parsed(
                res.image_server@,
            ) is Some {
                res.tls
            } else {
                last_certificate(exchanges.drop_last())
            },
            _ => last_certificate(exchanges.drop_last()),
        }
    }
}

/// What is known after any exchanges comes from the pings that succeeded.
proof fn lemma_history(states: Seq<Backend>, exchanges: Seq<Exchange>)
    requires
        history(states, exchanges),
    ensures
        states.last().info() is Some == last_response(exchanges) is Some,
        states.last().info() is Some == last_certificate(exchanges) is Some,
        states.last().info() matches Some(store) ==> {
            &&& store.tls == last_certificate(exchanges)->0
            &&& Some(store.upstream_url@) == url_parsed(last_response(exchanges)->0.image_server@)
        },
    decreases exchanges.len(),
{
    if exchanges.len() > 0 {
        let less = exchanges.drop_last();
        let n = less.len() as int;
        assert forall|i: int| 0 <= i < less.len() implies exchanged(
            states.drop_last()[i],
            #[trigger] less[i],
            states.drop_last()[i + 1],
        ) by {
            assert(exchanges[i] == less[i]);
        }
        lemma_history(states.drop_last(), less);
        assert(exchanged(states[n], exchanges[n], states[n + 1]));
    }
}

/// A ping tells the time of the last certificate that any earlier ping that succeeded brought, and
/// none before there is one. Pings that fail, that bring no certificate, and messages that the client
/// stops leave it as it was.
pub proof fn the_last_certificate_is_told(states: Seq<Backend>, exchanges: Seq<Exchange>)
    requires
        history(states, exchanges),
    ensures
        created_at_sent(states.last().info()) == (match last_certificate(exchanges) {
            Some(tls) => Some(tls.created_at),
            None => None,
        }),
        last_certificate(exchanges) is Some == last_response(exchanges) is Some,
{
    lemma_history(states, exchanges);
}

/// The server that images come from is the one that the last ping that succeeded told, and none before
/// a ping has succeeded. Pings that fail and messages that the client stops leave it as it was.
pub proof fn the_last_upstream_is_known(states: Seq<Backend>, exchanges: Seq<Exchange>)
    requires
        history(states, exchanges),
    ensures
        upstream_known(states.last().info()) == (match last_response(exchanges) {
            Some(res) => url_parsed(res.image_server@),
            None => None,
        }),
        upstream_known(states.last().info()) is None == last_response(exchanges) is None,
{
    lemma_history(states, exchanges);
}

} // verus!
