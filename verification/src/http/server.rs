//! How the HTTP server is set up: its address, its default headers, and TLS.

use crate::backend::PingStore;
use crate::config::AppConfig;
use crate::outside::web::{host_of_url, url_host};
use crate::text::{decimal, str_eq, to_decimal};
use crate::utils::{PROG_NAME, SPEC};
use vstd::prelude::*;
use vstd::string::*;

verus! {

/// A header of a response.
pub type Header = (&'static str, String);

/// The description of the server: its name, its version, the version of the protocol, and where
/// it comes from.
pub open spec fn server_info_text(version: Seq<char>, url: Seq<char>) -> Seq<char> {
    PROG_NAME@ + " v"@ + version + " ("@ + decimal(SPEC as nat) + ") - "@ + url
}

/// The description of the server.
pub fn server_info(version: &str, url: &str) -> (info: String)
    ensures
        info@ == server_info_text(version@, url@),
{
    let mut info: String = PROG_NAME.to_string();
    info.append(" v");
    info.append(version);
    info.append(" (");
    info.append(to_decimal(SPEC as u64).as_str());
    info.append(") - ");
    info.append(url);
    info
}

/// The address that the server is bound to.
pub fn bind_addr(config: &AppConfig) -> (addr: String)
    ensures
        addr@ == config.bind_address@ + ":"@ + decimal(config.port as nat),
{
    let mut addr: String = config.bind_address.clone();
    addr.append(":");
    addr.append(to_decimal(config.port as u64).as_str());
    addr
}

/// Whether the server speaks TLS.
pub fn speaks_tls(config: &AppConfig) -> (tls: bool)
    ensures
        tls == !config.disable_ssl,
{
    !config.disable_ssl
}

/// The names and values of headers.
pub open spec fn headers_text(headers: Seq<Header>) -> Seq<(Seq<char>, Seq<char>)> {
    headers.map_values(|h: Header| (h.0@, h.1@))
}

/// The headers that every client of the network has to send.
pub open spec fn required_headers() -> Seq<(Seq<char>, Seq<char>)> {
    seq![
        ("X-Content-Type-Options"@, "nosniff"@),
        ("Access-Control-Allow-Origin"@, "*"@),
        ("Access-Control-Expose-Headers"@, "*"@),
        ("Access-Control-Expose-Methods"@, "GET"@),
        ("Cache-Control"@, "public, max-age=1209600"@),
        ("Timing-Allow-Origin"@, "*"@),
    ]
}

/// The headers that advertise the server.
pub open spec fn ad_headers(version: Seq<char>, url: Seq<char>) -> Seq<(Seq<char>, Seq<char>)> {
    seq![
        ("Server"@, server_info_text(version, url)),
        ("X-Powered-By"@, "Actix Web"@),
        ("X-Version"@, version),
    ]
}

/// The headers that every response has, unless it says otherwise.
pub fn default_headers(config: &AppConfig, version: &str, url: &str) -> (headers: Vec<Header>)
    ensures
        headers_text(headers@) == if config.disable_ad_headers {
            required_headers()
        } else {
            required_headers() + ad_headers(version@, url@)
        },
{
    let mut headers: Vec<Header> = Vec::new();
    headers.push(("X-Content-Type-Options", "nosniff".to_string()));
    headers.push(("Access-Control-Allow-Origin", "*".to_string()));
    headers.push(("Access-Control-Expose-Headers", "*".to_string()));
    headers.push(("Access-Control-Expose-Methods", "GET".to_string()));
    headers.push(("Cache-Control", "public, max-age=1209600".to_string()));
    headers.push(("Timing-Allow-Origin", "*".to_string()));
    if config.disable_ad_headers {
        proof {
            assert(headers_text(headers@) =~= required_headers());
        }
    } else {
        headers.push(("Server", server_info(version, url)));
        headers.push(("X-Powered-By", "Actix Web".to_string()));
        headers.push(("X-Version", version.to_string()));
        proof {
            assert(headers_text(headers@) =~= required_headers() + ad_headers(version@, url@));
        }
    }
    headers
}

/// Whether a client that asks for the server `servername` is let in, where the backend knows this
/// client by the host `client`.
pub open spec fn sni_accepted(servername: Option<Seq<char>>, client: Option<Seq<char>>) -> bool {
    servername is Some && (servername == Some("localhost"@) || servername == client)
}

/// Whether a client that asks for the server `servername` is let in: it has to be `localhost`, or
/// the host in the URL of this client.
pub fn sni_matches(servername: Option<&str>, client: Option<&str>) -> (accepted: bool)
    ensures
        accepted == sni_accepted(
            match servername {
                Some(name) => Some(name@),
                None => None,
            },
            match client {
                Some(host) => Some(host@),
                None => None,
            },
        ),
{
    match servername {
        Some(name) => if str_eq(name, "localhost") {
            true
        } else {
            match client {
                Some(host) => str_eq(name, host),
                None => false,
            }
        },
        None => false,
    }
}

/// Whether a client that asks for the server `servername` is let in, by what the last ping told.
pub fn check_sni(info: Option<&PingStore>, servername: Option<&str>) -> (accepted: bool)
    ensures
        accepted == sni_accepted(
            match servername {
                Some(name) => Some(name@),
                None => None,
            },
            match info {
                Some(store) => url_host(store.client_url@),
                None => None,
            },
        ),
{
    match info {
        Some(store) => match host_of_url(store.client_url.as_str()) {
            Some(host) => sni_matches(servername, Some(host.as_str())),
            None => sni_matches(servername, None),
        },
        None => sni_matches(servername, None),
    }
}

/// The ciphers of the old TLS standard.
pub const OLD_CIPHERS: &'static str =
    "ECDHE-ECDSA-AES128-GCM-SHA256:ECDHE-RSA-AES128-GCM-SHA256:ECDHE-ECDSA-AES256-GCM-SHA384:ECDHE-RSA-AES256-GCM-SHA384:ECDHE-ECDSA-CHACHA20-POLY1305:ECDHE-RSA-CHACHA20-POLY1305:DHE-RSA-AES128-GCM-SHA256:DHE-RSA-AES256-GCM-SHA384:DHE-RSA-CHACHA20-POLY1305:ECDHE-ECDSA-AES128-SHA256:ECDHE-RSA-AES128-SHA256:ECDHE-ECDSA-AES128-SHA:ECDHE-RSA-AES128-SHA:ECDHE-ECDSA-AES256-SHA384:ECDHE-RSA-AES256-SHA384:ECDHE-ECDSA-AES256-SHA:ECDHE-RSA-AES256-SHA:DHE-RSA-AES128-SHA256:DHE-RSA-AES256-SHA256:AES128-GCM-SHA256:AES256-GCM-SHA384:AES128-SHA256:AES256-SHA256:AES128-SHA:AES256-SHA:DES-CBC3-SHA";

/// Settings of TLS.
pub struct TlsSettings {
    /// The ciphers of the old standard, where it is allowed: then TLS is allowed from version 1.0
    /// on.
    pub old_ciphers: Option<&'static str>,
    /// The most sessions that are cached.
    pub session_cache_size: i32,
    /// Connections are checked for the server name that they ask for.
    pub check_sni: bool,
}

/// The settings of TLS that the configuration asks for.
pub fn tls_settings(config: &AppConfig) -> (settings: TlsSettings)
    ensures
        settings.old_ciphers == if config.enforce_secure_tls {
            None
        } else {
            Some(OLD_CIPHERS)
        },
        settings.session_cache_size == 4096,
        settings.check_sni == config.reject_invalid_sni,
{
    let old_ciphers: Option<&'static str> = if config.enforce_secure_tls {
        None
    } else {
        Some(OLD_CIPHERS)
    };
    TlsSettings { old_ciphers, session_cache_size: 1024 * 4, check_sni: config.reject_invalid_sni }
}

/// The error that the server could not be bound to its port, with the text of what caused it.
pub struct PortBindError(pub String);

impl PortBindError {
    /// The text of the error.
    pub fn to_text(&self) -> (text: String)
        ensures
            text@ == "error binding HTTP server to port (base: "@ + self.0@ + ")"@,
    {
        let mut text: String = "error binding HTTP server to port (base: ".to_string();
        text.append(self.0.as_str());
        text.append(")");
        text
    }
}

} // verus!
