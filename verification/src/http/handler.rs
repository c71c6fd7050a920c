//! Responses for images: from the cache on a HIT, from upstream on a MISS.

use crate::backend::PingStore;
use crate::cache::entry::ImageEntry;
use crate::cache::key::{archive_of, ImageKey};
use crate::outside::buffers::{as_slice, content};
use crate::http::server::{headers_text, Header};
use crate::outside::web::{
    describe_status, format_http_date, http_date_seconds, http_date_text, if_none_match_parsed,
    mime_parsed, parse_http_date, parse_if_none_match, parse_mime, resolve_url, status_text,
    tags_in, url_resolved, HTTP_DATES_END,
};
use crate::text::{contains, hex, occurs_in, str_eq};
use bytes::Bytes;
use vstd::prelude::*;
use vstd::string::*;

verus! {

/// An entity tag that a client sent.
pub struct EntityTag {
    pub weak: bool,
    pub tag: String,
}

/// The `If-None-Match` header of a request.
pub enum IfNoneMatch {
    Any,
    Items(Vec<EntityTag>),
}

/// Whether one of the tags is strong and reads `etag`.
pub open spec fn lists_tag(items: Seq<EntityTag>, etag: Seq<char>) -> bool {
    exists|i: int| 0 <= i < items.len() && !(#[trigger] items[i]).weak && items[i].tag@ == etag
}

/// Whether a header names the strong entity tag `etag`. Weak tags name none, and neither does `*`.
pub open spec fn names_tag(header: Option<IfNoneMatch>, etag: Seq<char>) -> bool {
    match header {
        Some(IfNoneMatch::Items(items)) => lists_tag(items@, etag),
        _ => false,
    }
}

/// Whether the client has the image already, by the header that it sent and the strong entity tag of
/// the image.
pub fn is_browser_cached(header: &Option<IfNoneMatch>, etag: &str) -> (cached: bool)
    ensures
        cached == names_tag(*header, etag@),
{
    match header {
        Some(IfNoneMatch::Items(items)) => {
            let mut i: usize = 0;
            while i < items.len()
                invariant
                    i <= items.len(),
                    *header == Some(IfNoneMatch::Items(*items)),
                    forall|k: int|
                        0 <= k < i ==> (#[trigger] items@[k]).weak || items@[k].tag@ != etag@,
                decreases items.len() - i,
            {
                if !items[i].weak && str_eq(items[i].tag.as_str(), etag) {
                    return true;
                }
                i += 1;
            }
            false
        },
        _ => false,
    }
}

/// What the headers of a request say that matters for a cached image.
pub struct ImageRequest {
    pub if_none_match: Option<IfNoneMatch>,
    /// The `Accept-Encoding` header, if it is there and is visible text.
    pub accept_encoding: Option<String>,
}

/// What a parsed `If-None-Match` header says: any tag, or these entity tags, each with whether it is
/// weak.
pub open spec fn said_by(header: Option<IfNoneMatch>) -> Option<Option<Seq<(bool, Seq<char>)>>> {
    match header {
        Some(IfNoneMatch::Items(items)) => Some(
            Some(items@.map_values(|t: EntityTag| (t.weak, t.tag@))),
        ),
        Some(IfNoneMatch::Any) => Some(None),
        None => None,
    }
}

impl ImageRequest {
    /// Reads the headers of a request: the raw values of its `If-None-Match` headers, in order, and
    /// its `Accept-Encoding` header, if it is there and is visible text.
    pub fn read(if_none_match: &Vec<Vec<u8>>, accept_encoding: Option<String>) -> (req: Self)
        ensures
            said_by(req.if_none_match) == if_none_match_parsed(
                if_none_match@.map_values(|v: Vec<u8>| v@),
            ),
            req.accept_encoding == accept_encoding,
    {
        let if_none_match: Option<IfNoneMatch> = match parse_if_none_match(if_none_match) {
            Some(Some(tags)) => Some(IfNoneMatch::Items(entity_tags(tags))),
            Some(None) => Some(IfNoneMatch::Any),
            None => None,
        };
        ImageRequest { if_none_match, accept_encoding }
    }
}

/// Entity tags of their parts.
fn entity_tags(tags: Vec<(bool, String)>) -> (items: Vec<EntityTag>)
    ensures
        items@.map_values(|t: EntityTag| (t.weak, t.tag@)) == tags_in(tags@),
{
    let mut items: Vec<EntityTag> = Vec::new();
    let mut i: usize = 0;
    while i < tags.len()
        invariant
            i <= tags.len(),
            items@.len() == i,
            forall|k: int|
                0 <= k < i ==> (#[trigger] items@[k]).weak == tags@[k].0 && items@[k].tag@
                    == tags@[k].1@,
        decreases tags.len() - i,
    {
        items.push(EntityTag { weak: tags[i].0, tag: tags[i].1.clone() });
        i += 1;
    }
    proof {
        assert(items@.map_values(|t: EntityTag| (t.weak, t.tag@)) =~= tags_in(tags@));
    }
    items
}

/// The response with a cached image.
pub struct HitResponse {
    pub status: u16,
    pub content_type: String,
    /// The strong entity tag.
    pub etag: String,
    /// The headers, with the media type and the entity tag.
    pub headers: Vec<Header>,
    /// The body is to be compressed with gzip.
    pub gzip: bool,
    /// The body; none where the client has the image already.
    pub body: Option<Bytes>,
    /// The bytes that count as served.
    pub bytes_up: u64,
}

/// The client accepts gzip, and compression is enabled.
pub open spec fn wants_gzip(gzip_compress: bool, accept_encoding: Option<String>) -> bool {
    gzip_compress && (accept_encoding matches Some(accept) && occurs_in(accept@, "gzip"@))
}

/// The headers of a response with a cached image.
pub open spec fn hit_headers(content_type: Seq<char>, etag: Seq<char>) -> Seq<
    (Seq<char>, Seq<char>),
> {
    seq![
        ("Content-Type"@, content_type),
        ("ETag"@, "\""@ + etag + "\""@),
        ("Vary"@, "Accept-Encoding"@),
        ("X-Cache"@, "HIT"@),
    ]
}

/// Gives the headers of a response with a cached image.
fn headers_of_hit(content_type: &str, etag: &str) -> (headers: Vec<Header>)
    ensures
        headers_text(headers@) == hit_headers(content_type@, etag@),
{
    let mut quoted: String = "\"".to_string();
    quoted.append(etag);
    quoted.append("\"");
    let mut headers: Vec<Header> = Vec::new();
    headers.push(("Content-Type", content_type.to_string()));
    headers.push(("ETag", quoted));
    headers.push(("Vary", "Accept-Encoding".to_string()));
    headers.push(("X-Cache", "HIT".to_string()));
    proof {
        assert(headers_text(headers@) =~= hit_headers(content_type@, etag@));
    }
    headers
}

/// `res` is the response with a cached image: all of it, unless the client has it already.
pub open spec fn answers_hit(
    res: HitResponse,
    gzip_compress: bool,
    req: ImageRequest,
    image: ImageEntry,
) -> bool {
    &&& res.content_type == image.mime_type
    &&& res.etag@ == hex(image.checksum@)
    &&& headers_text(res.headers@) == hit_headers(image.mime_type@, hex(image.checksum@))
    &&& if names_tag(req.if_none_match, hex(image.checksum@)) {
        &&& res.status == 304
        &&& res.body is None
        &&& !res.gzip
        &&& res.bytes_up == 0
    } else {
        &&& res.status == 200
        &&& res.body == Some(image.bytes)
        &&& res.gzip == wants_gzip(gzip_compress, req.accept_encoding)
        &&& res.bytes_up == content(image.bytes).len()
    }
}

/// The response to a request for an image that is in the cache.
pub fn handle_cache_hit(gzip_compress: bool, req: &ImageRequest, image: ImageEntry) -> (res:
    HitResponse)
    ensures
        answers_hit(res, gzip_compress, *req, image),
{
    let etag: String = image.get_checksum_hex();
    let headers: Vec<Header> = headers_of_hit(image.get_mime(), etag.as_str());
    if is_browser_cached(&req.if_none_match, etag.as_str()) {
        return HitResponse {
            status: 304,
            content_type: image.mime_type,
            etag,
            headers,
            gzip: false,
            body: None,
            bytes_up: 0,
        };
    }
    let gzip: bool = if gzip_compress {
        match &req.accept_encoding {
            Some(accept) => contains(accept.as_str(), "gzip"),
            None => false,
        }
    } else {
        false
    };
    let bytes_up: u64 = as_slice(&image.bytes).len() as u64;
    HitResponse {
        status: 200,
        content_type: image.mime_type,
        etag,
        headers,
        gzip,
        body: Some(image.bytes),
        bytes_up,
    }
}

/// What a lookup in the cache leads to.
pub enum Lookup {
    /// The image was found: this is the response, and the request counts as a HIT.
    Hit(HitResponse),
    /// The image has to be fetched from upstream.
    Miss,
}

/// The response from the cache, if the image is in it.
pub fn response_from_cache(gzip_compress: bool, req: &ImageRequest, found: Option<ImageEntry>) -> (r:
    Lookup)
    ensures
        match found {
            Some(image) => r matches Lookup::Hit(res) && answers_hit(
                res,
                gzip_compress,
                *req,
                image,
            ),
            None => r is Miss,
        },
{
    match found {
        Some(image) => Lookup::Hit(handle_cache_hit(gzip_compress, req, image)),
        None => Lookup::Miss,
    }
}

/// A client that sends back the entity tag of an image is not sent the image again, whatever other
/// tags it sends; one that sends `*` or no tag at all is.
pub proof fn a_known_image_is_not_sent_again(items: Vec<EntityTag>, at: int, image: ImageEntry)
    requires
        0 <= at < items@.len(),
        !items@[at].weak,
        items@[at].tag@ == hex(image.checksum@),
    ensures
        names_tag(Some(IfNoneMatch::Items(items)), hex(image.checksum@)),
        !names_tag(Some(IfNoneMatch::Any), hex(image.checksum@)),
        !names_tag(None, hex(image.checksum@)),
{
    assert(lists_tag(items@, hex(image.checksum@)));
}

/// The text of an entity tag made of a checksum needs no quoting: it holds digits and the letters
/// from `a` to `f` alone.
pub proof fn checksums_make_entity_tags(checksum: Seq<u8>, i: int)
    requires
        0 <= i < hex(checksum).len(),
    ensures
        '0' <= hex(checksum)[i] <= '9' || 'a' <= hex(checksum)[i] <= 'f',
{
}

/// Why there is no URL to fetch an image from.
pub enum UpstreamUrlError {
    /// The backend has not told an upstream server yet.
    NoUpstream,
    /// The path does not resolve against the upstream server; the text of the error.
    Malformed(String),
}

impl UpstreamUrlError {
    /// The text of the error.
    pub fn to_text(&self) -> (text: String)
        ensures
            text@ == (match self {
                UpstreamUrlError::NoUpstream => NO_UPSTREAM_TEXT@,
                UpstreamUrlError::Malformed(base) => base@,
            }),
    {
        match self {
            UpstreamUrlError::NoUpstream => NO_UPSTREAM_TEXT.to_string(),
            UpstreamUrlError::Malformed(base) => base.clone(),
        }
    }
}

/// The path of an image on the upstream server.
pub open spec fn upstream_path(key: (Seq<char>, Seq<char>, bool)) -> Seq<char> {
    "/"@ + archive_of(key.2) + "/"@ + key.0 + "/"@ + key.1
}

/// The text of the error that there is no upstream server yet.
pub const NO_UPSTREAM_TEXT: &'static str = "no upstream URL available (how did we get here?)";

/// The URL to fetch an image from: its path, resolved against the upstream server.
pub fn upstream_url(info: Option<&PingStore>, key: &ImageKey) -> (r: Result<
    String,
    UpstreamUrlError,
>)
    ensures
        match info {
            None => r matches Err(e) && e is NoUpstream,
            Some(store) => match url_resolved(store.upstream_url@, upstream_path(key@)) {
                Ok(url) => r matches Ok(u) && u@ == url,
                Err(text) => r matches Err(UpstreamUrlError::Malformed(base)) && base@ == text,
            },
        },
{
    match info {
        None => Err(UpstreamUrlError::NoUpstream),
        Some(store) => {
            let path: String = image_path(key);
            match resolve_url(store.upstream_url.as_str(), path.as_str()) {
                Ok(url) => Ok(url),
                Err(text) => Err(UpstreamUrlError::Malformed(text)),
            }
        },
    }
}

/// The path of an image on the upstream server.
pub fn image_path(key: &ImageKey) -> (path: String)
    ensures
        path@ == upstream_path(key@),
{
    let mut path: String = "/".to_string();
    path.append(key.archive_name());
    path.append("/");
    path.append(key.chapter());
    path.append("/");
    path.append(key.image());
    path
}

/// The media type of an image from upstream: what its `Content-Type` header says, or PNG where that
/// is no media type.
pub open spec fn content_type_of(header: Option<Seq<char>>) -> Seq<char> {
    match header {
        Some(text) => match mime_parsed(text) {
            Some(mime) => mime,
            None => "image/png"@,
        },
        None => "image/png"@,
    }
}

/// The characters of an optional header.
pub open spec fn header_text(header: Option<&str>) -> Option<Seq<char>> {
    match header {
        Some(text) => Some(text@),
        None => None,
    }
}

/// The media type to give an image, from the result of reading its header as one.
pub fn media_type_or_png(parsed: Option<String>) -> (mime: String)
    ensures
        mime@ == (match parsed {
            Some(m) => m@,
            None => "image/png"@,
        }),
{
    match parsed {
        Some(m) => m,
        None => "image/png".to_string(),
    }
}

/// The media type of an image from upstream. The header is absent where it is not visible text.
pub fn upstream_content_type(header: Option<&str>) -> (mime: String)
    ensures
        mime@ == content_type_of(header_text(header)),
{
    match header {
        Some(text) => media_type_or_png(parse_mime(text)),
        None => media_type_or_png(None),
    }
}

/// When an image from upstream was last modified, in seconds since the epoch: what its
/// `Last-Modified` header says, or now where that is no date.
pub fn upstream_last_modified(header: Option<&str>, now: u64) -> (seconds: u64)
    ensures
        seconds == (match header {
            Some(text) => match http_date_seconds(text@) {
                Some(date) => date,
                None => now,
            },
            None => now,
        }),
        now < HTTP_DATES_END ==> seconds < HTTP_DATES_END,
{
    match header {
        Some(text) => parse_http_date(text).unwrap_or(now),
        None => now,
    }
}

/// The response to a request for an image that is not in the cache.
pub enum MissResponse {
    /// Bad gateway, with this body. The request counts as failed.
    BadGateway(String),
    /// Not found, without a body.
    NotFound,
    /// The image is proxied.
    Proxy,
}

/// The headers of a response for an image that is not in the cache: for one that is proxied, what
/// upstream says of it, and that it was missing.
pub open spec fn miss_headers(
    res: MissResponse,
    content_type: Seq<char>,
    last_modified: u64,
) -> Seq<(Seq<char>, Seq<char>)> {
    if res is Proxy {
        seq![
            ("Content-Type"@, content_type),
            ("Last-Modified"@, http_date_text(last_modified)),
            ("X-Cache"@, "MISS"@),
        ]
    } else {
        Seq::empty()
    }
}

impl MissResponse {
    /// The status of the response.
    pub fn status(&self) -> (status: u16)
        ensures
            status == (match self {
                MissResponse::BadGateway(_) => 502u16,
                MissResponse::NotFound => 404,
                MissResponse::Proxy => 200,
            }),
    {
        match self {
            MissResponse::BadGateway(_) => 502,
            MissResponse::NotFound => 404,
            MissResponse::Proxy => 200,
        }
    }

    /// The headers of the response, by the media type of the image and when it was last modified, in
    /// seconds since the epoch, as upstream says.
    pub fn headers(&self, content_type: &str, last_modified: u64) -> (headers: Vec<Header>)
        requires
            last_modified < HTTP_DATES_END,
        ensures
            headers_text(headers@) == miss_headers(*self, content_type@, last_modified),
    {
        let mut headers: Vec<Header> = Vec::new();
        if matches!(self, MissResponse::Proxy) {
            headers.push(("Content-Type", content_type.to_string()));
            headers.push(("Last-Modified", format_http_date(last_modified)));
            headers.push(("X-Cache", "MISS".to_string()));
        }
        proof {
            assert(headers_text(headers@) =~= miss_headers(*self, content_type@, last_modified));
        }
        headers
    }

    /// Whether the request counts as failed.
    pub fn is_failure(&self) -> (failed: bool)
        ensures
            failed == (self is BadGateway),
    {
        matches!(self, MissResponse::BadGateway(_))
    }
}

/// `res` is the response for what came of polling upstream: a status, or an error before there was
/// one. The error is the body of the response.
pub open spec fn answers_miss(res: MissResponse, upstream: Result<u16, String>) -> bool {
    match upstream {
        Err(error) => res matches MissResponse::BadGateway(body) && body@ == error@,
        Ok(status) => if status == 200 {
            res is Proxy
        } else if status == 404 {
            res is NotFound
        } else {
            res matches MissResponse::BadGateway(body) && body@
                == "invalid upstream status code: "@ + status_text(status)
        },
    }
}

/// The response for what came of polling upstream: the status of its response, or the text of the
/// error before one came.
pub fn handle_cache_miss(upstream: Result<u16, String>) -> (res: MissResponse)
    requires
        upstream matches Ok(status) ==> 100 <= status < 1000,
    ensures
        answers_miss(res, upstream),
{
    match upstream {
        Err(error) => MissResponse::BadGateway(error),
        Ok(status) => if status == 200 {
            MissResponse::Proxy
        } else if status == 404 {
            MissResponse::NotFound
        } else {
            let mut body: String = "invalid upstream status code: ".to_string();
            body.append(describe_status(status).as_str());
            MissResponse::BadGateway(body)
        },
    }
}

} // verus!
