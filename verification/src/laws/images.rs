//! Laws of responses with images: from the cache, and from upstream.

use crate::backend::PingStore;
use crate::cache::entry::ImageEntry;
use crate::cache::key::ImageKey;
use crate::http::handler::{
    handle_cache_hit, handle_cache_miss, image_path, is_browser_cached, media_type_or_png,
    names_tag, response_from_cache, upstream_content_type, upstream_last_modified, upstream_path,
    upstream_url, EntityTag, HitResponse, IfNoneMatch, ImageRequest, Lookup, MissResponse,
    UpstreamUrlError,
};
use crate::http::server::{headers_text, Header};
use crate::outside::buffers::content;
use crate::outside::web::{
    http_date_seconds, http_date_text, if_none_match_parsed, mime_parsed, status_text, url_resolved,
};
use crate::text::{hex, occurs_in};
use vstd::prelude::*;

verus! {

/// A header is among those of a response.
pub open spec fn has_header(headers: Seq<Header>, name: Seq<char>, value: Seq<char>) -> bool {
    exists|i: int|
        0 <= i < headers.len() && (#[trigger] headers[i]).0@ == name && headers[i].1@ == value
}

/// A header at a known place is among those of a response.
proof fn lemma_has_header(headers: Seq<Header>, i: int, name: Seq<char>, value: Seq<char>)
    requires
        0 <= i < headers.len(),
        headers_text(headers)[i] == (name, value),
    ensures
        has_header(headers, name, value),
{
    assert(headers[i].0@ == name && headers[i].1@ == value);
}

/// A client is known to have an image exactly if it sent a strong tag that reads as the image's own:
/// no other tag, no weak one, and not `*`.
pub proof fn only_the_own_tag_is_known(header: Option<IfNoneMatch>, etag: &str, cached: bool)
    requires
        call_ensures(is_browser_cached, (&header, etag), cached),
    ensures
        header is None ==> !cached,
        header == Some(IfNoneMatch::Any) ==> !cached,
        header matches Some(IfNoneMatch::Items(items)) ==> {
            &&& (forall|i: int|
                0 <= i < items@.len() ==> (#[trigger] items@[i]).weak || items@[i].tag@ != etag@)
                ==> !cached
            &&& forall|i: int|
                0 <= i < items@.len() && !(#[trigger] items@[i]).weak && items@[i].tag@ == etag@
                    ==> cached
        },
{
}

/// A client that sent no strong tag of the image gets the whole image, whatever other tags it sent.
pub proof fn other_tags_do_not_count(
    gzip: bool,
    req: ImageRequest,
    items: Vec<EntityTag>,
    image: ImageEntry,
    res: HitResponse,
)
    requires
        call_ensures(handle_cache_hit, (gzip, &req, image), res),
        req.if_none_match == Some(IfNoneMatch::Items(items)),
        forall|i: int|
            0 <= i < items@.len() ==> (#[trigger] items@[i]).weak || items@[i].tag@ != hex(
                image.checksum@,
            ),
    ensures
        !names_tag(req.if_none_match, hex(image.checksum@)),
        res.status == 200,
        res.body is Some,
        content(res.body->0) == content(image.bytes),
        res.bytes_up == content(image.bytes).len(),
{
}

/// A client that sent a strong tag of the image gets nothing but the answer that it has the image.
pub proof fn the_own_tag_counts(
    gzip: bool,
    req: ImageRequest,
    items: Vec<EntityTag>,
    at: int,
    image: ImageEntry,
    res: HitResponse,
)
    requires
        call_ensures(handle_cache_hit, (gzip, &req, image), res),
        req.if_none_match == Some(IfNoneMatch::Items(items)),
        0 <= at < items@.len(),
        !items@[at].weak,
        items@[at].tag@ == hex(image.checksum@),
    ensures
        res.status == 304,
        res.body is None,
        res.bytes_up == 0,
        !res.gzip,
{
}

/// Every response with a cached image tells its media type, its tag in quotes, what it varies by, and
/// that it was a HIT. It is the whole image or nothing, and the bytes in it are what counts as
/// served. It is compressed only where that is enabled, the client accepts it, and there is a body.
pub proof fn hits_tell_their_image(
    gzip: bool,
    req: ImageRequest,
    image: ImageEntry,
    etag: String,
    res: HitResponse,
)
    requires
        call_ensures(handle_cache_hit, (gzip, &req, image), res),
        call_ensures(ImageEntry::get_checksum_hex, (&image,), etag),
    ensures
        res.etag@ == etag@,
        res.content_type@ == image.mime_type@,
        has_header(res.headers@, "Content-Type"@, image.mime_type@),
        has_header(res.headers@, "ETag"@, "\""@ + etag@ + "\""@),
        has_header(res.headers@, "Vary"@, "Accept-Encoding"@),
        has_header(res.headers@, "X-Cache"@, "HIT"@),
        res.headers@.len() == 4,
        res.status == 200 || res.status == 304,
        (res.status == 200) == res.body is Some,
        res.body matches Some(body) ==> content(body) == content(image.bytes) && res.bytes_up
            == content(body).len(),
        res.body is None ==> res.bytes_up == 0,
        req.if_none_match is None ==> res.status == 200,
        res.gzip ==> gzip && res.status == 200 && (req.accept_encoding matches Some(accept)
            && occurs_in(accept@, "gzip"@)),
        gzip && res.status == 200 && (req.accept_encoding matches Some(accept) && occurs_in(
            accept@,
            "gzip"@,
        )) ==> res.gzip,
{
    assert(headers_text(res.headers@).len() == res.headers@.len());
    lemma_has_header(res.headers@, 0, "Content-Type"@, image.mime_type@);
    lemma_has_header(res.headers@, 1, "ETag"@, "\""@ + etag@ + "\""@);
    lemma_has_header(res.headers@, 2, "Vary"@, "Accept-Encoding"@);
    lemma_has_header(res.headers@, 3, "X-Cache"@, "HIT"@);
}

/// A lookup is a HIT exactly if an image was found, and the response is then made of that image.
pub proof fn found_images_are_hits(
    gzip: bool,
    req: ImageRequest,
    found: Option<ImageEntry>,
    r: Lookup,
)
    requires
        call_ensures(response_from_cache, (gzip, &req, found), r),
    ensures
        r is Hit == found is Some,
        r matches Lookup::Hit(res) ==> res.content_type@ == found->0.mime_type@ && res.etag@ == hex(
            found->0.checksum@,
        ) && (res.body matches Some(body) ==> content(body) == content(found->0.bytes)) && (
        res.status == 304) == names_tag(req.if_none_match, hex(found->0.checksum@)),
{
}

/// The raw values of the header name a tag exactly if the framework reads them as a list with that tag
/// as a strong one.
pub proof fn raw_tags_are_read(
    values: &Vec<Vec<u8>>,
    accept: Option<String>,
    req: ImageRequest,
    etag: &str,
    cached: bool,
)
    requires
        call_ensures(ImageRequest::read, (values, accept), req),
        call_ensures(is_browser_cached, (&req.if_none_match, etag), cached),
    ensures
        req.accept_encoding == accept,
        cached == (if_none_match_parsed(values@.map_values(|v: Vec<u8>| v@)) matches Some(said)
            && said is Some && said->0.contains((false, etag@))),
{
    let said = if_none_match_parsed(values@.map_values(|v: Vec<u8>| v@));
    if let Some(IfNoneMatch::Items(items)) = req.if_none_match {
        let tags = items@.map_values(|t: EntityTag| (t.weak, t.tag@));
        assert(said == Some(Some(tags)));
        if cached {
            let i = choose|i: int|
                0 <= i < items@.len() && !(#[trigger] items@[i]).weak && items@[i].tag@ == etag@;
            assert(tags[i] == (false, etag@));
        }
        if tags.contains((false, etag@)) {
            let i = choose|i: int| 0 <= i < tags.len() && tags[i] == (false, etag@);
            assert(!items@[i].weak && items@[i].tag@ == etag@);
        }
    }
}

/// The path that an image is fetched from begins with its archive: `data-saver` for the data-saver
/// version, `data` for the full one; then come its chapter and its file.
pub proof fn images_are_fetched_from_their_archive(chapter: Seq<char>, image: Seq<char>)
    ensures
        upstream_path((chapter, image, true)) == "/data-saver/"@ + chapter + "/"@ + image,
        upstream_path((chapter, image, false)) == "/data/"@ + chapter + "/"@ + image,
        upstream_path((chapter, image, true)) != upstream_path((chapter, image, false)),
{
    reveal_strlit("/");
    reveal_strlit("data");
    reveal_strlit("data-saver");
    reveal_strlit("/data/");
    reveal_strlit("/data-saver/");
    assert("/"@ + "data"@ + "/"@ =~= "/data/"@);
    assert("/"@ + "data-saver"@ + "/"@ =~= "/data-saver/"@);
    let full = upstream_path((chapter, image, false));
    let saver = upstream_path((chapter, image, true));
    assert(full =~= "/data/"@ + chapter + "/"@ + image);
    assert(saver =~= "/data-saver/"@ + chapter + "/"@ + image);
    assert(full[5] == '/' && saver[5] == '-');
}

/// The path of an image is made of its parts, and the URL is the path resolved against the upstream
/// server.
pub proof fn images_are_fetched_from_upstream(
    chapter: String,
    image: String,
    saver: bool,
    key: ImageKey,
    path: String,
    info: Option<&PingStore>,
    url: Result<String, UpstreamUrlError>,
)
    requires
        call_ensures(ImageKey::new, (chapter, image, saver), key),
        call_ensures(image_path, (&key,), path),
        call_ensures(upstream_url, (info, &key), url),
    ensures
        path@ == (if saver {
            "/data-saver/"@
        } else {
            "/data/"@
        }) + chapter@ + "/"@ + image@,
        match info {
            None => url matches Err(e) && e is NoUpstream,
            Some(store) => match url_resolved(store.upstream_url@, path@) {
                Ok(resolved) => url matches Ok(u) && u@ == resolved,
                Err(text) => url matches Err(UpstreamUrlError::Malformed(base)) && base@ == text,
            },
        },
{
    images_are_fetched_from_their_archive(chapter@, image@);
}

/// Without a URL to fetch from, the client is told why.
pub proof fn upstream_url_errors_tell_their_cause(error: UpstreamUrlError, text: String)
    requires
        call_ensures(UpstreamUrlError::to_text, (&error,), text),
    ensures
        error is NoUpstream ==> text@ == "no upstream URL available (how did we get here?)"@,
        error matches UpstreamUrlError::Malformed(base) ==> text@ == base@,
{
}

/// The media type of an image is what its header says, or PNG.
pub proof fn media_types_come_from_the_header(
    header: Option<&str>,
    mime: String,
    parsed: Option<String>,
    chosen: String,
)
    requires
        call_ensures(upstream_content_type, (header,), mime),
        call_ensures(media_type_or_png, (parsed,), chosen),
    ensures
        header is None ==> mime@ == "image/png"@,
        header matches Some(text) ==> mime_parsed(text@) is None ==> mime@ == "image/png"@,
        header matches Some(text) ==> mime_parsed(text@) is Some ==> Some(mime@) == mime_parsed(
            text@,
        ),
        parsed is None ==> chosen@ == "image/png"@,
        parsed matches Some(m) ==> chosen@ == m@,
{
}

/// The date of an image is what its header says, or now.
pub proof fn dates_come_from_the_header(header: Option<&str>, now: u64, seconds: u64)
    requires
        call_ensures(upstream_last_modified, (header, now), seconds),
    ensures
        header is None ==> seconds == now,
        header matches Some(text) ==> http_date_seconds(text@) is None ==> seconds == now,
        header matches Some(text) ==> http_date_seconds(text@) is Some ==> Some(seconds)
            == http_date_seconds(text@),
{
}

/// An image is proxied only if upstream has it, with what upstream says of it. One that upstream does
/// not have is not found, which is no failure. Everything else is a failure of the gateway: an
/// unexpected status is named, and an error is told.
pub proof fn misses_are_answered(
    upstream: Result<u16, String>,
    res: MissResponse,
    status: u16,
    failed: bool,
    content_type: &str,
    date: u64,
    headers: Vec<Header>,
)
    requires
        call_ensures(handle_cache_miss, (upstream,), res),
        call_ensures(MissResponse::status, (&res,), status),
        call_ensures(MissResponse::is_failure, (&res,), failed),
        call_ensures(MissResponse::headers, (&res, content_type, date), headers),
    ensures
        upstream == Ok::<u16, String>(200) ==> res is Proxy && status == 200 && !failed,
        upstream == Ok::<u16, String>(404) ==> res is NotFound && status == 404 && !failed,
        upstream matches Ok(s) ==> s != 200 && s != 404 ==> {
            &&& status == 502
            &&& failed
            &&& res matches MissResponse::BadGateway(body)
            &&& body@ == "invalid upstream status code: "@ + status_text(s)
        },
        upstream matches Err(e) ==> {
            &&& status == 502
            &&& failed
            &&& res matches MissResponse::BadGateway(body)
            &&& body@ == e@
        },
        status == 200 ==> {
            &&& has_header(headers@, "Content-Type"@, content_type@)
            &&& has_header(headers@, "Last-Modified"@, http_date_text(date))
            &&& has_header(headers@, "X-Cache"@, "MISS"@)
            &&& headers@.len() == 3
        },
        status != 200 ==> headers@.len() == 0,
{
    assert(headers_text(headers@).len() == headers@.len());
    if res is Proxy {
        lemma_has_header(headers@, 0, "Content-Type"@, content_type@);
        lemma_has_header(headers@, 1, "Last-Modified"@, http_date_text(date));
        lemma_has_header(headers@, 2, "X-Cache"@, "MISS"@);
    }
}

} // verus!
