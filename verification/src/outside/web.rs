//! URLs, media types, HTTP dates and status codes.

use actix_web::http::header::{self, HeaderValue, HttpDate};
use actix_web::http::StatusCode;
use actix_web::test::TestRequest;
use actix_web::HttpMessage;
use mime::Mime;
use std::time::{Duration, SystemTime, UNIX_EPOCH};
use url::Url;
use vstd::prelude::*;

verus! {

/// The characters in an optional text.
pub open spec fn text_of(s: Option<String>) -> Option<Seq<char>> {
    match s {
        Some(t) => Some(t@),
        None => None,
    }
}

/// The serialization of the absolute URL that a text parses to; `None` where it parses to none.
pub uninterp spec fn url_parsed(text: Seq<char>) -> Option<Seq<char>>;

/// The characters in the value or in the error of a result.
pub open spec fn result_text(r: Result<String, String>) -> Result<Seq<char>, Seq<char>> {
    match r {
        Ok(t) => Ok(t@),
        Err(e) => Err(e@),
    }
}

/// The serialization of a reference resolved against a base URL; the text of the error where the base
/// is no absolute URL or the reference does not parse.
pub uninterp spec fn url_resolved(base: Seq<char>, reference: Seq<char>) -> Result<
    Seq<char>,
    Seq<char>,
>;

/// The host in an absolute URL; `None` where the text is no URL or the URL has no host.
pub uninterp spec fn url_host(text: Seq<char>) -> Option<Seq<char>>;

/// The normal form of a media type; `None` where the text is not one.
pub uninterp spec fn mime_parsed(text: Seq<char>) -> Option<Seq<char>>;

/// The seconds since the Unix epoch that an HTTP date denotes; `None` where the text is not one.
pub uninterp spec fn http_date_seconds(text: Seq<char>) -> Option<u64>;

/// A status code with its canonical reason phrase.
pub uninterp spec fn status_text(code: u16) -> Seq<char>;

/// `Url::parse`, giving the serialization of the URL.
#[verifier::external_body]
pub(crate) fn parse_url(text: &str) -> (url: Option<String>)
    ensures
        text_of(url) == url_parsed(text@),
{
    Url::parse(text).map(String::from).ok()
}

/// `ParseOptions::parse` with the base URL set, giving the serialization of the URL, or the text of
/// the error.
#[verifier::external_body]
pub(crate) fn resolve_url(base: &str, reference: &str) -> (url: Result<String, String>)
    ensures
        result_text(url) == url_resolved(base@, reference@),
{
    let base = Url::parse(base).map_err(|e| e.to_string())?;
    let url = Url::options().base_url(Some(&base)).parse(reference);
    url.map(String::from).map_err(|e| e.to_string())
}

/// `Url::host_str` of the URL that the text parses to.
#[verifier::external_body]
pub(crate) fn host_of_url(text: &str) -> (host: Option<String>)
    ensures
        text_of(host) == url_host(text@),
{
    Url::parse(text).ok()?.host_str().map(String::from)
}

/// `Mime::from_str`, giving the text of the parsed media type.
#[verifier::external_body]
pub(crate) fn parse_mime(text: &str) -> (mime: Option<String>)
    ensures
        text_of(mime) == mime_parsed(text@),
{
    text.parse::<Mime>().map(|m| m.to_string()).ok()
}

/// The seconds since the Unix epoch at which the year 9999 is over, and HTTP dates with it.
pub const HTTP_DATES_END: u64 = 253402300800;

/// `HttpDate::from_str`. The dates it accepts lie in the years 1970 to 9999 and are whole seconds.
#[verifier::external_body]
pub(crate) fn parse_http_date(text: &str) -> (seconds: Option<u64>)
    ensures
        seconds == http_date_seconds(text@),
        seconds matches Some(s) ==> s < HTTP_DATES_END,
{
    let time = SystemTime::from(text.parse::<HttpDate>().ok()?);
    time.duration_since(UNIX_EPOCH).map(|d| d.as_secs()).ok()
}

/// The text of the HTTP date that lies so many seconds after the Unix epoch.
pub uninterp spec fn http_date_text(seconds: u64) -> Seq<char>;

/// `HttpDate::to_string`. It panics for dates after the year 9999.
#[verifier::external_body]
pub(crate) fn format_http_date(seconds: u64) -> (text: String)
    requires
        seconds < HTTP_DATES_END,
    ensures
        text@ == http_date_text(seconds),
{
    HttpDate::from(UNIX_EPOCH + Duration::from_secs(seconds)).to_string()
}

/// What the values of `If-None-Match` headers say: nothing, where there is none or one cannot be
/// read; else any tag, or these entity tags, each with whether it is weak.
pub uninterp spec fn if_none_match_parsed(values: Seq<Seq<u8>>) -> Option<
    Option<Seq<(bool, Seq<char>)>>,
>;

/// The entity tags in a list, each with whether it is weak.
pub open spec fn tags_in(tags: Seq<(bool, String)>) -> Seq<(bool, Seq<char>)> {
    tags.map_values(|t: (bool, String)| (t.0, t.1@))
}

/// The entity tags in what a header says.
pub open spec fn tags_said(said: Option<Option<Vec<(bool, String)>>>) -> Option<
    Option<Seq<(bool, Seq<char>)>>,
> {
    match said {
        Some(Some(tags)) => Some(Some(tags_in(tags@))),
        Some(None) => Some(None),
        None => None,
    }
}

/// `HttpMessage::get_header` of `IfNoneMatch`, on a request with these values of the header; also
/// nothing, where one is no value of a header. The request is made for the call and has no other part
/// in it.
#[verifier::external_body]
pub(crate) fn parse_if_none_match(values: &Vec<Vec<u8>>) -> (said: Option<
    Option<Vec<(bool, String)>>,
>)
    ensures
        tags_said(said) == if_none_match_parsed(values@.map_values(|v: Vec<u8>| v@)),
{
    let mut req = TestRequest::default();
    for value in values {
        req = req.append_header((header::IF_NONE_MATCH, HeaderValue::from_bytes(value).ok()?));
    }
    match req.to_http_request().get_header::<header::IfNoneMatch>()? {
        header::IfNoneMatch::Any => Some(None),
        header::IfNoneMatch::Items(all) => {
            Some(Some(all.iter().map(|t| (t.weak, t.tag().to_string())).collect()))
        },
    }
}

/// `StatusCode::to_string`. Codes outside 100 to 999 are no status codes.
#[verifier::external_body]
pub(crate) fn describe_status(code: u16) -> (text: String)
    requires
        100 <= code < 1000,
    ensures
        text@ == status_text(code),
{
    StatusCode::from_u16(code).unwrap().to_string()
}

} // verus!
