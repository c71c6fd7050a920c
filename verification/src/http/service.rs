//! The services of the HTTP server: which requests are served.

use crate::cache::key::ImageKey;
use crate::text::str_eq;
use crate::tokens::{url_token_outcome, TokenError, TokenPayload, TokenVerifier};
use vstd::prelude::*;
use vstd::string::*;

verus! {

/// The parts of the path of a request for an image.
pub struct MdPathArgs {
    pub token: Option<String>,
    /// Either `data` or `data-saver`.
    pub archive_type: String,
    pub chap_hash: String,
    pub image: String,
}

/// A response that is plain text.
pub struct TextReply {
    pub status: u16,
    pub body: String,
}

/// The archive is one of the two that there are.
pub open spec fn valid_archive(archive_type: Seq<char>) -> bool {
    archive_type == "data"@ || archive_type == "data-saver"@
}

/// `r` serves the request, with the key of the image that it asks for.
pub open spec fn serves(args: MdPathArgs, r: Result<ImageKey, TextReply>) -> bool {
    r matches Ok(key) && key@ == (
        args.chap_hash@,
        args.image@,
        args.archive_type@ == "data-saver"@,
    )
}

/// `r` rejects the request with this status and this body.
pub open spec fn rejects(r: Result<ImageKey, TextReply>, status: u16, body: Seq<char>) -> bool {
    r matches Err(reply) && reply.status == status && reply.body@ == body
}

/// `r` is the answer to a request whose token verified with the result `token`, if it has one.
pub open spec fn answers(
    args: MdPathArgs,
    skip_tokens: bool,
    token: Option<Result<(), TokenError>>,
    r: Result<ImageKey, TextReply>,
) -> bool {
    if !valid_archive(args.archive_type@) {
        rejects(r, 404, "invalid archive type. must be one of [\"data\", \"data-saver\"]"@)
    } else if skip_tokens {
        serves(args, r)
    } else {
        match token {
            Some(Ok(_)) => serves(args, r),
            Some(Err(e)) => rejects(r, e.status(), e.response_body()),
            None => rejects(r, 401, "no token provided"@),
        }
    }
}

/// Whether the archive is one of the two that there are.
fn is_valid_archive(archive_type: &str) -> (valid: bool)
    ensures
        valid == valid_archive(archive_type@),
{
    str_eq(archive_type, "data") || str_eq(archive_type, "data-saver")
}

fn reject(status: u16, body: &str) -> (r: Result<ImageKey, TextReply>)
    ensures
        rejects(r, status, body@),
{
    Err(TextReply { status, body: body.to_string() })
}

/// Answers a request for an image, given the result of verifying its token, if it has one.
pub fn answer_request(args: MdPathArgs, skip_tokens: bool, token: Option<Result<(), TokenError>>) -> (r:
    Result<ImageKey, TextReply>)
    ensures
        answers(args, skip_tokens, token, r),
{
    if !is_valid_archive(args.archive_type.as_str()) {
        return reject(
            404,
            "invalid archive type. must be one of [\"data\", \"data-saver\"]",
        );
    }
    if !skip_tokens {
        match token {
            Some(Ok(_)) => {},
            Some(Err(e)) => {
                return Err(TextReply { status: e.status_code(), body: e.error_response() });
            },
            None => {
                return reject(401, "no token provided");
            },
        }
    }
    let saver: bool = str_eq(args.archive_type.as_str(), "data-saver");
    Ok(ImageKey::new(args.chap_hash, args.image, saver))
}

/// Answers a request for an image: with the key of the image, or with the response to a request that
/// is not served. A request that is not served counts as dropped; one that is counts as a request.
///
/// `parse` reads the payload from the text inside a token.
pub fn md_service<F: Fn(&str) -> Option<TokenPayload>>(
    args: MdPathArgs,
    skip_tokens: bool,
    verifier: &TokenVerifier,
    parse: F,
) -> (r: Result<ImageKey, TextReply>)
    requires
        forall|text: &str| parse.requires((text,)),
    ensures
        if skip_tokens || !valid_archive(args.archive_type@) {
            answers(args, skip_tokens, None, r)
        } else {
            match args.token {
                None => answers(args, skip_tokens, None, r),
                Some(token) => exists|verified: Result<(), TokenError>|
                    {
                        &&& #[trigger] url_token_outcome(
                            verifier.key(),
                            token@,
                            args.chap_hash@,
                            parse,
                            verified,
                        )
                        &&& answers(args, skip_tokens, Some(verified), r)
                    },
            }
        },
{
    if skip_tokens || !is_valid_archive(args.archive_type.as_str()) {
        return answer_request(args, skip_tokens, None);
    }
    let verified: Option<Result<(), TokenError>> = match &args.token {
        Some(token) => Some(
            verifier.verify_url_token(token.as_str(), args.chap_hash.as_str(), parse),
        ),
        None => None,
    };
    answer_request(args, skip_tokens, verified)
}

/// A request without a valid token is served only where tokens are skipped, and never for an archive
/// that there is not.
pub proof fn only_verified_requests_are_served(
    args: MdPathArgs,
    skip_tokens: bool,
    token: Option<Result<(), TokenError>>,
    r: Result<ImageKey, TextReply>,
)
    requires
        answers(args, skip_tokens, token, r),
    ensures
        r is Ok <==> valid_archive(args.archive_type@) && (skip_tokens || (token matches Some(
            verified,
        ) && verified is Ok)),
{
}

/// The response to a request with a path that leads nowhere. The request counts as dropped.
pub fn not_found_service() -> (r: TextReply)
    ensures
        r.status == 404,
        r.body@ == "no valid route found"@,
{
    TextReply { status: 404, body: "no valid route found".to_string() }
}

/// The response to a request for the metrics: their text, or the error in encoding them.
pub fn prom_service(encoded: Result<String, String>) -> (r: TextReply)
    ensures
        match encoded {
            Ok(text) => r.status == 200 && r.body == text,
            Err(e) => r.status == 500 && r.body@ == "error encoding metrics: "@ + e@,
        },
{
    match encoded {
        Ok(text) => TextReply { status: 200, body: text },
        Err(e) => {
            let mut body: String = "error encoding metrics: ".to_string();
            body.append(e.as_str());
            TextReply { status: 500, body }
        },
    }
}

} // verus!
