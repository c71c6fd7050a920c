//! Laws of the services: which requests are served, and with which image.

use crate::cache::key::{archive_of, ImageKey};
use crate::http::service::{
    answer_request, answers, md_service, not_found_service, prom_service, MdPathArgs, TextReply,
};
use crate::tokens::{url_token_outcome, TokenError, TokenPayload, TokenVerifier};
use vstd::prelude::*;

verus! {

/// Two names are not the same text.
proof fn lemma_archives_differ()
    ensures
        "data"@ != "data-saver"@,
{
    reveal_strlit("data");
    reveal_strlit("data-saver");
    assert("data"@.len() == 4 && "data-saver"@.len() == 10);
}

/// A request that is served, with a verified token or with tokens skipped, is served with the image
/// that its path names: its chapter, its file, and its archive.
pub proof fn the_named_image_is_served(
    args: MdPathArgs,
    skip_tokens: bool,
    token: Option<Result<(), TokenError>>,
    key: ImageKey,
)
    requires
        answers(args, skip_tokens, token, Ok(key)),
    ensures
        key@.0 == args.chap_hash@,
        key@.1 == args.image@,
        archive_of(key@.2) == args.archive_type@,
        key@.2 == (args.archive_type@ == "data-saver"@),
{
    lemma_archives_differ();
}

/// The same, as the key tells it.
pub proof fn a_served_key_tells_the_path(
    args: MdPathArgs,
    skip_tokens: bool,
    token: Option<Result<(), TokenError>>,
    key: ImageKey,
    chapter: &str,
    image: &str,
    archive: &'static str,
)
    requires
        call_ensures(answer_request, (args, skip_tokens, token), Ok(key)),
        call_ensures(ImageKey::chapter, (&key,), chapter),
        call_ensures(ImageKey::image, (&key,), image),
        call_ensures(ImageKey::archive_name, (&key,), archive),
    ensures
        chapter@ == args.chap_hash@,
        image@ == args.image@,
        archive@ == args.archive_type@,
{
    lemma_archives_differ();
}

/// Requests are served exactly for the two archives and, unless tokens are skipped, with a token that
/// was verified. The others are answered with what is wrong with them, the archive first.
pub proof fn requests_are_answered(
    args: MdPathArgs,
    skip_tokens: bool,
    token: Option<Result<(), TokenError>>,
    r: Result<ImageKey, TextReply>,
    body: String,
    status: u16,
)
    requires
        call_ensures(answer_request, (args, skip_tokens, token), r),
        token matches Some(Err(e)) ==> call_ensures(TokenError::error_response, (&e,), body),
        token matches Some(Err(e)) ==> call_ensures(TokenError::status_code, (&e,), status),
    ensures
        r is Ok == ((args.archive_type@ == "data"@ || args.archive_type@ == "data-saver"@) && (
        skip_tokens || token == Some(Ok::<(), TokenError>(())))),
        r matches Err(reply) ==> {
            if args.archive_type@ != "data"@ && args.archive_type@ != "data-saver"@ {
                reply.status == 404 && reply.body@
                    == "invalid archive type. must be one of [\"data\", \"data-saver\"]"@
            } else if token is None {
                reply.status == 401 && reply.body@ == "no token provided"@
            } else {
                reply.status == status && reply.body@ == body@
            }
        },
{
    if let Some(Ok(u)) = token {
        assert(u == ());
    }
}

/// A request without a token is served only where tokens are skipped, and one with a token only if the
/// token is verified for its chapter.
pub proof fn served_requests_have_a_token<F: Fn(&str) -> Option<TokenPayload>>(
    args: MdPathArgs,
    skip_tokens: bool,
    verifier: &TokenVerifier,
    parse: F,
    key: ImageKey,
)
    requires
        call_ensures(md_service::<F>, (args, skip_tokens, verifier, parse), Ok(key)),
    ensures
        key@.0 == args.chap_hash@,
        key@.1 == args.image@,
        archive_of(key@.2) == args.archive_type@,
        args.archive_type@ == "data"@ || args.archive_type@ == "data-saver"@,
        skip_tokens || (args.token is Some && url_token_outcome(
            verifier.key(),
            args.token->0@,
            args.chap_hash@,
            parse,
            Ok(()),
        )),
{
    lemma_archives_differ();
    if !skip_tokens {
        let verified = choose|verified: Result<(), TokenError>|
            {
                &&& #[trigger] url_token_outcome(
                    verifier.key(),
                    args.token->0@,
                    args.chap_hash@,
                    parse,
                    verified,
                )
                &&& answers(args, skip_tokens, Some(verified), Ok(key))
            };
        assert(verified is Ok);
        assert(verified == Ok::<(), TokenError>(()));
    }
}

/// With tokens skipped, every request for one of the two archives is served; else one without a token
/// is unauthorized, and one with a token is served or answered as its verification says.
pub proof fn requests_meet_their_answer<F: Fn(&str) -> Option<TokenPayload>>(
    args: MdPathArgs,
    skip_tokens: bool,
    verifier: &TokenVerifier,
    parse: F,
    r: Result<ImageKey, TextReply>,
)
    requires
        call_ensures(md_service::<F>, (args, skip_tokens, verifier, parse), r),
    ensures
        if args.archive_type@ != "data"@ && args.archive_type@ != "data-saver"@ {
            r matches Err(reply) && reply.status == 404
        } else if skip_tokens {
            r is Ok
        } else if args.token is None {
            r matches Err(reply) && reply.status == 401 && reply.body@ == "no token provided"@
        } else {
            r is Err ==> exists|e: TokenError| #[trigger]
                url_token_outcome(
                    verifier.key(),
                    args.token->0@,
                    args.chap_hash@,
                    parse,
                    Err(e),
                )
        },
{
    if r is Err && !skip_tokens && args.token is Some && (args.archive_type@ == "data"@
        || args.archive_type@ == "data-saver"@) {
        let verified = choose|verified: Result<(), TokenError>|
            {
                &&& #[trigger] url_token_outcome(
                    verifier.key(),
                    args.token->0@,
                    args.chap_hash@,
                    parse,
                    verified,
                )
                &&& answers(args, skip_tokens, Some(verified), r)
            };
        assert(verified is Err);
        let e = verified->Err_0;
        assert(url_token_outcome(
            verifier.key(),
            args.token->0@,
            args.chap_hash@,
            parse,
            Err(e),
        ));
    }
}

/// Paths that lead nowhere are not found; metrics are sent as they are, and an error in encoding them
/// is told.
pub proof fn other_requests_are_answered(
    nowhere: TextReply,
    encoded: Result<String, String>,
    metrics: TextReply,
)
    requires
        call_ensures(not_found_service, (), nowhere),
        call_ensures(prom_service, (encoded,), metrics),
    ensures
        nowhere.status == 404,
        nowhere.body@ == "no valid route found"@,
        metrics.status == if encoded is Ok {
            200
        } else {
            500int
        },
        encoded matches Ok(text) ==> metrics.body@ == text@,
        encoded matches Err(e) ==> metrics.body@ == "error encoding metrics: "@ + e@,
{
}

} // verus!
