use vstd::prelude::*;
use vstd::string::StringExecFns;

use crate::application::create_short_url::CreateShortUrlError;
use crate::interfaces::http::dto::{CreateUrlResponse, UrlStatsResponse};
use crate::interfaces::http::error::{
    create_error_answer, internal_error_answer, ApiError, ApiErrorView, CREATED, NOT_FOUND, OK,
    TEMPORARY_REDIRECT,
};
use crate::ports::short_url_repository::ShortUrlRecord;
use crate::text::{lemma_trim_trailing_slashes, trim_end_slashes, trim_trailing_slashes};

verus! {

/// The short link of `code` under the public base URL: the base without its trailing
/// slashes, a slash, and the code.
pub open spec fn short_url_of(public_base_url: Seq<char>, code: Seq<char>) -> Seq<char> {
    trim_trailing_slashes(public_base_url) + "/"@ + code
}

/// Builds the short link of `code`.
pub fn short_url_for(public_base_url: &str, code: &str) -> (url: String)
    ensures
        url@ == short_url_of(public_base_url@, code@),
        ({
            let base = trim_trailing_slashes(public_base_url@);
            &&& url@.len() == base.len() + 1 + code@.len()
            &&& url@.take(base.len() as int) == base
            &&& url@[base.len() as int] == '/'
            &&& url@.skip(base.len() as int + 1) == code@
        }),
{
    let mut url = String::from_str(trim_end_slashes(public_base_url));
    url.append("/");
    url.append(code);
    proof {
        reveal_strlit("/");
        let base = trim_trailing_slashes(public_base_url@);
        assert(url@.take(base.len() as int) =~= base);
        assert(url@.skip(base.len() as int + 1) =~= code@);
    }
    url
}

/// The answer to "not found".
pub open spec fn not_found_answer() -> ApiErrorView {
    ApiErrorView { status: NOT_FOUND, message: "short url not found"@ }
}

/// The answer to a creation: 201 Created with the created short URL, or the error answer.
pub fn create_url_outcome(public_base_url: &str, result: Result<ShortUrlRecord, CreateShortUrlError>) -> (answer: Result<(u16, CreateUrlResponse), ApiError>)
    ensures
        match result {
            Ok(record) => answer matches Ok((status, body)) && status == CREATED && body.code == record.code && body.long_url
                == record.long_url && body.short_url@ == short_url_of(public_base_url@, record.code@),
            Err(e) => answer matches Err(api) && api@ == create_error_answer(e@),
        },
{
    match result {
        Ok(record) => {
            let short_url = short_url_for(public_base_url, record.code.as_str());
            Ok((CREATED, CreateUrlResponse { code: record.code, short_url, long_url: record.long_url }))
        },
        Err(e) => Err(ApiError::from_create_error(e)),
    }
}

/// The answer to a resolution: a temporary redirect (307) to the URL, "not found", or an
/// internal error.
pub fn redirect_outcome(result: Result<Option<String>, anyhow::Error>) -> (answer: Result<(u16, String), ApiError>)
    ensures
        match result {
            Ok(Some(u)) => answer == Ok::<(u16, String), ApiError>((TEMPORARY_REDIRECT, u)),
            Ok(None) => answer matches Err(api) && api@ == not_found_answer(),
            Err(_) => answer matches Err(api) && api@ == internal_error_answer(),
        },
{
    match result {
        Ok(Some(u)) => Ok((TEMPORARY_REDIRECT, u)),
        Ok(None) => Err(ApiError::not_found(String::from_str("short url not found"))),
        Err(e) => Err(ApiError::internal(e)),
    }
}

/// The answer to a stats query: 200 OK with the record's code, URL and count, "not found", or
/// an internal error.
pub fn url_stats_outcome(result: Result<Option<ShortUrlRecord>, anyhow::Error>) -> (answer: Result<(u16, UrlStatsResponse), ApiError>)
    ensures
        match result {
            Ok(Some(record)) => answer matches Ok((status, body)) && status == OK && body.code == record.code && body.long_url
                == record.long_url && body.access_count == record.access_count,
            Ok(None) => answer matches Err(api) && api@ == not_found_answer(),
            Err(_) => answer matches Err(api) && api@ == internal_error_answer(),
        },
{
    match result {
        Ok(Some(record)) => Ok(
            (OK, UrlStatsResponse { code: record.code, long_url: record.long_url, access_count: record.access_count }),
        ),
        Ok(None) => Err(ApiError::not_found(String::from_str("short url not found"))),
        Err(e) => Err(ApiError::internal(e)),
    }
}

/// A short link is the public base URL with its trailing slashes removed, one `/`, and the
/// code exactly as given (same characters, same case): its last `code.len()` characters are the
/// code, and what comes before the `/` is a prefix of the base URL that only lacks slashes.
pub proof fn lemma_short_link_ends_with_code(public_base_url: Seq<char>, code: Seq<char>)
    ensures
        ({
            let link = short_url_of(public_base_url, code);
            let cut = link.len() - code.len() - 1;
            &&& link.len() >= code.len() + 1
            &&& link.skip(link.len() - code.len()) == code
            &&& link[cut] == '/'
            &&& link.take(cut) == public_base_url.take(cut)
            &&& forall|i: int| cut <= i < public_base_url.len() ==> public_base_url[i] == '/'
            &&& (cut == 0 || link[cut - 1] != '/')
        }),
{
    reveal_strlit("/");
    lemma_trim_trailing_slashes(public_base_url);
    let base = trim_trailing_slashes(public_base_url);
    let link = short_url_of(public_base_url, code);
    assert(link.skip(link.len() - code.len()) =~= code);
    assert(link.take(base.len() as int) =~= base);
}

} // verus!
