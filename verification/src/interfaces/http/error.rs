use vstd::prelude::*;
use vstd::string::StringExecFns;

use crate::application::create_short_url::{
    create_begin, create_next, CreateActionView, CreateErrorView, CreateEventView, CreateInputView,
    CreateShortUrlError,
};
use crate::domain::short_code::custom_code_verdict;
use crate::domain::url::{long_url_verdict, parsed_url_parts};
use crate::ports::short_url_repository::RepositoryErrorView;
use vstd::utf8::encode_utf8;
use crate::interfaces::http::dto::ErrorResponse;

verus! {

/// HTTP status 200.
pub const OK: u16 = 200;

/// HTTP status 201.
pub const CREATED: u16 = 201;

/// HTTP status 307.
pub const TEMPORARY_REDIRECT: u16 = 307;

/// HTTP status 400.
pub const BAD_REQUEST: u16 = 400;

/// HTTP status 404.
pub const NOT_FOUND: u16 = 404;

/// HTTP status 409.
pub const CONFLICT: u16 = 409;

/// HTTP status 500.
pub const INTERNAL_SERVER_ERROR: u16 = 500;

/// HTTP status 503.
pub const SERVICE_UNAVAILABLE: u16 = 503;

/// An error answer: an HTTP status and a message for the client.
#[derive(Debug)]
pub struct ApiError {
    status: u16,
    message: String,
}

/// The view of an `ApiError`.
pub struct ApiErrorView {
    pub status: u16,
    pub message: Seq<char>,
}

impl View for ApiError {
    type V = ApiErrorView;

    closed spec fn view(&self) -> ApiErrorView {
        ApiErrorView { status: self.status, message: self.message@ }
    }
}

/// The answer to a failed creation.
pub open spec fn create_error_answer(e: CreateErrorView) -> ApiErrorView {
    match e {
        CreateErrorView::InvalidLongUrl => ApiErrorView { status: BAD_REQUEST, message: "invalid long url"@ },
        CreateErrorView::InvalidCustomCode(message) => ApiErrorView { status: BAD_REQUEST, message },
        CreateErrorView::DuplicateCode => ApiErrorView { status: CONFLICT, message: "short code already exists"@ },
        CreateErrorView::CodeGenerationExhausted => ApiErrorView {
            status: SERVICE_UNAVAILABLE,
            message: "could not generate a unique short code"@,
        },
        CreateErrorView::Internal => internal_error_answer(),
    }
}

/// The answer to an internal failure, which hides the failure from the client.
pub open spec fn internal_error_answer() -> ApiErrorView {
    ApiErrorView { status: INTERNAL_SERVER_ERROR, message: "internal server error"@ }
}

impl ApiError {
    /// A 404 answer with the given message.
    pub fn not_found(message: String) -> (e: ApiError)
        ensures
            e@ == (ApiErrorView { status: NOT_FOUND, message: message@ }),
    {
        ApiError { status: NOT_FOUND, message }
    }

    /// A 500 answer for an internal failure; the failure itself is not shown to the client.
    pub fn internal(error: anyhow::Error) -> (e: ApiError)
        ensures
            e@ == internal_error_answer(),
    {
        ApiError { status: INTERNAL_SERVER_ERROR, message: String::from_str("internal server error") }
    }

    /// The answer to a failed creation.
    pub fn from_create_error(error: CreateShortUrlError) -> (e: ApiError)
        ensures
            e@ == create_error_answer(error@),
    {
        match error {
            CreateShortUrlError::InvalidLongUrl => ApiError {
                status: BAD_REQUEST,
                message: String::from_str("invalid long url"),
            },
            CreateShortUrlError::InvalidCustomCode(message) => ApiError { status: BAD_REQUEST, message },
            CreateShortUrlError::DuplicateCode => ApiError {
                status: CONFLICT,
                message: String::from_str("short code already exists"),
            },
            CreateShortUrlError::CodeGenerationExhausted => ApiError {
                status: SERVICE_UNAVAILABLE,
                message: String::from_str("could not generate a unique short code"),
            },
            CreateShortUrlError::Internal(error) => ApiError::internal(error),
        }
    }

    /// The HTTP status.
    pub fn status(&self) -> (s: u16)
        ensures
            s == self@.status,
    {
        self.status
    }

    /// The body of the answer: the message under `error`.
    pub fn into_body(self) -> (body: ErrorResponse)
        ensures
            body.error@ == self@.message,
    {
        ErrorResponse { error: self.message }
    }
}

/// How a refused creation is answered: an invalid URL or custom code with 400 Bad Request,
/// a taken custom code with 409 Conflict, and a generation that found no free code with 503
/// Service Unavailable.
pub proof fn lemma_refusals_answers(input: CreateInputView, a: CreateActionView)
    ensures
        long_url_verdict(parsed_url_parts(input.long_url)) is Err || (input.custom_code matches Some(
            code,
        ) && custom_code_verdict(encode_utf8(code)) is Err) ==> (create_begin(input) matches CreateActionView::Finish(
            Err(e),
        ) && create_error_answer(e).status == BAD_REQUEST),
        a matches CreateActionView::Insert { custom, attempt, .. } ==> (create_next(
            a,
            CreateEventView::Inserted(Err(RepositoryErrorView::DuplicateCode)),
        ) matches CreateActionView::Finish(Err(e)) ==> create_error_answer(e).status == if custom {
            CONFLICT
        } else {
            SERVICE_UNAVAILABLE
        }),
{
}

} // verus!
