use vstd::prelude::*;

use crate::application::create_short_url::CreateShortUrlInput;

verus! {

/// The body of a request to create a short URL.
#[derive(Debug)]
pub struct CreateUrlRequest {
    pub url: String,
    pub custom_code: Option<String>,
}

/// The body of the answer to a created short URL.
#[derive(Debug)]
pub struct CreateUrlResponse {
    pub code: String,
    pub short_url: String,
    pub long_url: String,
}

/// The body of the answer to a stats query.
#[derive(Debug)]
pub struct UrlStatsResponse {
    pub code: String,
    pub long_url: String,
    pub access_count: i64,
}

/// The body of an error answer.
#[derive(Debug)]
pub struct ErrorResponse {
    pub error: String,
}

impl CreateUrlRequest {
    /// The creation request that this body asks for.
    pub fn into_input(self) -> (input: CreateShortUrlInput)
        ensures
            input.long_url == self.url,
            input.custom_code == self.custom_code,
    {
        CreateShortUrlInput { long_url: self.url, custom_code: self.custom_code }
    }
}

} // verus!
