use vstd::prelude::*;

use crate::text::str_eq;
use vstd::string::StringExecFns;

verus! {

/// Why a long URL is refused.
#[derive(Debug, PartialEq, Eq, Structural)]
pub enum LongUrlError {
    Invalid,
}

/// The message of a `LongUrlError`, as its `Display` writes it.
pub open spec fn long_url_error_message(e: LongUrlError) -> Seq<char> {
    match e {
        LongUrlError::Invalid => "url must be absolute http or https"@,
    }
}

impl LongUrlError {
    /// The human-readable message of this error.
    pub fn message(&self) -> (m: String)
        ensures
            m@ == long_url_error_message(*self),
    {
        match self {
            LongUrlError::Invalid => String::from_str("url must be absolute http or https"),
        }
    }
}

/// What the URL parser reports of a parsed URL that the checks read: its scheme and
/// whether it has a host.
pub struct UrlParts {
    pub scheme: String,
    pub has_host: bool,
}

/// The scheme and host presence that `url::Url::parse` finds in `input`, or `None` where it
/// refuses the input.
pub uninterp spec fn parsed_url_parts(input: Seq<char>) -> Option<(Seq<char>, bool)>;

/// Parses `value` with `url::Url::parse` and reads the scheme (`Url::scheme`) and whether
/// there is a host (`Url::host().is_some()`).
///
/// Trusted: the result is `parsed_url_parts` of the input, a function of the input alone, and
/// the scheme is ASCII without upper-case letters, as `Url::scheme` documents ("lower-cased,
/// as an ASCII string"). What the WHATWG parser accepts is left unsaid.
#[verifier::external_body]
fn parse_url_parts(value: &str) -> (parts: Option<UrlParts>)
    ensures
        match parts {
            Some(p) => parsed_url_parts(value@) == Some((p.scheme@, p.has_host))
                && forall|i: int| 0 <= i < p.scheme@.len()
                    ==> (#[trigger] p.scheme@[i] as int) < 128 && !('A' <= p.scheme@[i] <= 'Z'),
            None => parsed_url_parts(value@) is None,
        },
{
    match ::url::Url::parse(value) {
        Ok(url) => Some(UrlParts { scheme: url.scheme().to_string(), has_host: url.host().is_some() }),
        Err(_) => None,
    }
}

/// Whether a scheme is `http` or `https`.
pub open spec fn is_web_scheme(scheme: Seq<char>) -> bool {
    scheme == "http"@ || scheme == "https"@
}

/// The verdict on a parsed URL: accepted exactly when it parsed, has an `http` or `https`
/// scheme, and has a host.
pub open spec fn long_url_verdict(parts: Option<(Seq<char>, bool)>) -> Result<(), LongUrlError> {
    match parts {
        Some((scheme, has_host)) => if is_web_scheme(scheme) && has_host {
            Ok(())
        } else {
            Err(LongUrlError::Invalid)
        },
        None => Err(LongUrlError::Invalid),
    }
}

/// The view of an optional `UrlParts`.
pub open spec fn url_parts_view(parts: Option<UrlParts>) -> Option<(Seq<char>, bool)> {
    match parts {
        Some(p) => Some((p.scheme@, p.has_host)),
        None => None,
    }
}

/// Decides on a parsed URL (or on a parse failure, `None`).
pub fn check_url_parts(parts: Option<UrlParts>) -> (res: Result<(), LongUrlError>)
    ensures
        res == long_url_verdict(url_parts_view(parts)),
{
    match parts {
        Some(p) => {
            let web = str_eq(p.scheme.as_str(), "http") || str_eq(p.scheme.as_str(), "https");
            if web && p.has_host {
                Ok(())
            } else {
                Err(LongUrlError::Invalid)
            }
        },
        None => Err(LongUrlError::Invalid),
    }
}

/// Checks that `value` is an absolute `http` or `https` URL with a host.
pub fn validate_long_url(value: &str) -> (res: Result<(), LongUrlError>)
    ensures
        res == long_url_verdict(parsed_url_parts(value@)),
{
    let parts = parse_url_parts(value);
    check_url_parts(parts)
}

} // verus!
