use shorty::domain::url::{check_url_parts, validate_long_url, LongUrlError, UrlParts};

#[test]
fn accepts_http_and_https_urls() {
    assert!(validate_long_url("https://example.com/a").is_ok());
    assert!(validate_long_url("http://example.com/a").is_ok());
}

#[test]
fn rejects_relative_or_unsupported_urls() {
    assert_eq!(validate_long_url("/local"), Err(LongUrlError::Invalid));
    assert_eq!(
        validate_long_url("ftp://example.com"),
        Err(LongUrlError::Invalid)
    );
}

#[test]
fn scheme_is_read_case_insensitively() {
    assert!(validate_long_url("HTTPS://Example.com").is_ok());
}

#[test]
fn rejects_urls_without_host_or_unparsable() {
    assert_eq!(validate_long_url("mailto:someone@example.com"), Err(LongUrlError::Invalid));
    assert_eq!(validate_long_url("not a url"), Err(LongUrlError::Invalid));
    assert_eq!(validate_long_url(""), Err(LongUrlError::Invalid));
}

#[test]
fn checks_parsed_parts() {
    let parts = |scheme: &str, has_host: bool| {
        Some(UrlParts { scheme: scheme.to_string(), has_host })
    };
    assert_eq!(check_url_parts(parts("http", true)), Ok(()));
    assert_eq!(check_url_parts(parts("https", true)), Ok(()));
    assert_eq!(check_url_parts(parts("https", false)), Err(LongUrlError::Invalid));
    assert_eq!(check_url_parts(parts("ftp", true)), Err(LongUrlError::Invalid));
    assert_eq!(check_url_parts(parts("httpss", true)), Err(LongUrlError::Invalid));
    assert_eq!(check_url_parts(None), Err(LongUrlError::Invalid));
}
