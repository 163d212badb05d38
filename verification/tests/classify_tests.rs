use modrinth_api::utils::classify_response;
use modrinth_api::Error;

#[test]
fn status_410_is_deprecated_regardless_of_headers() {
    assert!(matches!(classify_response(410, None), Err(Error::ApiDeprecated)));
    assert!(matches!(classify_response(410, Some("30")), Err(Error::ApiDeprecated)));
}

#[test]
fn status_429_reads_the_reset_header() {
    assert!(matches!(classify_response(429, Some("30")), Err(Error::RateLimitExceeded(30))));
    assert!(matches!(classify_response(429, Some("0")), Err(Error::RateLimitExceeded(0))));
}

#[test]
fn status_429_with_a_bad_header_is_a_typed_error() {
    assert!(matches!(classify_response(429, None), Err(Error::MalformedRateLimitHeader)));
    assert!(matches!(classify_response(429, Some("abc")), Err(Error::MalformedRateLimitHeader)));
    assert!(matches!(classify_response(429, Some("")), Err(Error::MalformedRateLimitHeader)));
    assert!(matches!(classify_response(429, Some("3 0")), Err(Error::MalformedRateLimitHeader)));
    let too_big = "9".repeat(40);
    assert!(matches!(
        classify_response(429, Some(&too_big)),
        Err(Error::MalformedRateLimitHeader)
    ));
}

#[test]
fn success_and_redirect_statuses_pass() {
    assert!(classify_response(200, None).is_ok());
    assert!(classify_response(204, None).is_ok());
    assert!(classify_response(302, None).is_ok());
}

#[test]
fn other_client_and_server_errors_carry_the_status() {
    assert!(matches!(classify_response(404, None), Err(Error::HttpStatus(404))));
    assert!(matches!(classify_response(500, None), Err(Error::HttpStatus(500))));
    assert!(matches!(classify_response(599, None), Err(Error::HttpStatus(599))));
    assert!(classify_response(399, None).is_ok());
}

#[test]
fn error_messages_describe_each_variant() {
    assert_eq!(Error::InvalidIDorSlug.message(), "Invalid Modrinth ID or slug");
    assert_eq!(Error::InvalidSHA1.message(), "Invalid SHA1 hash");
    assert_eq!(
        Error::RateLimitExceeded(30).message(),
        "You have been rate limited, please wait for 30 seconds"
    );
    assert_eq!(
        Error::ApiDeprecated.message(),
        "The API at https://api.modrinth.com/v2/ is deprecated"
    );
    assert_eq!(Error::MalformedRateLimitHeader.message(), "Corrupted ratelimit header");
    assert_eq!(Error::HttpStatus(404).message(), "HTTP status error 404");
    assert_eq!(
        Error::Transport("connection refused".to_string()).message(),
        "Transport error: connection refused"
    );
    assert_eq!(
        Error::Serialization("missing field".to_string()).message(),
        "Serialization error: missing field"
    );
}
