use thrustbench::error::BenchmarkError;
use thrustbench::http::{approx_request_bytes, check_method, http_target};

#[test]
fn target_takes_the_explicit_port() {
    assert_eq!(
        http_target("http://127.0.0.1:8080/path").unwrap(),
        ("127.0.0.1".to_string(), 8080)
    );
}

#[test]
fn target_defaults_to_scheme_port() {
    assert_eq!(http_target("http://example.test/").unwrap().1, 80);
    assert_eq!(http_target("https://example.test/").unwrap().1, 443);
}

#[test]
fn unparsable_url_is_a_config_error() {
    let err = http_target("http://exa mple/").unwrap_err();
    assert_eq!(
        err,
        BenchmarkError::Config("Invalid URL: http://exa mple/".to_string())
    );
}

#[test]
fn hostless_url_is_a_config_error() {
    let err = http_target("/relative/path").unwrap_err();
    assert_eq!(err, BenchmarkError::Config("Missing host in URL".to_string()));
}

#[test]
fn method_tokens_are_validated() {
    assert!(check_method("GET").is_ok());
    assert!(check_method("PATCH").is_ok());
    assert!(check_method("PURGE").is_ok());
    assert_eq!(
        check_method("BAD METHOD").unwrap_err(),
        BenchmarkError::Parse("Invalid HTTP method: BAD METHOD".to_string())
    );
    assert!(check_method("").is_err());
}

#[test]
fn sent_bytes_charge_headers_and_body() {
    let headers = vec![
        ("Accept".to_string(), "text/plain".to_string()),
        ("a".to_string(), "bb".to_string()),
    ];
    // 6 + 10 + 1 + 2 header bytes, plus a 5-byte body.
    assert_eq!(approx_request_bytes(&headers, 5), Some(24));
    assert_eq!(approx_request_bytes(&Vec::new(), 0), Some(0));
}
