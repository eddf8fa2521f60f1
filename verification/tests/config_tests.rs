use thrustbench::config::{
    parse_headers, split_header_line, trim_str, BenchmarkConfig, HttpConfig, TcpConfig, UdsConfig,
};

#[test]
fn http_defaults_fill_absent_options() {
    let cfg = HttpConfig::new(
        "http://127.0.0.1/".to_string(),
        None,
        None,
        None,
        None,
        None,
        None,
        None,
        false,
    );
    assert_eq!(cfg.method, "GET");
    assert!(cfg.headers.is_empty());
    assert!(cfg.body.is_none());
    assert_eq!(cfg.concurrency, 1);
    assert_eq!(cfg.requests, 100);
    assert_eq!(cfg.duration_secs, 10);
    assert_eq!(cfg.timeout_millis, 30000);
    assert!(!cfg.keep_alive);
}

#[test]
fn http_explicit_options_are_kept() {
    let cfg = HttpConfig::new(
        "http://example.test/".to_string(),
        Some("POST".to_string()),
        Some(vec!["Content-Type: application/json".to_string()]),
        Some(b"{}".to_vec()),
        Some(4),
        Some(250),
        Some(30),
        Some(5000),
        true,
    );
    assert_eq!(cfg.method, "POST");
    assert_eq!(
        cfg.headers,
        vec![("Content-Type".to_string(), "application/json".to_string())]
    );
    assert_eq!(cfg.body.as_deref(), Some(b"{}".as_slice()));
    assert_eq!(cfg.concurrency, 4);
    assert_eq!(cfg.requests, 250);
    assert_eq!(cfg.duration_secs, 30);
    assert_eq!(cfg.timeout_millis, 5000);
    assert!(cfg.keep_alive);
}

#[test]
fn zero_concurrency_and_timeout_are_lifted() {
    let cfg = TcpConfig::new(
        "127.0.0.1:9".to_string(),
        None,
        None,
        Some(0),
        Some(0),
        Some(0),
        Some(0),
        false,
    );
    assert_eq!(cfg.concurrency, 1);
    assert_eq!(cfg.requests, 0);
    assert_eq!(cfg.duration_secs, 0);
    assert_eq!(cfg.timeout_millis, 1);
}

#[test]
fn trait_getters_report_the_fields() {
    let cfg = UdsConfig::new(
        "/tmp/socket".to_string(),
        Some(b"ping".to_vec()),
        Some("^pong$".to_string()),
        Some(2),
        Some(50),
        Some(5),
        Some(750),
        true,
    );
    assert_eq!(cfg.get_concurrency(), 2);
    assert_eq!(cfg.get_requests(), 50);
    assert_eq!(cfg.get_duration(), 5);
    assert_eq!(cfg.get_timeout(), 750);
    assert!(cfg.is_keep_alive());
}

#[test]
fn header_lines_split_at_first_colon_and_trim() {
    assert_eq!(
        split_header_line("  X-Key :  a:b:c  "),
        Some(("X-Key".to_string(), "a:b:c".to_string()))
    );
    assert_eq!(split_header_line("no colon here"), None);
    assert_eq!(
        split_header_line(":empty name"),
        Some(("".to_string(), "empty name".to_string()))
    );
}

#[test]
fn header_list_keeps_order_and_drops_bad_lines() {
    let parsed = parse_headers(&vec![
        "Accept: text/plain".to_string(),
        "malformed".to_string(),
        "Host:example.test".to_string(),
    ]);
    assert_eq!(
        parsed,
        vec![
            ("Accept".to_string(), "text/plain".to_string()),
            ("Host".to_string(), "example.test".to_string()),
        ]
    );
}

#[test]
fn trim_removes_surrounding_whitespace_only() {
    assert_eq!(trim_str("  a b \t"), "a b");
    assert_eq!(trim_str(""), "");
    assert_eq!(trim_str(" \n "), "");
    assert_eq!(trim_str("x"), "x");
    // The full Unicode white-space set is trimmed, as str::trim does it.
    assert_eq!(trim_str("\u{a0}\u{3000}x\u{2028}"), "x");
    assert_eq!(trim_str("  a b \t"), "  a b \t".trim());
}
