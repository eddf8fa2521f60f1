use thrustbench::error::BenchmarkError;
use thrustbench::tcp::{
    accumulate_chunk, check_pattern, classify_connect, classify_write, pattern_not_found_error,
    try_expect_found, IoPhase,
};

#[test]
fn valid_patterns_pass_validation() {
    assert!(check_pattern("^hello$").is_ok());
    assert!(check_pattern("").is_ok());
}

#[test]
fn bad_pattern_is_a_parse_error() {
    assert_eq!(
        check_pattern("[").unwrap_err(),
        BenchmarkError::Parse("Invalid regex pattern: [".to_string())
    );
    assert!(try_expect_found("[", &Vec::new()).is_err());
}

#[test]
fn expect_stops_on_first_match() {
    // An echoed greeting satisfies the anchored pattern.
    let mut response = Vec::new();
    accumulate_chunk(&mut response, b"hello");
    assert!(try_expect_found("^hello$", &response).unwrap());
}

#[test]
fn expect_misses_other_responses() {
    // A server sending "world\n" never matches "^hello".
    let mut response = Vec::new();
    accumulate_chunk(&mut response, b"world\n");
    assert!(!try_expect_found("^hello", &response).unwrap());
}

#[test]
fn expect_ignores_incomplete_utf8() {
    let response = vec![0xff, 0xfe];
    assert!(!try_expect_found(".", &response).unwrap());
}

#[test]
fn chunks_accumulate_in_order() {
    let mut response = Vec::new();
    accumulate_chunk(&mut response, b"he");
    accumulate_chunk(&mut response, b"llo");
    assert_eq!(response, b"hello".to_vec());
    assert!(try_expect_found("^hello$", &response).unwrap());
}

#[test]
fn missed_pattern_reports_response_validation() {
    assert_eq!(
        pattern_not_found_error("^hello"),
        BenchmarkError::ResponseValidation(
            "Expected pattern '^hello' not found in response".to_string()
        )
    );
}

#[test]
fn connect_failures_classify_as_refused_or_timeout() {
    assert_eq!(classify_connect(IoPhase::Completed, 100), None);
    assert_eq!(
        classify_connect(IoPhase::IoError("refused".to_string()), 100),
        Some(BenchmarkError::ConnectionRefused)
    );
    assert_eq!(
        classify_connect(IoPhase::TimedOut, 100),
        Some(BenchmarkError::ConnectionTimeout(100))
    );
}

#[test]
fn write_failures_classify_as_io_or_timeout() {
    assert_eq!(classify_write(IoPhase::Completed, 100), None);
    assert_eq!(
        classify_write(IoPhase::IoError("broken pipe".to_string()), 100),
        Some(BenchmarkError::Io("broken pipe".to_string()))
    );
    assert_eq!(
        classify_write(IoPhase::TimedOut, 250),
        Some(BenchmarkError::RequestTimeout(250))
    );
}
