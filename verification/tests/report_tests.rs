use thrustbench::report::{rps_milli, BenchmarkReport};

const MS: u64 = 1_000_000;

#[test]
fn counts_split_exactly() {
    let report = BenchmarkReport::build(
        "127.0.0.1:9".to_string(),
        "TCP".to_string(),
        2,
        10,
        7,
        70,
        130,
        2_000_000_000,
        &vec![MS; 7],
    );
    assert_eq!(report.total_requests, 10);
    assert_eq!(report.successful_requests, 7);
    assert_eq!(report.failed_requests, 3);
    assert_eq!(
        report.total_requests,
        report.successful_requests + report.failed_requests
    );
    assert_eq!(report.bytes_sent, 70);
    assert_eq!(report.bytes_received, 130);
    assert_eq!(report.concurrency, 2);
    assert_eq!(report.target, "127.0.0.1:9");
    assert_eq!(report.protocol, "TCP");
}

#[test]
fn throughput_is_milli_requests_per_second() {
    // 10 requests over 2 seconds: 5 requests per second.
    assert_eq!(rps_milli(10, 2_000_000_000), 5_000);
    // 1 request over 3 seconds, rounded up to the next thousandth.
    assert_eq!(rps_milli(1, 3_000_000_000), 334);
}

#[test]
fn throughput_is_zero_only_without_requests_or_time() {
    assert_eq!(rps_milli(0, 5_000_000_000), 0);
    assert_eq!(rps_milli(5, 0), 0);
    assert!(rps_milli(1, u64::MAX) > 0);
}

#[test]
fn empty_sample_report_zeroes_every_latency_field() {
    let report = BenchmarkReport::build(
        "x".to_string(),
        "HTTP".to_string(),
        1,
        10,
        0,
        0,
        0,
        1_000_000_000,
        &Vec::new(),
    );
    assert_eq!(report.avg_response_time_nanos, 0);
    assert_eq!(report.min_response_time_nanos, 0);
    assert_eq!(report.max_response_time_nanos, 0);
    assert_eq!(report.p50_response_time_nanos, 0);
    assert_eq!(report.p90_response_time_nanos, 0);
    assert_eq!(report.p95_response_time_nanos, 0);
    assert_eq!(report.p99_response_time_nanos, 0);
    assert!(report.requests_per_second_milli > 0);
}

#[test]
fn zero_time_report_has_zero_throughput() {
    let report = BenchmarkReport::build(
        "x".to_string(),
        "HTTP".to_string(),
        1,
        3,
        3,
        0,
        0,
        0,
        &vec![1, 2, 3],
    );
    assert_eq!(report.requests_per_second_milli, 0);
}
