use thrustbench::config::{HttpConfig, TcpConfig, UdsConfig};
use thrustbench::engine::{per_worker_quota, run_deadline_nanos, worker_may_attempt, AttemptOutcome, RunTally};
use thrustbench::error::BenchmarkError;
use thrustbench::runner::{HttpRunner, TcpRunner, UdsRunner};

const MS: u64 = 1_000_000;

fn http_runner(url: &str, concurrency: usize, requests: usize) -> HttpRunner {
    HttpRunner::new(HttpConfig::new(
        url.to_string(),
        None,
        None,
        None,
        Some(concurrency),
        Some(requests),
        Some(30),
        Some(5000),
        false,
    ))
}

#[test]
fn http_runner_resolves_its_target() {
    let runner = http_runner("http://127.0.0.1:8080/", 4, 100);
    assert_eq!(
        runner.resolve_target().unwrap(),
        ("127.0.0.1".to_string(), 8080)
    );
}

#[test]
fn http_runner_rejects_a_bad_url_before_running() {
    let runner = http_runner("not a url", 1, 1);
    assert_eq!(
        runner.resolve_target().unwrap_err(),
        BenchmarkError::Config("Invalid URL: not a url".to_string())
    );
}

#[test]
fn http_happy_path_report() {
    // One hundred successful attempts against a fast echo endpoint.
    let runner = http_runner("http://127.0.0.1:8080/", 4, 100);
    let quota = per_worker_quota(100, 4);
    let mut tally = RunTally::new();
    for worker in 0..4usize {
        for attempt in 0..quota {
            let latency = ((worker + 1) * (attempt + 1)) as u64 * MS / 10;
            tally.record(
                &AttemptOutcome::Success { bytes_received: 13, latency_nanos: latency },
                0,
            );
        }
    }
    let report = runner.assemble_report(
        tally.completed,
        tally.successful,
        tally.bytes_sent,
        tally.bytes_received,
        9 * 1_000_000_000,
        &tally.samples,
    );
    assert_eq!(report.protocol, "HTTP");
    assert_eq!(report.target, "http://127.0.0.1:8080/");
    assert_eq!(report.successful_requests, 100);
    assert_eq!(report.failed_requests, 0);
    assert_eq!(report.bytes_received, 1300);
    assert!(report.min_response_time_nanos > 0);
    assert!(report.max_response_time_nanos <= report.total_time_nanos);
}

#[test]
fn refused_connections_all_fail() {
    // Ten attempts against a closed port: completed 10, successful 0.
    let runner = TcpRunner::new(TcpConfig::new(
        "127.0.0.1:1".to_string(),
        None,
        None,
        None,
        Some(10),
        Some(1),
        Some(100),
        false,
    ));
    let mut tally = RunTally::new();
    for _ in 0..10 {
        tally.record(&AttemptOutcome::Failure(BenchmarkError::ConnectionRefused), 0);
    }
    let report = runner.assemble_report(
        tally.completed,
        tally.successful,
        tally.bytes_sent,
        tally.bytes_received,
        50 * MS,
        &tally.samples,
    );
    assert_eq!(report.protocol, "TCP");
    assert_eq!(report.total_requests, 10);
    assert_eq!(report.successful_requests, 0);
    assert_eq!(report.failed_requests, 10);
    assert_eq!(report.max_response_time_nanos, 0);
}

#[test]
fn deadline_wins_over_request_count() {
    // A slow server at 500 ms per response under a 2 s deadline: the
    // worker issues the attempt only while the clock is before the
    // deadline, so a 1000-request run completes only a handful.
    let quota = per_worker_quota(1000, 1);
    assert_eq!(quota, 1000);
    let start: u64 = 0;
    let deadline = run_deadline_nanos(start, 2);
    let mut now = start;
    let mut attempts: usize = 0;
    while worker_may_attempt(now, deadline, attempts, quota) {
        attempts += 1;
        now += 500 * MS;
    }
    assert_eq!(attempts, 4);
    assert!(attempts <= 1000);
}

#[test]
fn unbounded_run_stops_at_the_deadline() {
    // requests = 0 means deadline-only.
    let quota = per_worker_quota(0, 8);
    let deadline = run_deadline_nanos(0, 1);
    assert!(worker_may_attempt(deadline - 1, deadline, usize::MAX - 1, quota));
    assert!(!worker_may_attempt(deadline, deadline, 0, quota));
}

#[test]
fn uds_runner_tags_its_protocol() {
    let runner = UdsRunner::new(UdsConfig::new(
        "/tmp/bench.sock".to_string(),
        Some(b"ping".to_vec()),
        None,
        Some(1),
        Some(1),
        Some(10),
        Some(1000),
        false,
    ));
    let report = runner.assemble_report(1, 1, 4, 4, MS, &vec![MS / 2]);
    assert_eq!(report.protocol, "Unix Domain Socket");
    assert_eq!(report.target, "/tmp/bench.sock");
    assert_eq!(report.p50_response_time_nanos, MS / 2);
}
