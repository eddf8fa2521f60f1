use thrustbench::engine::{
    per_worker_quota, run_deadline_nanos, supervisor_should_wait, worker_may_attempt,
    AttemptOutcome, RunTally, SAMPLE_CHANNEL_CAPACITY, SUPERVISOR_TICK_NANOS,
};
use thrustbench::error::BenchmarkError;

#[test]
fn quota_splits_by_ceiling() {
    assert_eq!(per_worker_quota(100, 4), 25);
    assert_eq!(per_worker_quota(10, 3), 4);
    assert_eq!(per_worker_quota(1, 8), 1);
    assert_eq!(per_worker_quota(1000, 1), 1000);
}

#[test]
fn quota_zero_requests_is_unbounded() {
    assert_eq!(per_worker_quota(0, 8), usize::MAX);
}

#[test]
fn aggregate_ceiling_overshoots_by_at_most_concurrency() {
    // completed <= N + (C - 1) for a bounded run.
    for (n, c) in [(10usize, 3usize), (100, 4), (7, 7), (1, 5), (1000, 13)] {
        let q = per_worker_quota(n, c);
        assert!(c * q >= n);
        assert!(c * q <= n + (c - 1));
    }
}

#[test]
fn worker_stops_at_deadline_or_quota() {
    assert!(worker_may_attempt(5, 10, 0, 3));
    assert!(!worker_may_attempt(10, 10, 0, 3));
    assert!(!worker_may_attempt(5, 10, 3, 3));
}

#[test]
fn supervisor_waits_only_before_deadline_with_workers_left() {
    assert!(supervisor_should_wait(5, 10, 2));
    assert!(!supervisor_should_wait(10, 10, 2));
    assert!(!supervisor_should_wait(5, 10, 0));
}

#[test]
fn deadline_is_start_plus_duration() {
    assert_eq!(run_deadline_nanos(1_000, 2), 2_000_001_000);
    assert_eq!(run_deadline_nanos(u64::MAX - 5, 1), u64::MAX);
    assert_eq!(run_deadline_nanos(0, u64::MAX), u64::MAX);
}

#[test]
fn tick_and_capacity_match_the_engine() {
    assert_eq!(SUPERVISOR_TICK_NANOS, 100_000_000);
    assert_eq!(SAMPLE_CHANNEL_CAPACITY, 10_000);
}

#[test]
fn zero_requests_and_zero_duration_mean_no_work() {
    // Neither stop condition admits an attempt; nothing runs, nothing
    // panics.
    let quota = per_worker_quota(0, 1);
    let deadline = run_deadline_nanos(42, 0);
    assert_eq!(deadline, 42);
    assert!(!worker_may_attempt(42, deadline, 0, quota));
    assert!(!supervisor_should_wait(42, deadline, 1));
}

#[test]
fn tally_counts_split_exactly() {
    // completed = successful + failed, one sample per success.
    let mut tally = RunTally::new();
    tally.record(
        &AttemptOutcome::Success { bytes_received: 13, latency_nanos: 1_500 },
        7,
    );
    tally.record(&AttemptOutcome::Failure(BenchmarkError::ConnectionRefused), 7);
    tally.record(
        &AttemptOutcome::Success { bytes_received: 13, latency_nanos: 900 },
        7,
    );
    assert_eq!(tally.completed, 3);
    assert_eq!(tally.successful, 2);
    assert_eq!(tally.failed(), 1);
    assert_eq!(tally.completed, tally.successful + tally.failed());
    assert_eq!(tally.samples, vec![1_500, 900]);
    assert_eq!(tally.samples.len(), tally.successful);
    assert_eq!(tally.bytes_sent, 14);
    assert_eq!(tally.bytes_received, 26);
}

#[test]
fn tally_failures_leave_samples_alone() {
    // Every attempt against a closed port fails; none leaves a sample.
    let mut tally = RunTally::new();
    for _ in 0..10 {
        tally.record(&AttemptOutcome::Failure(BenchmarkError::ConnectionRefused), 0);
    }
    assert_eq!(tally.completed, 10);
    assert_eq!(tally.successful, 0);
    assert_eq!(tally.failed(), 10);
    assert!(tally.samples.is_empty());
    assert_eq!(tally.bytes_sent, 0);
    assert_eq!(tally.bytes_received, 0);
}

#[test]
fn tally_byte_counters_saturate() {
    let mut tally = RunTally::new();
    tally.record(
        &AttemptOutcome::Success { bytes_received: u64::MAX, latency_nanos: 1 },
        u64::MAX,
    );
    tally.record(
        &AttemptOutcome::Success { bytes_received: 1, latency_nanos: 1 },
        1,
    );
    assert_eq!(tally.bytes_sent, u64::MAX);
    assert_eq!(tally.bytes_received, u64::MAX);
}
