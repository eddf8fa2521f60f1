use thrustbench::stats::{mean, percentile, sort_samples, summarize};

const MS: u64 = 1_000_000;

#[test]
fn percentile_law_ten_samples() {
    // Samples 1..=10 ms under the floor-index rule, no interpolation.
    let samples: Vec<u64> = (1..=10u64).map(|x| x * MS).collect();
    let stats = summarize(&samples);
    assert_eq!(stats.p50_nanos, 6 * MS);
    assert_eq!(stats.p90_nanos, 10 * MS);
    assert_eq!(stats.p95_nanos, 10 * MS);
    assert_eq!(stats.p99_nanos, 10 * MS);
    assert_eq!(stats.min_nanos, 1 * MS);
    assert_eq!(stats.max_nanos, 10 * MS);
    assert_eq!(stats.avg_nanos, 5_500_000);
}

#[test]
fn percentiles_are_ordered() {
    let samples: Vec<u64> = vec![9, 2, 44, 17, 5, 8, 3, 3, 60, 21, 14];
    let stats = summarize(&samples);
    assert!(stats.min_nanos <= stats.p50_nanos);
    assert!(stats.p50_nanos <= stats.p90_nanos);
    assert!(stats.p90_nanos <= stats.p95_nanos);
    assert!(stats.p95_nanos <= stats.p99_nanos);
    assert!(stats.p99_nanos <= stats.max_nanos);
}

#[test]
fn empty_samples_reduce_to_zero() {
    let stats = summarize(&Vec::new());
    assert_eq!(stats.avg_nanos, 0);
    assert_eq!(stats.min_nanos, 0);
    assert_eq!(stats.max_nanos, 0);
    assert_eq!(stats.p50_nanos, 0);
    assert_eq!(stats.p90_nanos, 0);
    assert_eq!(stats.p95_nanos, 0);
    assert_eq!(stats.p99_nanos, 0);
}

#[test]
fn single_sample_everywhere() {
    let stats = summarize(&vec![7 * MS]);
    assert_eq!(stats.min_nanos, 7 * MS);
    assert_eq!(stats.max_nanos, 7 * MS);
    assert_eq!(stats.avg_nanos, 7 * MS);
    assert_eq!(stats.p50_nanos, 7 * MS);
    assert_eq!(stats.p99_nanos, 7 * MS);
}

#[test]
fn sort_orders_ascending() {
    let sorted = sort_samples(&vec![5, 1, 4, 1, 3]);
    assert_eq!(sorted, vec![1, 1, 3, 4, 5]);
}

#[test]
fn percentile_reads_floor_index() {
    let sorted: Vec<u64> = vec![10, 20, 30, 40];
    assert_eq!(percentile(&sorted, 0), 10);
    assert_eq!(percentile(&sorted, 50), 30);
    assert_eq!(percentile(&sorted, 100), 40);
    assert_eq!(percentile(&Vec::new(), 50), 0);
}

#[test]
fn mean_rounds_down() {
    assert_eq!(mean(&vec![1, 2, 2]), 1);
    assert_eq!(mean(&vec![u64::MAX, u64::MAX]), u64::MAX);
    assert_eq!(mean(&Vec::new()), 0);
}
