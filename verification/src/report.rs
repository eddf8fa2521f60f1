//! Report assembly.
//!
//! A finished run is reduced to one record: the target, the protocol tag,
//! the counters, the wall-clock time, the reduced latency statistics and
//! the transferred byte counts. Durations are nanosecond integers; the
//! throughput field is in thousandths of a request per second, rounded up
//! and saturated at `u64::MAX`, so that it is zero exactly when no attempt
//! completed or no time passed.

use vstd::prelude::*;

verus! {

use crate::stats::{avg_of, max_of, min_of, pct_of, summarize};
use vstd::arithmetic::div_mod::{
    lemma_basic_div, lemma_div_by_self, lemma_div_is_ordered,
};
use vstd::arithmetic::mul::lemma_mul_inequality;

/// One run's summary record.
#[derive(Debug, Clone)]
pub struct BenchmarkReport {
    pub target: String,
    pub protocol: String,
    pub concurrency: usize,
    pub total_requests: usize,
    pub successful_requests: usize,
    pub failed_requests: usize,
    pub total_time_nanos: u64,
    pub requests_per_second_milli: u64,
    pub avg_response_time_nanos: u64,
    pub min_response_time_nanos: u64,
    pub max_response_time_nanos: u64,
    pub p50_response_time_nanos: u64,
    pub p90_response_time_nanos: u64,
    pub p95_response_time_nanos: u64,
    pub p99_response_time_nanos: u64,
    pub bytes_sent: u64,
    pub bytes_received: u64,
}

/// Thousandths of completed requests per second of wall-clock time,
/// rounded up and saturated at `u64::MAX`; zero when no time passed.
pub open spec fn rps_milli_spec(completed: nat, total_time_nanos: nat) -> nat {
    if total_time_nanos == 0 {
        0
    } else {
        let exact = ((completed * 1_000_000_000_000 + (total_time_nanos - 1)) as int) / (
        total_time_nanos as int);
        if exact > u64::MAX as int {
            u64::MAX as nat
        } else {
            exact as nat
        }
    }
}

/// Computes the throughput field.
pub fn rps_milli(completed: usize, total_time_nanos: u64) -> (r: u64)
    ensures
        r as nat == rps_milli_spec(completed as nat, total_time_nanos as nat),
{
    if total_time_nanos == 0 {
        return 0;
    }
    proof {
        lemma_mul_inequality(completed as int, u64::MAX as int, 1_000_000_000_000);
    }
    let scaled: u128 = (completed as u128) * 1_000_000_000_000u128;
    let exact: u128 = (scaled + (total_time_nanos as u128 - 1)) / (total_time_nanos as u128);
    if exact > u64::MAX as u128 {
        u64::MAX
    } else {
        exact as u64
    }
}

impl BenchmarkReport {
    /// Assembles the report of one finished run from the counter snapshot,
    /// the collected samples and the measured wall-clock time.
    ///
    /// The counts always split exactly: total = successful + failed.
    pub fn build(
        target: String,
        protocol: String,
        concurrency: usize,
        completed: usize,
        successful: usize,
        bytes_sent: u64,
        bytes_received: u64,
        total_time_nanos: u64,
        samples: &Vec<u64>,
    ) -> (r: BenchmarkReport)
        requires
            successful <= completed,
        ensures
            r.target == target,
            r.protocol == protocol,
            r.concurrency == concurrency,
            r.total_requests == completed,
            r.successful_requests == successful,
            r.failed_requests == completed - successful,
            r.total_requests == r.successful_requests + r.failed_requests,
            r.total_time_nanos == total_time_nanos,
            r.requests_per_second_milli as nat == rps_milli_spec(
                completed as nat,
                total_time_nanos as nat,
            ),
            r.avg_response_time_nanos as nat == avg_of(samples@),
            r.min_response_time_nanos == min_of(samples@),
            r.max_response_time_nanos == max_of(samples@),
            r.p50_response_time_nanos == pct_of(samples@, 50),
            r.p90_response_time_nanos == pct_of(samples@, 90),
            r.p95_response_time_nanos == pct_of(samples@, 95),
            r.p99_response_time_nanos == pct_of(samples@, 99),
            r.bytes_sent == bytes_sent,
            r.bytes_received == bytes_received,
    {
        let lat = summarize(samples);
        BenchmarkReport {
            target,
            protocol,
            concurrency,
            total_requests: completed,
            successful_requests: successful,
            failed_requests: completed - successful,
            total_time_nanos,
            requests_per_second_milli: rps_milli(completed, total_time_nanos),
            avg_response_time_nanos: lat.avg_nanos,
            min_response_time_nanos: lat.min_nanos,
            max_response_time_nanos: lat.max_nanos,
            p50_response_time_nanos: lat.p50_nanos,
            p90_response_time_nanos: lat.p90_nanos,
            p95_response_time_nanos: lat.p95_nanos,
            p99_response_time_nanos: lat.p99_nanos,
            bytes_sent,
            bytes_received,
        }
    }
}

/// The throughput field is zero exactly when no attempt completed or no
/// wall-clock time passed.
pub proof fn law_rps_zero(completed: nat, total_time_nanos: nat)
    ensures
        rps_milli_spec(completed, total_time_nanos) == 0 <==> (completed == 0
            || total_time_nanos == 0),
{
    if total_time_nanos > 0 {
        let t = total_time_nanos;
        let scaled = completed * 1_000_000_000_000;
        if completed == 0 {
            assert(scaled == 0);
            lemma_basic_div((t - 1) as int, t as int);
        } else {
            assert(completed * 1_000_000_000_000 >= 1_000_000_000_000) by (nonlinear_arith)
                requires
                    completed >= 1,
            ;
            if t <= scaled + (t - 1) {
                lemma_div_is_ordered(t as int, (scaled + (t - 1)) as int, t as int);
                lemma_div_by_self(t as int);
            }
        }
    }
}

/// A report built from an empty sample set carries zero in every latency
/// field.
pub proof fn law_empty_samples_zero_latency(samples: Seq<u64>)
    requires
        samples.len() == 0,
    ensures
        avg_of(samples) == 0,
        min_of(samples) == 0,
        max_of(samples) == 0,
        pct_of(samples, 50) == 0,
        pct_of(samples, 90) == 0,
        pct_of(samples, 95) == 0,
        pct_of(samples, 99) == 0,
{
}

/// A report's percentile fields are ordered whenever any sample exists:
/// min <= p50 <= p90 <= p95 <= p99 <= max.
pub proof fn law_report_latency_ordered(r: BenchmarkReport, samples: Seq<u64>)
    requires
        samples.len() > 0,
        r.min_response_time_nanos == min_of(samples),
        r.max_response_time_nanos == max_of(samples),
        r.p50_response_time_nanos == pct_of(samples, 50),
        r.p90_response_time_nanos == pct_of(samples, 90),
        r.p95_response_time_nanos == pct_of(samples, 95),
        r.p99_response_time_nanos == pct_of(samples, 99),
    ensures
        r.min_response_time_nanos <= r.p50_response_time_nanos,
        r.p50_response_time_nanos <= r.p90_response_time_nanos,
        r.p90_response_time_nanos <= r.p95_response_time_nanos,
        r.p95_response_time_nanos <= r.p99_response_time_nanos,
        r.p99_response_time_nanos <= r.max_response_time_nanos,
{
    crate::stats::law_percentiles_ordered(samples);
}

/// An attempt that starts and ends inside the run interval measures a
/// latency no larger than the run's wall-clock time.
pub proof fn law_sample_within_run(started: u64, ended: u64, run_start: u64, run_end: u64)
    requires
        run_start <= started,
        started <= ended,
        ended <= run_end,
    ensures
        ended - started <= run_end - run_start,
{
}

/// The wall-clock time of a run covers its largest sample, as long as
/// every sample was measured inside the run.
pub proof fn law_total_time_covers_max(r: BenchmarkReport, samples: Seq<u64>)
    requires
        r.max_response_time_nanos == max_of(samples),
        forall|k: int| 0 <= k < samples.len() ==> samples[k] <= r.total_time_nanos,
    ensures
        r.max_response_time_nanos <= r.total_time_nanos,
{
    crate::stats::lemma_max_within(samples, r.total_time_nanos);
}

} // verus!
