//! Per-protocol runners.
//!
//! A runner owns one configuration record and the decisions of its run:
//! validating the target before any worker starts, splitting the request
//! ceiling into per-worker quotas (see the engine), and reducing the
//! final counter snapshot and samples to the report. The shell spawns
//! the workers, performs the socket work and owns the clock; every value
//! it feeds back passes through these verified functions.

use vstd::prelude::*;

verus! {

use crate::config::{HttpConfig, TcpConfig, UdsConfig};
use crate::error::BenchmarkError;
use crate::http::{effective_port, http_target, uri_host, uri_ok, uri_port, uri_scheme};
use crate::report::{rps_milli_spec, BenchmarkReport};
use crate::stats::{avg_of, max_of, min_of, pct_of};
use crate::store::clone_string;
use vstd::string::StringExecFns;

/// What a report builder promises about every field of the report it
/// assembles, given the run's counters, samples and wall-clock time.
pub open spec fn report_matches(
    r: BenchmarkReport,
    target: Seq<char>,
    protocol: Seq<char>,
    concurrency: usize,
    completed: usize,
    successful: usize,
    bytes_sent: u64,
    bytes_received: u64,
    total_time_nanos: u64,
    samples: Seq<u64>,
) -> bool {
    &&& r.target@ == target
    &&& r.protocol@ == protocol
    &&& r.concurrency == concurrency
    &&& r.total_requests == completed
    &&& r.successful_requests == successful
    &&& r.failed_requests == completed - successful
    &&& r.total_time_nanos == total_time_nanos
    &&& r.requests_per_second_milli as nat == rps_milli_spec(
        completed as nat,
        total_time_nanos as nat,
    )
    &&& r.avg_response_time_nanos as nat == avg_of(samples)
    &&& r.min_response_time_nanos == min_of(samples)
    &&& r.max_response_time_nanos == max_of(samples)
    &&& r.p50_response_time_nanos == pct_of(samples, 50)
    &&& r.p90_response_time_nanos == pct_of(samples, 90)
    &&& r.p95_response_time_nanos == pct_of(samples, 95)
    &&& r.p99_response_time_nanos == pct_of(samples, 99)
    &&& r.bytes_sent == bytes_sent
    &&& r.bytes_received == bytes_received
}

/// Drives HTTP attempts against one URL.
pub struct HttpRunner {
    pub config: HttpConfig,
}

impl HttpRunner {
    /// Wraps the configuration of one HTTP run.
    pub fn new(config: HttpConfig) -> (r: HttpRunner)
        ensures
            r.config == config,
    {
        HttpRunner { config }
    }

    /// Resolves the run's connect target from the configured URL,
    /// rejecting a URL the HTTP stack cannot parse before any worker
    /// starts.
    pub fn resolve_target(&self) -> (r: Result<(String, u16), BenchmarkError>)
        ensures
            r is Ok <==> (uri_ok(self.config.url@) && uri_host(self.config.url@) is Some),
            r matches Ok(t) ==> Some(t.0@) == uri_host(self.config.url@) && t.1 == effective_port(
                uri_scheme(self.config.url@),
                uri_port(self.config.url@),
            ),
            r matches Err(e) ==> e matches BenchmarkError::Config(m) && (if uri_ok(
                self.config.url@,
            ) {
                m@ == "Missing host in URL"@
            } else {
                m@ == crate::http::invalid_url_message(self.config.url@)
            }),
    {
        http_target(self.config.url.as_str())
    }

    /// Reduces the finished run to its report, under the protocol tag
    /// `HTTP`.
    pub fn assemble_report(
        &self,
        completed: usize,
        successful: usize,
        bytes_sent: u64,
        bytes_received: u64,
        total_time_nanos: u64,
        samples: &Vec<u64>,
    ) -> (r: BenchmarkReport)
        requires
            successful <= completed,
        ensures
            report_matches(
                r,
                self.config.url@,
                "HTTP"@,
                self.config.concurrency,
                completed,
                successful,
                bytes_sent,
                bytes_received,
                total_time_nanos,
                samples@,
            ),
    {
        BenchmarkReport::build(
            clone_string(&self.config.url),
            String::from_str("HTTP"),
            self.config.concurrency,
            completed,
            successful,
            bytes_sent,
            bytes_received,
            total_time_nanos,
            samples,
        )
    }
}

/// Drives raw TCP attempts against one address.
pub struct TcpRunner {
    pub config: TcpConfig,
}

impl TcpRunner {
    /// Wraps the configuration of one TCP run.
    pub fn new(config: TcpConfig) -> (r: TcpRunner)
        ensures
            r.config == config,
    {
        TcpRunner { config }
    }

    /// Reduces the finished run to its report, under the protocol tag
    /// `TCP`.
    pub fn assemble_report(
        &self,
        completed: usize,
        successful: usize,
        bytes_sent: u64,
        bytes_received: u64,
        total_time_nanos: u64,
        samples: &Vec<u64>,
    ) -> (r: BenchmarkReport)
        requires
            successful <= completed,
        ensures
            report_matches(
                r,
                self.config.address@,
                "TCP"@,
                self.config.concurrency,
                completed,
                successful,
                bytes_sent,
                bytes_received,
                total_time_nanos,
                samples@,
            ),
    {
        BenchmarkReport::build(
            clone_string(&self.config.address),
            String::from_str("TCP"),
            self.config.concurrency,
            completed,
            successful,
            bytes_sent,
            bytes_received,
            total_time_nanos,
            samples,
        )
    }
}

/// Drives Unix-domain-socket attempts against one socket path.
pub struct UdsRunner {
    pub config: UdsConfig,
}

impl UdsRunner {
    /// Wraps the configuration of one UDS run.
    pub fn new(config: UdsConfig) -> (r: UdsRunner)
        ensures
            r.config == config,
    {
        UdsRunner { config }
    }

    /// Reduces the finished run to its report, under the protocol tag
    /// `Unix Domain Socket`.
    pub fn assemble_report(
        &self,
        completed: usize,
        successful: usize,
        bytes_sent: u64,
        bytes_received: u64,
        total_time_nanos: u64,
        samples: &Vec<u64>,
    ) -> (r: BenchmarkReport)
        requires
            successful <= completed,
        ensures
            report_matches(
                r,
                self.config.path@,
                "Unix Domain Socket"@,
                self.config.concurrency,
                completed,
                successful,
                bytes_sent,
                bytes_received,
                total_time_nanos,
                samples@,
            ),
    {
        BenchmarkReport::build(
            clone_string(&self.config.path),
            String::from_str("Unix Domain Socket"),
            self.config.concurrency,
            completed,
            successful,
            bytes_sent,
            bytes_received,
            total_time_nanos,
            samples,
        )
    }
}

} // verus!
