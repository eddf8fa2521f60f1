//! Worker-pool engine: the decisions and the accounting of one run.
//!
//! A run drives `concurrency` parallel workers against one protocol
//! adapter. Two stop conditions hold at once: a request ceiling (zero
//! means unbounded) split into per-worker quotas, and a wall-clock
//! deadline checked before every attempt. The shell owns the clock, the
//! sockets and the tasks; this module owns every decision and every
//! counter update, over plain nanosecond and count values.

use vstd::prelude::*;

verus! {

use crate::error::BenchmarkError;
use vstd::arithmetic::div_mod::{
    lemma_div_is_ordered_by_denominator, lemma_fundamental_div_mod, lemma_div_multiples_vanish_fancy,
};
use vstd::arithmetic::mul::{lemma_mul_inequality, lemma_mul_is_distributive_add_other_way};

/// How long the supervisor sleeps between deadline checks, in nanoseconds.
pub const SUPERVISOR_TICK_NANOS: u64 = 100_000_000;

/// How many latency samples the transport channel holds at most.
pub const SAMPLE_CHANNEL_CAPACITY: usize = 10_000;

/// The per-worker request quota: the request ceiling split evenly over
/// the workers, rounded up; unbounded when the ceiling is zero.
pub open spec fn quota_spec(requests: nat, concurrency: nat) -> nat
    recommends
        concurrency >= 1,
{
    if requests == 0 {
        usize::MAX as nat
    } else {
        (requests + concurrency - 1) as nat / concurrency
    }
}

/// Computes the per-worker quota without overflowing.
pub fn per_worker_quota(requests: usize, concurrency: usize) -> (q: usize)
    requires
        concurrency >= 1,
    ensures
        q as nat == quota_spec(requests as nat, concurrency as nat),
{
    if requests == 0 {
        return usize::MAX;
    }
    let div = requests / concurrency;
    let rem = requests % concurrency;
    proof {
        lemma_fundamental_div_mod(requests as int, concurrency as int);
        if rem == 0 {
            lemma_div_multiples_vanish_fancy(div as int, (concurrency - 1) as int, concurrency as int);
            assert((requests + concurrency - 1) as nat / (concurrency as nat) == div);
        } else {
            lemma_div_multiples_vanish_fancy((div + 1) as int, (rem - 1) as int, concurrency as int);
            vstd::arithmetic::mul::lemma_mul_is_distributive_add(concurrency as int, div as int, 1);
            assert(requests + concurrency - 1 == concurrency * (div + 1) + (rem - 1));
            assert((requests + concurrency - 1) as nat / (concurrency as nat) == div + 1);
            assert(concurrency >= 2) by {
                if concurrency == 1 {
                    assert(requests % 1 == 0) by (nonlinear_arith);
                }
            }
            lemma_div_is_ordered_by_denominator(requests as int, 2, concurrency as int);
        }
    }
    if rem == 0 {
        div
    } else {
        div + 1
    }
}

/// With a positive request ceiling, the aggregate ceiling
/// `concurrency * quota` covers the requested count and overshoots it by
/// at most `concurrency - 1`.
pub proof fn law_quota_bounds(requests: nat, concurrency: nat)
    requires
        concurrency >= 1,
        requests >= 1,
    ensures
        requests <= concurrency * quota_spec(requests, concurrency),
        concurrency * quota_spec(requests, concurrency) <= requests + concurrency - 1,
{
    let padded = (requests + concurrency - 1) as int;
    lemma_fundamental_div_mod(padded, concurrency as int);
    vstd::arithmetic::div_mod::lemma_mod_bound(padded, concurrency as int);
}

/// The sum of a sequence of per-worker attempt counts.
pub open spec fn seq_sum(s: Seq<nat>) -> nat
    decreases s.len(),
{
    if s.len() == 0 {
        0
    } else {
        seq_sum(s.drop_last()) + s.last()
    }
}

/// A sequence of counts, each at most `bound`, sums to at most
/// `len * bound`.
pub proof fn lemma_seq_sum_bound(s: Seq<nat>, bound: nat)
    requires
        forall|k: int| 0 <= k < s.len() ==> s[k] <= bound,
    ensures
        seq_sum(s) <= s.len() * bound,
    decreases s.len(),
{
    if s.len() > 0 {
        lemma_seq_sum_bound(s.drop_last(), bound);
        lemma_mul_is_distributive_add_other_way(bound as int, (s.len() - 1) as int, 1);
    }
}

/// The completed-count ceiling of a bounded run: with a positive request
/// ceiling, the workers together complete at most
/// `requests + concurrency - 1` attempts, since each worker stops at its
/// quota.
pub proof fn law_completed_bound(attempts: Seq<nat>, requests: nat, concurrency: nat)
    requires
        concurrency >= 1,
        requests >= 1,
        attempts.len() == concurrency,
        forall|k: int| 0 <= k < attempts.len() ==> attempts[k] <= quota_spec(
            requests,
            concurrency,
        ),
    ensures
        seq_sum(attempts) <= requests + concurrency - 1,
{
    lemma_seq_sum_bound(attempts, quota_spec(requests, concurrency));
    law_quota_bounds(requests, concurrency);
}

/// The run's wall-clock bound: the supervisor wakes at most one tick
/// after the deadline, and at most one in-flight attempt — itself bounded
/// by the per-attempt budget — finishes after that wake-up, so the run
/// ends within `deadline + tick + timeout`.
pub proof fn law_run_duration_bound(
    deadline: nat,
    wake: nat,
    finish: nat,
    tick: nat,
    timeout: nat,
)
    requires
        wake <= deadline + tick,
        finish <= wake + timeout,
    ensures
        finish <= deadline + tick + timeout,
{
}

/// Whether a worker may issue its next attempt: the deadline has not
/// passed and its quota is not exhausted.
pub fn worker_may_attempt(
    now_nanos: u64,
    deadline_nanos: u64,
    attempts_made: usize,
    quota: usize,
) -> (r: bool)
    ensures
        r <==> (now_nanos < deadline_nanos && attempts_made < quota),
{
    now_nanos < deadline_nanos && attempts_made < quota
}

/// Whether the supervisor must keep waiting: the deadline has not passed
/// and some worker is still running.
pub fn supervisor_should_wait(now_nanos: u64, deadline_nanos: u64, workers_left: usize) -> (r:
    bool)
    ensures
        r <==> (now_nanos < deadline_nanos && workers_left > 0),
{
    now_nanos < deadline_nanos && workers_left > 0
}

/// The absolute deadline of a run: its start plus its duration in
/// seconds, saturated at the clock's range.
pub fn run_deadline_nanos(start_nanos: u64, duration_secs: u64) -> (r: u64)
    ensures
        start_nanos as nat + duration_secs as nat * 1_000_000_000 <= u64::MAX ==> r as nat
            == start_nanos as nat + duration_secs as nat * 1_000_000_000,
        start_nanos as nat + duration_secs as nat * 1_000_000_000 > u64::MAX ==> r == u64::MAX,
{
    match duration_secs.checked_mul(1_000_000_000) {
        Some(d) => start_nanos.saturating_add(d),
        None => {
            proof {
                lemma_mul_inequality(
                    u64::MAX as int / 1_000_000_000 + 1,
                    duration_secs as int,
                    1_000_000_000,
                );
            }
            u64::MAX
        },
    }
}

/// One attempt's outcome as its worker reports it: a success carries the
/// bytes received and the measured latency, a failure its cause.
pub enum AttemptOutcome {
    Success { bytes_received: u64, latency_nanos: u64 },
    Failure(BenchmarkError),
}

/// The accounting state of one run: the four counters and the collected
/// latency samples, accumulated one attempt outcome at a time.
pub struct RunTally {
    pub completed: usize,
    pub successful: usize,
    pub bytes_sent: u64,
    pub bytes_received: u64,
    pub samples: Vec<u64>,
}

impl RunTally {
    /// Exactly one sample is kept per successful attempt, and successes
    /// never outnumber completed attempts.
    pub open spec fn wf(&self) -> bool {
        &&& self.successful == self.samples@.len()
        &&& self.successful <= self.completed
    }

    /// The empty tally of a fresh run.
    pub fn new() -> (r: RunTally)
        ensures
            r.wf(),
            r.completed == 0,
            r.successful == 0,
            r.bytes_sent == 0,
            r.bytes_received == 0,
            r.samples@ == Seq::<u64>::empty(),
    {
        RunTally {
            completed: 0,
            successful: 0,
            bytes_sent: 0,
            bytes_received: 0,
            samples: Vec::new(),
        }
    }

    /// Records one attempt outcome: every attempt raises the completed
    /// count; a success also raises the success count, adds the
    /// transferred bytes (saturating) and keeps its latency sample; a
    /// failure changes nothing else.
    pub fn record(&mut self, outcome: &AttemptOutcome, bytes_sent_per_attempt: u64)
        requires
            old(self).wf(),
            old(self).completed < usize::MAX,
        ensures
            final(self).wf(),
            final(self).completed == old(self).completed + 1,
            match *outcome {
                AttemptOutcome::Success { bytes_received, latency_nanos } => {
                    &&& final(self).successful == old(self).successful + 1
                    &&& final(self).samples@ == old(self).samples@.push(latency_nanos)
                    &&& final(self).bytes_sent as int == vstd::math::min(
                        old(self).bytes_sent as int + bytes_sent_per_attempt as int,
                        u64::MAX as int,
                    )
                    &&& final(self).bytes_received as int == vstd::math::min(
                        old(self).bytes_received as int + bytes_received as int,
                        u64::MAX as int,
                    )
                },
                AttemptOutcome::Failure(_) => {
                    &&& final(self).successful == old(self).successful
                    &&& final(self).samples@ == old(self).samples@
                    &&& final(self).bytes_sent == old(self).bytes_sent
                    &&& final(self).bytes_received == old(self).bytes_received
                },
            },
    {
        self.completed = self.completed + 1;
        match outcome {
            AttemptOutcome::Success { bytes_received, latency_nanos } => {
                self.successful = self.successful + 1;
                self.bytes_sent = self.bytes_sent.saturating_add(bytes_sent_per_attempt);
                self.bytes_received = self.bytes_received.saturating_add(*bytes_received);
                self.samples.push(*latency_nanos);
            },
            AttemptOutcome::Failure(_) => {},
        }
    }

    /// The failure count of the tally.
    pub fn failed(&self) -> (r: usize)
        requires
            self.wf(),
        ensures
            r == self.completed - self.successful,
    {
        self.completed - self.successful
    }
}

/// One latency sample is kept per successful attempt: in every
/// well-formed tally, the success counter equals the sample count.
pub proof fn law_one_sample_per_success(tally: RunTally)
    requires
        tally.wf(),
    ensures
        tally.successful == tally.samples@.len(),
{
}

} // verus!
