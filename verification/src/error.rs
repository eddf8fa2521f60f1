//! The error taxonomy of the benchmark core.
//!
//! Per-attempt errors are absorbed by the worker that saw them: they raise
//! the failure count of the run and are never surfaced upward. Only
//! configuration errors (a bad URL, a malformed pattern) abort a run.

use vstd::prelude::*;

verus! {

/// One attempt's (or one configuration's) failure cause.
///
/// The timeout variants carry the per-attempt budget in milliseconds.
/// The text variants carry the message the shell reports.
#[derive(Debug, Clone, PartialEq, Eq)]
pub enum BenchmarkError {
    /// An I/O failure not classified by any variant below.
    Io(String),
    /// An HTTP codec or framing failure.
    Http(String),
    /// The transport-layer connect failed.
    ConnectionRefused,
    /// The connect did not finish within the budget.
    ConnectionTimeout(u64),
    /// The write or the response did not finish within the budget.
    RequestTimeout(u64),
    /// A bad URL, bad numeric option, or malformed pattern at setup time.
    Config(String),
    /// The expected pattern was not seen before EOF or the deadline.
    ResponseValidation(String),
    /// A bad method token or bad pattern at use time.
    Parse(String),
    /// Anything else.
    Other(String),
}

impl From<String> for BenchmarkError {
    fn from(s: String) -> (r: Self) {
        BenchmarkError::Other(s)
    }
}

impl vstd::std_specs::convert::FromSpecImpl<String> for BenchmarkError {
    open spec fn obeys_from_spec() -> bool {
        true
    }

    open spec fn from_spec(s: String) -> Self {
        BenchmarkError::Other(s)
    }
}

} // verus!
