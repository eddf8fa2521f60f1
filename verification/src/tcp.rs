//! TCP (and Unix-domain-socket) adapter decisions.
//!
//! One attempt opens a connection, optionally writes the request bytes,
//! then reads. With an `expect` pattern, the accumulated response is
//! decoded as UTF-8 after every chunk and tested against the pattern;
//! the read stops at the first match, and EOF or an expired deadline
//! before a match fails the attempt. Without a pattern, the read runs to
//! EOF or to the deadline, and the deadline is a normal end, not an
//! error.
//!
//! The socket work happens outside; this module decides. The pattern
//! test itself goes through the `regex` crate behind trusted wrappers.

use vstd::prelude::*;

verus! {

use crate::error::BenchmarkError;
use vstd::string::StringExecFns;

/// Whether `regex::Regex::new` accepts the pattern.
pub uninterp spec fn regex_ok(pattern: Seq<char>) -> bool;

/// Whether the pattern matches anywhere in the text, as
/// `regex::Regex::is_match` decides it.
pub uninterp spec fn regex_matches(pattern: Seq<char>, text: Seq<char>) -> bool;

/// The strict UTF-8 decoding of the bytes, or nothing when they are not
/// valid UTF-8, as `String::from_utf8` decides it.
pub uninterp spec fn utf8_decoded(bytes: Seq<u8>) -> Option<Seq<char>>;

/// Relies on `regex::Regex::new`: whether the pattern compiles. The
/// result depends on the pattern alone.
#[verifier::external_body]
fn pattern_compiles(pattern: &str) -> (r: bool)
    ensures
        r == regex_ok(pattern@),
{
    regex::Regex::new(pattern).is_ok()
}

/// Relies on `regex::Regex::is_match` on the regex that
/// `regex::Regex::new` builds from the pattern: whether the pattern
/// matches anywhere in the text. The result depends on the two strings
/// alone.
#[verifier::external_body]
fn pattern_matches(pattern: &str, text: &str) -> (r: bool)
    requires
        regex_ok(pattern@),
    ensures
        r == regex_matches(pattern@, text@),
{
    match regex::Regex::new(pattern) {
        Ok(re) => re.is_match(text),
        Err(_) => false,
    }
}

/// Relies on `String::from_utf8`: the strict UTF-8 decoding of the
/// bytes. The result depends on the bytes alone.
#[verifier::external_body]
fn decode_utf8(bytes: &Vec<u8>) -> (r: Option<String>)
    ensures
        match r {
            Some(text) => utf8_decoded(bytes@) == Some(text@),
            None => utf8_decoded(bytes@) is None,
        },
{
    match String::from_utf8(bytes.clone()) {
        Ok(text) => Some(text),
        Err(_) => None,
    }
}

/// The use-time error of a pattern that does not compile:
/// `Parse("Invalid regex pattern: <pattern>")`.
pub open spec fn invalid_pattern_message(pattern: Seq<char>) -> Seq<char> {
    "Invalid regex pattern: "@ + pattern
}

/// The error of an `expect` read that reached EOF or the deadline first:
/// `ResponseValidation("Expected pattern '<pattern>' not found in response")`.
pub open spec fn pattern_not_found_message(pattern: Seq<char>) -> Seq<char> {
    "Expected pattern '"@ + pattern + "' not found in response"@
}

/// Validates the `expect` pattern before the read loop starts, failing
/// exactly on patterns the regex engine rejects.
pub fn check_pattern(pattern: &str) -> (r: Result<(), BenchmarkError>)
    ensures
        r is Ok <==> regex_ok(pattern@),
        match r {
            Ok(_) => true,
            Err(e) => e matches BenchmarkError::Parse(m) && m@ == invalid_pattern_message(
                pattern@,
            ),
        },
{
    if pattern_compiles(pattern) {
        Ok(())
    } else {
        let mut m = String::from_str("Invalid regex pattern: ");
        m.append(pattern);
        Err(BenchmarkError::Parse(m))
    }
}

/// Extends the response buffer with one chunk, as the read loop does
/// after every successful read.
pub fn accumulate_chunk(response: &mut Vec<u8>, chunk: &[u8])
    ensures
        final(response)@ == old(response)@ + chunk@,
{
    response.extend_from_slice(chunk);
}

/// Whether the accumulated response, decoded as UTF-8, matches the
/// expected pattern. A response that is not (yet) valid UTF-8 matches
/// nothing.
pub open spec fn buffer_matches(pattern: Seq<char>, bytes: Seq<u8>) -> bool {
    match utf8_decoded(bytes) {
        Some(text) => regex_matches(pattern, text),
        None => false,
    }
}

/// The stop test of an `expect` read, applied after every chunk.
pub fn expect_found(pattern: &str, response: &Vec<u8>) -> (r: bool)
    requires
        regex_ok(pattern@),
    ensures
        r == buffer_matches(pattern@, response@),
{
    match decode_utf8(response) {
        Some(text) => pattern_matches(pattern, text.as_str()),
        None => false,
    }
}

/// The stop test of an `expect` read, pattern validation included: an
/// invalid pattern comes back as the same `Parse` error the read-loop
/// setup reports, a valid one as whether the accumulated response
/// matches it.
pub fn try_expect_found(pattern: &str, response: &Vec<u8>) -> (r: Result<bool, BenchmarkError>)
    ensures
        r is Ok <==> regex_ok(pattern@),
        match r {
            Ok(found) => found == buffer_matches(pattern@, response@),
            Err(e) => e matches BenchmarkError::Parse(m) && m@ == invalid_pattern_message(
                pattern@,
            ),
        },
{
    match check_pattern(pattern) {
        Ok(_) => Ok(expect_found(pattern, response)),
        Err(e) => Err(e),
    }
}

/// The failure of an `expect` read whose pattern never appeared.
pub fn pattern_not_found_error(pattern: &str) -> (r: BenchmarkError)
    ensures
        r matches BenchmarkError::ResponseValidation(m) && m@ == pattern_not_found_message(
            pattern@,
        ),
{
    let mut m = String::from_str("Expected pattern '");
    m.append(pattern);
    m.append("' not found in response");
    BenchmarkError::ResponseValidation(m)
}

/// What the shell saw of one timeout-raced I/O phase: it finished, it
/// failed with an I/O error (whose text is kept), or the per-attempt
/// budget ran out first.
pub enum IoPhase {
    Completed,
    IoError(String),
    TimedOut,
}

/// Classifies the connect phase: a failed connect is
/// `ConnectionRefused`; an expired budget is `ConnectionTimeout` with
/// the budget in milliseconds.
pub fn classify_connect(outcome: IoPhase, timeout_millis: u64) -> (r: Option<BenchmarkError>)
    ensures
        match outcome {
            IoPhase::Completed => r is None,
            IoPhase::IoError(_) => r == Some(BenchmarkError::ConnectionRefused),
            IoPhase::TimedOut => r == Some(BenchmarkError::ConnectionTimeout(timeout_millis)),
        },
{
    match outcome {
        IoPhase::Completed => None,
        IoPhase::IoError(_) => Some(BenchmarkError::ConnectionRefused),
        IoPhase::TimedOut => Some(BenchmarkError::ConnectionTimeout(timeout_millis)),
    }
}

/// Classifies the write phase: an I/O failure keeps its text as `Io`;
/// an expired budget is `RequestTimeout` with the budget in
/// milliseconds.
pub fn classify_write(outcome: IoPhase, timeout_millis: u64) -> (r: Option<BenchmarkError>)
    ensures
        match outcome {
            IoPhase::Completed => r is None,
            IoPhase::IoError(m) => r == Some(BenchmarkError::Io(m)),
            IoPhase::TimedOut => r == Some(BenchmarkError::RequestTimeout(timeout_millis)),
        },
{
    match outcome {
        IoPhase::Completed => None,
        IoPhase::IoError(m) => Some(BenchmarkError::Io(m)),
        IoPhase::TimedOut => Some(BenchmarkError::RequestTimeout(timeout_millis)),
    }
}

} // verus!
