//! HTTP adapter decisions.
//!
//! One attempt performs exactly one HTTP/1.1 transaction over a fresh
//! connection. Before any socket is touched, the URL is resolved to a
//! connect target (host and effective port) and the method token is
//! validated; both reject bad configurations without an attempt. The
//! socket and codec work happens outside; URL parsing and method
//! validation go through `hyper` behind trusted wrappers.

use vstd::prelude::*;

verus! {

use crate::config::headers_view;
use crate::error::BenchmarkError;
use vstd::string::StringExecFns;
use vstd::utf8::encode_utf8;

/// Whether the string parses as a URI, as `hyper::Uri`'s parse decides.
pub uninterp spec fn uri_ok(url: Seq<char>) -> bool;

/// The host of the parsed URI, as `hyper::Uri::host` returns it.
pub uninterp spec fn uri_host(url: Seq<char>) -> Option<Seq<char>>;

/// The explicit port of the parsed URI, as `hyper::Uri::port_u16`
/// returns it.
pub uninterp spec fn uri_port(url: Seq<char>) -> Option<u16>;

/// The scheme of the parsed URI, as `hyper::Uri::scheme_str` returns it.
pub uninterp spec fn uri_scheme(url: Seq<char>) -> Option<Seq<char>>;

/// Whether the token names a standard or extension HTTP method, as
/// `hyper::Method::from_bytes` decides.
pub uninterp spec fn method_token_ok(method: Seq<char>) -> bool;

/// The view of an optional owned string.
pub open spec fn opt_str_view(o: Option<String>) -> Option<Seq<char>> {
    match o {
        Some(s) => Some(s@),
        None => None,
    }
}

/// Relies on `hyper::Uri`'s parse (`FromStr`) and its `host`,
/// `port_u16` and `scheme_str` accessors: the parse and every accessor
/// are functions of the URL string alone.
#[verifier::external_body]
fn parse_uri_parts(url: &str) -> (r: Option<(Option<String>, Option<u16>, Option<String>)>)
    ensures
        r is Some <==> uri_ok(url@),
        match r {
            Some(parts) => {
                &&& opt_str_view(parts.0) == uri_host(url@)
                &&& parts.1 == uri_port(url@)
                &&& opt_str_view(parts.2) == uri_scheme(url@)
            },
            None => true,
        },
{
    match url.parse::<hyper::Uri>() {
        Ok(u) => Some(
            (
                u.host().map(|h| h.to_string()),
                u.port_u16(),
                u.scheme_str().map(|s| s.to_string()),
            ),
        ),
        Err(_) => None,
    }
}

/// Relies on `hyper::Method::from_bytes`: whether the token is accepted
/// as an HTTP method. The result depends on the token alone; an empty
/// token is never accepted.
#[verifier::external_body]
fn method_accepted(method: &str) -> (r: bool)
    ensures
        r == method_token_ok(method@),
        method@.len() == 0 ==> !r,
{
    hyper::Method::from_bytes(method.as_bytes()).is_ok()
}

/// The effective port of an HTTP target: the explicit port when the URL
/// names one, else 443 under the `https` scheme, else 80.
pub open spec fn effective_port(scheme: Option<Seq<char>>, port: Option<u16>) -> u16 {
    match port {
        Some(p) => p,
        None => if scheme == Some("https"@) {
            443u16
        } else {
            80u16
        },
    }
}

/// The setup-time error of a URL that does not parse:
/// `Config("Invalid URL: <url>")`.
pub open spec fn invalid_url_message(url: Seq<char>) -> Seq<char> {
    "Invalid URL: "@ + url
}

/// Resolves the connect target of an HTTP attempt from its URL: the host
/// and the effective port. A URL that does not parse is rejected as
/// `Config("Invalid URL: <url>")`; one without a host as
/// `Config("Missing host in URL")`.
pub fn http_target(url: &str) -> (r: Result<(String, u16), BenchmarkError>)
    ensures
        r is Ok <==> (uri_ok(url@) && uri_host(url@) is Some),
        match r {
            Ok(t) => {
                &&& Some(t.0@) == uri_host(url@)
                &&& t.1 == effective_port(uri_scheme(url@), uri_port(url@))
            },
            Err(e) => {
                if uri_ok(url@) {
                    e matches BenchmarkError::Config(m) && m@ == "Missing host in URL"@
                } else {
                    e matches BenchmarkError::Config(m) && m@ == invalid_url_message(url@)
                }
            },
        },
{
    match parse_uri_parts(url) {
        None => {
            let mut m = String::from_str("Invalid URL: ");
            m.append(url);
            Err(BenchmarkError::Config(m))
        },
        Some(parts) => {
            let (host, port, scheme) = parts;
            match host {
                None => Err(BenchmarkError::Config(String::from_str("Missing host in URL"))),
                Some(h) => {
                    let p: u16 = match port {
                        Some(p) => p,
                        None => {
                            let https = String::from_str("https");
                            let is_https = match &scheme {
                                Some(s) => *s == https,
                                None => false,
                            };
                            if is_https {
                                443
                            } else {
                                80
                            }
                        },
                    };
                    Ok((h, p))
                },
            }
        },
    }
}

/// Validates the method token before the request is built, failing
/// exactly on tokens the HTTP stack rejects:
/// `Parse("Invalid HTTP method: <method>")`.
pub fn check_method(method: &str) -> (r: Result<(), BenchmarkError>)
    ensures
        r is Ok <==> method_token_ok(method@),
        match r {
            Ok(_) => true,
            Err(e) => e matches BenchmarkError::Parse(m) && m@ == "Invalid HTTP method: "@
                + method@,
        },
{
    if method_accepted(method) {
        Ok(())
    } else {
        let mut m = String::from_str("Invalid HTTP method: ");
        m.append(method);
        Err(BenchmarkError::Parse(m))
    }
}

/// The byte count one HTTP attempt is charged with: the body length plus
/// the UTF-8 length of every header name and value. The request line,
/// separators and header colons are deliberately not counted, so the
/// reported total is an approximation that underestimates the wire size.
pub open spec fn header_pair_bytes(h: (Seq<char>, Seq<char>)) -> nat {
    encode_utf8(h.0).len() + encode_utf8(h.1).len()
}

/// The headers' share of the charged byte count.
pub open spec fn headers_bytes(hs: Seq<(Seq<char>, Seq<char>)>) -> nat
    decreases hs.len(),
{
    if hs.len() == 0 {
        0
    } else {
        headers_bytes(hs.drop_last()) + header_pair_bytes(hs.last())
    }
}

/// The whole charged byte count of one attempt.
pub open spec fn approx_sent_bytes(hs: Seq<(Seq<char>, Seq<char>)>, body_len: nat) -> nat {
    headers_bytes(hs) + body_len
}

proof fn lemma_headers_bytes_prefix(hs: Seq<(Seq<char>, Seq<char>)>, i: int)
    requires
        0 <= i <= hs.len(),
    ensures
        headers_bytes(hs.take(i)) <= headers_bytes(hs),
    decreases hs.len() - i,
{
    if i < hs.len() {
        assert(hs.take(i + 1).drop_last() =~= hs.take(i));
        assert(hs.take(i + 1).last() == hs[i]);
        lemma_headers_bytes_prefix(hs, i + 1);
    } else {
        assert(hs.take(i) =~= hs);
    }
}

/// Computes the charged byte count of one attempt, or nothing when it
/// does not fit the counter.
pub fn approx_request_bytes(headers: &Vec<(String, String)>, body_len: usize) -> (r: Option<
    usize,
>)
    ensures
        match r {
            Some(v) => v as nat == approx_sent_bytes(headers_view(headers@), body_len as nat),
            None => approx_sent_bytes(headers_view(headers@), body_len as nat) > usize::MAX,
        },
{
    let ghost hv = headers_view(headers@);
    let mut sum: usize = 0;
    let mut i: usize = 0;
    proof {
        assert(hv.take(0) =~= Seq::<(Seq<char>, Seq<char>)>::empty());
    }
    while i < headers.len()
        invariant
            i <= headers@.len(),
            hv == headers_view(headers@),
            hv.len() == headers@.len(),
            forall|k: int| 0 <= k < headers@.len() ==> hv[k] == (headers@[k].0@, headers@[k].1@),
            sum as nat == headers_bytes(hv.take(i as int)),
        decreases headers@.len() - i,
    {
        let ghost before = sum as nat;
        proof {
            assert(hv.take(i + 1).drop_last() =~= hv.take(i as int));
            assert(hv.take(i + 1).last() == hv[i as int]);
        }
        let name_len = headers[i].0.as_str().as_bytes().len();
        let value_len = headers[i].1.as_str().as_bytes().len();
        proof {
            assert(headers_bytes(hv.take(i + 1)) == headers_bytes(hv.take(i as int))
                + header_pair_bytes(hv[i as int]));
        }
        let pair_len = match name_len.checked_add(value_len) {
            Some(v) => v,
            None => {
                proof {
                    lemma_headers_bytes_prefix(hv, i + 1);
                    assert(headers_bytes(hv) > usize::MAX);
                }
                return None;
            },
        };
        sum = match sum.checked_add(pair_len) {
            Some(v) => v,
            None => {
                proof {
                    lemma_headers_bytes_prefix(hv, i + 1);
                    assert(headers_bytes(hv) > usize::MAX);
                }
                return None;
            },
        };
        i += 1;
    }
    proof {
        assert(hv.take(headers@.len() as int) =~= hv);
    }
    sum.checked_add(body_len)
}

} // verus!
