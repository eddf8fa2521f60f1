//! Configuration records.
//!
//! A run is described by one of three records — HTTP, TCP or Unix domain
//! socket — sharing the load parameters: concurrency (at least 1), a
//! request ceiling (zero meaning unbounded), a duration in seconds and a
//! per-attempt timeout in milliseconds (at least 1). Absent options fall
//! back to the defaults; a zero concurrency or timeout is lifted to the
//! smallest legal value, so every record satisfies its invariant.
//!
//! HTTP header options arrive as `name:value` strings; they are split at
//! the first colon and both sides are trimmed of leading and trailing
//! whitespace. Strings without a colon are dropped.

use vstd::prelude::*;

verus! {

use vstd::string::StrSliceExecFns;
use vstd::string::StringExecFns;

pub const DEFAULT_CONCURRENCY: usize = 1;

pub const DEFAULT_REQUESTS: usize = 100;

pub const DEFAULT_DURATION_SECS: u64 = 10;

pub const DEFAULT_TIMEOUT_MILLIS: u64 = 30000;

/// The default HTTP method.
pub fn default_method() -> (r: String)
    ensures
        r@ == "GET"@,
{
    String::from_str("GET")
}

/// The characters `str::trim` removes: the Unicode white-space set.
pub open spec fn is_space(c: char) -> bool {
    ||| c as u32 == 0x9
    ||| c as u32 == 0xa
    ||| c as u32 == 0xb
    ||| c as u32 == 0xc
    ||| c as u32 == 0xd
    ||| c as u32 == 0x20
    ||| c as u32 == 0x85
    ||| c as u32 == 0xa0
    ||| c as u32 == 0x1680
    ||| (0x2000 <= c as u32 && c as u32 <= 0x200a)
    ||| c as u32 == 0x2028
    ||| c as u32 == 0x2029
    ||| c as u32 == 0x202f
    ||| c as u32 == 0x205f
    ||| c as u32 == 0x3000
}

/// Decides `is_space`.
pub fn is_space_char(c: char) -> (r: bool)
    ensures
        r == is_space(c),
{
    let v = c as u32;
    v == 0x9 || v == 0xa || v == 0xb || v == 0xc || v == 0xd || v == 0x20 || v == 0x85 || v == 0xa0
        || v == 0x1680 || (0x2000 <= v && v <= 0x200a) || v == 0x2028 || v == 0x2029 || v == 0x202f
        || v == 0x205f || v == 0x3000
}

/// A sequence with its leading white space removed.
pub open spec fn trim_start_spec(s: Seq<char>) -> Seq<char>
    decreases s.len(),
{
    if s.len() == 0 {
        s
    } else if is_space(s[0]) {
        trim_start_spec(s.drop_first())
    } else {
        s
    }
}

/// A sequence with its trailing white space removed.
pub open spec fn trim_end_spec(s: Seq<char>) -> Seq<char>
    decreases s.len(),
{
    if s.len() == 0 {
        s
    } else if is_space(s.last()) {
        trim_end_spec(s.drop_last())
    } else {
        s
    }
}

/// What `str::trim` returns.
pub open spec fn trim_spec(s: Seq<char>) -> Seq<char> {
    trim_end_spec(trim_start_spec(s))
}

proof fn lemma_trim_start_skip(s: Seq<char>, i: int)
    requires
        0 <= i <= s.len(),
        forall|k: int| 0 <= k < i ==> is_space(s[k]),
    ensures
        trim_start_spec(s) == trim_start_spec(s.skip(i)),
    decreases i,
{
    if i > 0 {
        assert(s.len() > 0 && is_space(s[0]));
        assert(trim_start_spec(s) == trim_start_spec(s.drop_first()));
        lemma_trim_start_skip(s.drop_first(), i - 1);
        assert(s.drop_first().skip(i - 1) =~= s.skip(i));
    } else {
        assert(s.skip(0) =~= s);
    }
}

proof fn lemma_trim_end_take(s: Seq<char>, i: int)
    requires
        0 <= i <= s.len(),
        forall|k: int| i <= k < s.len() ==> is_space(s[k]),
    ensures
        trim_end_spec(s) == trim_end_spec(s.take(i)),
    decreases s.len() - i,
{
    if i < s.len() {
        assert(is_space(s.last()));
        assert(trim_end_spec(s) == trim_end_spec(s.drop_last()));
        lemma_trim_end_take(s.drop_last(), i);
        assert(s.drop_last().take(i) =~= s.take(i));
    } else {
        assert(s.take(i) =~= s);
    }
}

/// Removes leading and trailing white space, as `str::trim` does.
pub fn trim_str(s: &str) -> (r: String)
    ensures
        r@ == trim_spec(s@),
{
    let n = s.unicode_len();
    let mut start: usize = 0;
    while start < n && is_space_char(s.get_char(start))
        invariant
            start <= n,
            n == s@.len(),
            forall|k: int| 0 <= k < start ==> is_space(s@[k]),
        decreases n - start,
    {
        start += 1;
    }
    proof {
        lemma_trim_start_skip(s@, start as int);
        if start < n {
            assert(s@.skip(start as int)[0] == s@[start as int]);
            assert(trim_start_spec(s@.skip(start as int)) == s@.skip(start as int));
        } else {
            assert(s@.skip(start as int) =~= Seq::<char>::empty());
        }
    }
    let mut end: usize = n;
    while end > start && is_space_char(s.get_char(end - 1))
        invariant
            start <= end <= n,
            n == s@.len(),
            forall|k: int| 0 <= k < start ==> is_space(s@[k]),
            forall|k: int| end <= k < n ==> is_space(s@[k]),
            trim_start_spec(s@) == s@.skip(start as int),
        decreases end,
    {
        end -= 1;
    }
    proof {
        let core = s@.skip(start as int);
        lemma_trim_end_take(core, end - start);
        if end > start {
            assert(!is_space(s@[end - 1]));
            let kept = core.take(end - start);
            assert(kept.last() == s@[end - 1]);
            assert(trim_end_spec(kept) == kept);
        } else {
            assert(core.take(0) =~= Seq::<char>::empty());
        }
        assert(core.take(end - start) =~= s@.subrange(start as int, end as int));
    }
    let trimmed = s.substring_char(start, end);
    trimmed.to_owned()
}

/// Whether the sequence holds a colon.
pub open spec fn has_colon(s: Seq<char>) -> bool {
    exists|i: int| 0 <= i < s.len() && s[i] == ':'
}

/// Whether `i` is the first colon of the sequence.
pub open spec fn first_colon_at(s: Seq<char>, i: int) -> bool {
    &&& 0 <= i < s.len()
    &&& s[i] == ':'
    &&& forall|k: int| 0 <= k < i ==> s[k] != ':'
}

/// What one `name:value` option contributes: the trimmed text on either
/// side of the first colon, or nothing when there is no colon.
pub open spec fn split_header_spec(s: Seq<char>) -> Option<(Seq<char>, Seq<char>)> {
    if has_colon(s) {
        let i = choose|i: int| first_colon_at(s, i);
        Some((trim_spec(s.take(i)), trim_spec(s.skip(i + 1))))
    } else {
        None
    }
}

proof fn lemma_first_colon_unique(s: Seq<char>, i: int, j: int)
    requires
        first_colon_at(s, i),
        first_colon_at(s, j),
    ensures
        i == j,
{
    if i < j {
        assert(s[i] != ':');
    }
    if j < i {
        assert(s[j] != ':');
    }
}

/// Splits one header option at its first colon and trims both sides.
pub fn split_header_line(s: &str) -> (r: Option<(String, String)>)
    ensures
        match r {
            Some(p) => split_header_spec(s@) == Some((p.0@, p.1@)),
            None => split_header_spec(s@) is None,
        },
{
    let n = s.unicode_len();
    let mut i: usize = 0;
    while i < n && s.get_char(i) != ':'
        invariant
            i <= n,
            n == s@.len(),
            forall|k: int| 0 <= k < i ==> s@[k] != ':',
        decreases n - i,
    {
        i += 1;
    }
    if i == n {
        proof {
            assert(!has_colon(s@));
        }
        return None;
    }
    proof {
        assert(first_colon_at(s@, i as int));
        let j = choose|j: int| first_colon_at(s@, j);
        lemma_first_colon_unique(s@, i as int, j);
        assert(s@.subrange(0, i as int) =~= s@.take(i as int));
        assert(s@.subrange(i + 1, n as int) =~= s@.skip(i + 1));
    }
    let name = trim_str(s.substring_char(0, i));
    let value = trim_str(s.substring_char(i + 1, n));
    Some((name, value))
}

/// The spec-level view of a parsed header list.
pub open spec fn headers_view(h: Seq<(String, String)>) -> Seq<(Seq<char>, Seq<char>)> {
    h.map_values(|p: (String, String)| (p.0@, p.1@))
}

/// What a whole header-option list contributes, in order.
pub open spec fn parse_headers_spec(lines: Seq<Seq<char>>) -> Seq<(Seq<char>, Seq<char>)>
    decreases lines.len(),
{
    if lines.len() == 0 {
        Seq::empty()
    } else {
        let rest = parse_headers_spec(lines.drop_last());
        match split_header_spec(lines.last()) {
            Some(p) => rest.push(p),
            None => rest,
        }
    }
}

/// Parses every `name:value` option, keeping order and dropping strings
/// without a colon.
pub fn parse_headers(lines: &Vec<String>) -> (r: Vec<(String, String)>)
    ensures
        headers_view(r@) == parse_headers_spec(lines.deep_view()),
{
    let mut out: Vec<(String, String)> = Vec::new();
    let mut i: usize = 0;
    proof {
        assert(lines.deep_view().take(0) =~= Seq::<Seq<char>>::empty());
        assert(headers_view(out@) =~= parse_headers_spec(lines.deep_view().take(0)));
    }
    while i < lines.len()
        invariant
            i <= lines@.len(),
            lines.deep_view().len() == lines@.len(),
            forall|k: int| 0 <= k < lines@.len() ==> lines.deep_view()[k] == lines@[k]@,
            headers_view(out@) == parse_headers_spec(lines.deep_view().take(i as int)),
        decreases lines@.len() - i,
    {
        let ghost prefix = lines.deep_view().take(i as int);
        let ghost prefix_next = lines.deep_view().take(i + 1);
        proof {
            assert(prefix_next.drop_last() =~= prefix);
            assert(prefix_next.last() == lines@[i as int]@);
        }
        match split_header_line(&lines[i]) {
            Some(pair) => {
                let ghost before = out@;
                out.push(pair);
                proof {
                    assert(headers_view(out@) =~= headers_view(before).push((pair.0@, pair.1@)));
                }
            },
            None => {},
        }
        i += 1;
    }
    proof {
        assert(lines.deep_view().take(lines@.len() as int) =~= lines.deep_view());
    }
    out
}

/// The record invariant: at least one worker and a positive timeout.
pub open spec fn load_params_wf(concurrency: usize, timeout_millis: u64) -> bool {
    concurrency >= 1 && timeout_millis >= 1
}

/// An absent or zero concurrency falls back to the default.
pub open spec fn resolved_concurrency(c: Option<usize>) -> usize {
    match c {
        None => DEFAULT_CONCURRENCY,
        Some(v) => if v == 0 {
            1
        } else {
            v
        },
    }
}

/// An absent request ceiling falls back to the default.
pub open spec fn resolved_requests(r: Option<usize>) -> usize {
    match r {
        None => DEFAULT_REQUESTS,
        Some(v) => v,
    }
}

/// An absent duration falls back to the default.
pub open spec fn resolved_duration(d: Option<u64>) -> u64 {
    match d {
        None => DEFAULT_DURATION_SECS,
        Some(v) => v,
    }
}

/// An absent or zero timeout falls back to a legal value.
pub open spec fn resolved_timeout(t: Option<u64>) -> u64 {
    match t {
        None => DEFAULT_TIMEOUT_MILLIS,
        Some(v) => if v == 0 {
            1
        } else {
            v
        },
    }
}

fn concurrency_or_default(c: Option<usize>) -> (r: usize)
    ensures
        r == resolved_concurrency(c),
{
    match c {
        None => DEFAULT_CONCURRENCY,
        Some(v) => if v == 0 {
            1
        } else {
            v
        },
    }
}

fn requests_or_default(r: Option<usize>) -> (res: usize)
    ensures
        res == resolved_requests(r),
{
    match r {
        None => DEFAULT_REQUESTS,
        Some(v) => v,
    }
}

fn duration_or_default(d: Option<u64>) -> (r: u64)
    ensures
        r == resolved_duration(d),
{
    match d {
        None => DEFAULT_DURATION_SECS,
        Some(v) => v,
    }
}

fn timeout_or_default(t: Option<u64>) -> (r: u64)
    ensures
        r == resolved_timeout(t),
{
    match t {
        None => DEFAULT_TIMEOUT_MILLIS,
        Some(v) => if v == 0 {
            1
        } else {
            v
        },
    }
}

/// The load parameters every protocol variant shares.
pub trait BenchmarkConfig {
    spec fn spec_concurrency(&self) -> usize;

    spec fn spec_requests(&self) -> usize;

    spec fn spec_duration_secs(&self) -> u64;

    spec fn spec_timeout_millis(&self) -> u64;

    spec fn spec_keep_alive(&self) -> bool;

    fn get_concurrency(&self) -> (r: usize)
        ensures
            r == self.spec_concurrency(),
    ;

    fn get_requests(&self) -> (r: usize)
        ensures
            r == self.spec_requests(),
    ;

    /// The run duration, in seconds.
    fn get_duration(&self) -> (r: u64)
        ensures
            r == self.spec_duration_secs(),
    ;

    /// The per-attempt budget, in milliseconds.
    fn get_timeout(&self) -> (r: u64)
        ensures
            r == self.spec_timeout_millis(),
    ;

    fn is_keep_alive(&self) -> (r: bool)
        ensures
            r == self.spec_keep_alive(),
    ;
}

/// An HTTP run: one URL, a method, header pairs and an optional body.
pub struct HttpConfig {
    pub url: String,
    pub method: String,
    pub headers: Vec<(String, String)>,
    pub body: Option<Vec<u8>>,
    pub concurrency: usize,
    pub requests: usize,
    pub duration_secs: u64,
    pub timeout_millis: u64,
    /// Reserved: the flag is carried through to the report, but every
    /// attempt still opens a fresh connection.
    pub keep_alive: bool,
}

impl HttpConfig {
    /// Builds the record from the option source's raw values: the method
    /// defaults to GET, headers are parsed from `name:value` strings, and
    /// absent load parameters fall back to the defaults.
    pub fn new(
        url: String,
        method: Option<String>,
        headers: Option<Vec<String>>,
        body: Option<Vec<u8>>,
        concurrency: Option<usize>,
        requests: Option<usize>,
        duration: Option<u64>,
        timeout: Option<u64>,
        keep_alive: bool,
    ) -> (r: HttpConfig)
        ensures
            r.url == url,
            match method {
                Some(m) => r.method == m,
                None => r.method@ == "GET"@,
            },
            match headers {
                Some(h) => headers_view(r.headers@) == parse_headers_spec(h.deep_view()),
                None => r.headers@ == Seq::<(String, String)>::empty(),
            },
            r.body == body,
            r.concurrency == resolved_concurrency(concurrency),
            r.requests == resolved_requests(requests),
            r.duration_secs == resolved_duration(duration),
            r.timeout_millis == resolved_timeout(timeout),
            r.keep_alive == keep_alive,
            load_params_wf(r.concurrency, r.timeout_millis),
    {
        let method = match method {
            Some(m) => m,
            None => default_method(),
        };
        let headers = match headers {
            Some(h) => parse_headers(&h),
            None => Vec::new(),
        };
        HttpConfig {
            url,
            method,
            headers,
            body,
            concurrency: concurrency_or_default(concurrency),
            requests: requests_or_default(requests),
            duration_secs: duration_or_default(duration),
            timeout_millis: timeout_or_default(timeout),
            keep_alive,
        }
    }
}

impl BenchmarkConfig for HttpConfig {
    open spec fn spec_concurrency(&self) -> usize {
        self.concurrency
    }

    open spec fn spec_requests(&self) -> usize {
        self.requests
    }

    open spec fn spec_duration_secs(&self) -> u64 {
        self.duration_secs
    }

    open spec fn spec_timeout_millis(&self) -> u64 {
        self.timeout_millis
    }

    open spec fn spec_keep_alive(&self) -> bool {
        self.keep_alive
    }

    fn get_concurrency(&self) -> (r: usize) {
        self.concurrency
    }

    fn get_requests(&self) -> (r: usize) {
        self.requests
    }

    fn get_duration(&self) -> (r: u64) {
        self.duration_secs
    }

    fn get_timeout(&self) -> (r: u64) {
        self.timeout_millis
    }

    fn is_keep_alive(&self) -> (r: bool) {
        self.keep_alive
    }
}

/// A raw TCP run: one `host:port` address, optional bytes to send and an
/// optional pattern that ends the read.
pub struct TcpConfig {
    pub address: String,
    pub data: Option<Vec<u8>>,
    pub expect: Option<String>,
    pub concurrency: usize,
    pub requests: usize,
    pub duration_secs: u64,
    pub timeout_millis: u64,
    /// Reserved: the flag is carried through to the report, but every
    /// attempt still opens a fresh connection.
    pub keep_alive: bool,
}

impl TcpConfig {
    /// Builds the record from the option source's raw values; absent load
    /// parameters fall back to the defaults.
    pub fn new(
        address: String,
        data: Option<Vec<u8>>,
        expect: Option<String>,
        concurrency: Option<usize>,
        requests: Option<usize>,
        duration: Option<u64>,
        timeout: Option<u64>,
        keep_alive: bool,
    ) -> (r: TcpConfig)
        ensures
            r.address == address,
            r.data == data,
            r.expect == expect,
            r.concurrency == resolved_concurrency(concurrency),
            r.requests == resolved_requests(requests),
            r.duration_secs == resolved_duration(duration),
            r.timeout_millis == resolved_timeout(timeout),
            r.keep_alive == keep_alive,
            load_params_wf(r.concurrency, r.timeout_millis),
    {
        TcpConfig {
            address,
            data,
            expect,
            concurrency: concurrency_or_default(concurrency),
            requests: requests_or_default(requests),
            duration_secs: duration_or_default(duration),
            timeout_millis: timeout_or_default(timeout),
            keep_alive,
        }
    }
}

impl BenchmarkConfig for TcpConfig {
    open spec fn spec_concurrency(&self) -> usize {
        self.concurrency
    }

    open spec fn spec_requests(&self) -> usize {
        self.requests
    }

    open spec fn spec_duration_secs(&self) -> u64 {
        self.duration_secs
    }

    open spec fn spec_timeout_millis(&self) -> u64 {
        self.timeout_millis
    }

    open spec fn spec_keep_alive(&self) -> bool {
        self.keep_alive
    }

    fn get_concurrency(&self) -> (r: usize) {
        self.concurrency
    }

    fn get_requests(&self) -> (r: usize) {
        self.requests
    }

    fn get_duration(&self) -> (r: u64) {
        self.duration_secs
    }

    fn get_timeout(&self) -> (r: u64) {
        self.timeout_millis
    }

    fn is_keep_alive(&self) -> (r: bool) {
        self.keep_alive
    }
}

/// A Unix-domain-socket run: a filesystem path in place of an address,
/// otherwise as TCP.
pub struct UdsConfig {
    pub path: String,
    pub data: Option<Vec<u8>>,
    pub expect: Option<String>,
    pub concurrency: usize,
    pub requests: usize,
    pub duration_secs: u64,
    pub timeout_millis: u64,
    /// Reserved: the flag is carried through to the report, but every
    /// attempt still opens a fresh connection.
    pub keep_alive: bool,
}

impl UdsConfig {
    /// Builds the record from the option source's raw values; absent load
    /// parameters fall back to the defaults.
    pub fn new(
        path: String,
        data: Option<Vec<u8>>,
        expect: Option<String>,
        concurrency: Option<usize>,
        requests: Option<usize>,
        duration: Option<u64>,
        timeout: Option<u64>,
        keep_alive: bool,
    ) -> (r: UdsConfig)
        ensures
            r.path == path,
            r.data == data,
            r.expect == expect,
            r.concurrency == resolved_concurrency(concurrency),
            r.requests == resolved_requests(requests),
            r.duration_secs == resolved_duration(duration),
            r.timeout_millis == resolved_timeout(timeout),
            r.keep_alive == keep_alive,
            load_params_wf(r.concurrency, r.timeout_millis),
    {
        UdsConfig {
            path,
            data,
            expect,
            concurrency: concurrency_or_default(concurrency),
            requests: requests_or_default(requests),
            duration_secs: duration_or_default(duration),
            timeout_millis: timeout_or_default(timeout),
            keep_alive,
        }
    }
}

impl BenchmarkConfig for UdsConfig {
    open spec fn spec_concurrency(&self) -> usize {
        self.concurrency
    }

    open spec fn spec_requests(&self) -> usize {
        self.requests
    }

    open spec fn spec_duration_secs(&self) -> u64 {
        self.duration_secs
    }

    open spec fn spec_timeout_millis(&self) -> u64 {
        self.timeout_millis
    }

    open spec fn spec_keep_alive(&self) -> bool {
        self.keep_alive
    }

    fn get_concurrency(&self) -> (r: usize) {
        self.concurrency
    }

    fn get_requests(&self) -> (r: usize) {
        self.requests
    }

    fn get_duration(&self) -> (r: u64) {
        self.duration_secs
    }

    fn get_timeout(&self) -> (r: u64) {
        self.timeout_millis
    }

    fn is_keep_alive(&self) -> (r: bool) {
        self.keep_alive
    }
}

} // verus!
