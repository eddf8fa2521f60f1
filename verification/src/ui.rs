//! The interactive front end's state model.
//!
//! The terminal front end is a thin presentation layer; what it decides
//! — which page is shown, which field holds the focus, what each page's
//! option form holds, and how a form turns into a saved record and back
//! — lives here, over plain values. Drawing and key reading stay
//! outside.

use vstd::prelude::*;

verus! {

use crate::store::{
    clone_opt_string, clone_string, clone_strings, BenchmarkConfigType, HttpConfigSave,
    HttpSaveView, TcpConfigSave, TcpSaveView, UdsConfigSave, UdsSaveView,
};

/// The pages of the front end, in tab order.
#[derive(Copy, Clone, PartialEq, Eq, Structural, Debug)]
pub enum Page {
    Http,
    Tcp,
    Uds,
    Results,
    Configs,
    Help,
}

/// The page one tab to the right, wrapping around.
pub open spec fn spec_next_page(p: Page) -> Page {
    match p {
        Page::Http => Page::Tcp,
        Page::Tcp => Page::Uds,
        Page::Uds => Page::Results,
        Page::Results => Page::Configs,
        Page::Configs => Page::Help,
        Page::Help => Page::Http,
    }
}

/// The page one tab to the left, wrapping around.
pub open spec fn spec_prev_page(p: Page) -> Page {
    match p {
        Page::Http => Page::Help,
        Page::Tcp => Page::Http,
        Page::Uds => Page::Tcp,
        Page::Results => Page::Uds,
        Page::Configs => Page::Results,
        Page::Help => Page::Configs,
    }
}

impl Page {
    /// The page's tab title.
    pub fn as_str(&self) -> (r: &'static str)
        ensures
            match self {
                Page::Http => r@ == "HTTP"@,
                Page::Tcp => r@ == "TCP"@,
                Page::Uds => r@ == "UDS"@,
                Page::Results => r@ == "Results"@,
                Page::Configs => r@ == "Configs"@,
                Page::Help => r@ == "Help"@,
            },
    {
        match self {
            Page::Http => "HTTP",
            Page::Tcp => "TCP",
            Page::Uds => "UDS",
            Page::Results => "Results",
            Page::Configs => "Configs",
            Page::Help => "Help",
        }
    }

    /// Moves one tab to the right, wrapping around.
    pub fn next(&self) -> (r: Self)
        ensures
            r == spec_next_page(*self),
    {
        match self {
            Page::Http => Page::Tcp,
            Page::Tcp => Page::Uds,
            Page::Uds => Page::Results,
            Page::Results => Page::Configs,
            Page::Configs => Page::Help,
            Page::Help => Page::Http,
        }
    }

    /// Moves one tab to the left, wrapping around.
    pub fn prev(&self) -> (r: Self)
        ensures
            r == spec_prev_page(*self),
    {
        match self {
            Page::Http => Page::Help,
            Page::Tcp => Page::Http,
            Page::Uds => Page::Tcp,
            Page::Results => Page::Uds,
            Page::Configs => Page::Results,
            Page::Help => Page::Configs,
        }
    }
}

/// Stepping right then left (or left then right) returns to the page.
pub proof fn law_page_cycle(p: Page)
    ensures
        spec_prev_page(spec_next_page(p)) == p,
        spec_next_page(spec_prev_page(p)) == p,
{
}

/// The form field holding the focus, if any.
#[derive(Copy, Clone, PartialEq, Eq, Structural, Debug)]
pub enum FocusField {
    NoFocus,
    Url,
    Method,
    Headers,
    Body,
    Address,
    Path,
    Data,
    Expect,
    Concurrency,
    Requests,
    Duration,
    Timeout,
}

/// A focus-movement key.
#[derive(Copy, Clone, PartialEq, Eq, Structural, Debug)]
pub enum NavKey {
    Up,
    Down,
}

/// Where the focus moves on one key, on one page: down walks the page's
/// fields top to bottom, up walks them back; anything else stays put.
pub open spec fn spec_move_focus(page: Page, focus: FocusField, key: NavKey) -> FocusField {
    match (page, focus, key) {
        (Page::Http, FocusField::NoFocus, NavKey::Down) => FocusField::Url,
        (Page::Http, FocusField::Url, NavKey::Down) => FocusField::Method,
        (Page::Http, FocusField::Method, NavKey::Down) => FocusField::Headers,
        (Page::Http, FocusField::Headers, NavKey::Down) => FocusField::Body,
        (Page::Http, FocusField::Body, NavKey::Down) => FocusField::Concurrency,
        (Page::Http, FocusField::Concurrency, NavKey::Down) => FocusField::Requests,
        (Page::Http, FocusField::Requests, NavKey::Down) => FocusField::Duration,
        (Page::Http, FocusField::Duration, NavKey::Down) => FocusField::Timeout,
        (Page::Http, FocusField::Timeout, NavKey::Up) => FocusField::Duration,
        (Page::Http, FocusField::Duration, NavKey::Up) => FocusField::Requests,
        (Page::Http, FocusField::Requests, NavKey::Up) => FocusField::Concurrency,
        (Page::Http, FocusField::Concurrency, NavKey::Up) => FocusField::Body,
        (Page::Http, FocusField::Body, NavKey::Up) => FocusField::Headers,
        (Page::Http, FocusField::Headers, NavKey::Up) => FocusField::Method,
        (Page::Http, FocusField::Method, NavKey::Up) => FocusField::Url,
        (Page::Http, FocusField::Url, NavKey::Up) => FocusField::NoFocus,
        (Page::Tcp, FocusField::NoFocus, NavKey::Down) => FocusField::Address,
        (Page::Tcp, FocusField::Address, NavKey::Down) => FocusField::Data,
        (Page::Tcp, FocusField::Data, NavKey::Down) => FocusField::Expect,
        (Page::Tcp, FocusField::Expect, NavKey::Down) => FocusField::Concurrency,
        (Page::Tcp, FocusField::Concurrency, NavKey::Down) => FocusField::Requests,
        (Page::Tcp, FocusField::Requests, NavKey::Down) => FocusField::Duration,
        (Page::Tcp, FocusField::Duration, NavKey::Down) => FocusField::Timeout,
        (Page::Tcp, FocusField::Timeout, NavKey::Up) => FocusField::Duration,
        (Page::Tcp, FocusField::Duration, NavKey::Up) => FocusField::Requests,
        (Page::Tcp, FocusField::Requests, NavKey::Up) => FocusField::Concurrency,
        (Page::Tcp, FocusField::Concurrency, NavKey::Up) => FocusField::Expect,
        (Page::Tcp, FocusField::Expect, NavKey::Up) => FocusField::Data,
        (Page::Tcp, FocusField::Data, NavKey::Up) => FocusField::Address,
        (Page::Tcp, FocusField::Address, NavKey::Up) => FocusField::NoFocus,
        (Page::Uds, FocusField::NoFocus, NavKey::Down) => FocusField::Path,
        (Page::Uds, FocusField::Path, NavKey::Down) => FocusField::Data,
        (Page::Uds, FocusField::Data, NavKey::Down) => FocusField::Expect,
        (Page::Uds, FocusField::Expect, NavKey::Down) => FocusField::Concurrency,
        (Page::Uds, FocusField::Concurrency, NavKey::Down) => FocusField::Requests,
        (Page::Uds, FocusField::Requests, NavKey::Down) => FocusField::Duration,
        (Page::Uds, FocusField::Duration, NavKey::Down) => FocusField::Timeout,
        (Page::Uds, FocusField::Timeout, NavKey::Up) => FocusField::Duration,
        (Page::Uds, FocusField::Duration, NavKey::Up) => FocusField::Requests,
        (Page::Uds, FocusField::Requests, NavKey::Up) => FocusField::Concurrency,
        (Page::Uds, FocusField::Concurrency, NavKey::Up) => FocusField::Expect,
        (Page::Uds, FocusField::Expect, NavKey::Up) => FocusField::Data,
        (Page::Uds, FocusField::Data, NavKey::Up) => FocusField::Path,
        (Page::Uds, FocusField::Path, NavKey::Up) => FocusField::NoFocus,
        _ => focus,
    }
}

/// Moves the focus as one navigation key asks.
pub fn move_focus(page: Page, focus: FocusField, key: NavKey) -> (r: FocusField)
    ensures
        r == spec_move_focus(page, focus, key),
{
    match (page, focus, key) {
        (Page::Http, FocusField::NoFocus, NavKey::Down) => FocusField::Url,
        (Page::Http, FocusField::Url, NavKey::Down) => FocusField::Method,
        (Page::Http, FocusField::Method, NavKey::Down) => FocusField::Headers,
        (Page::Http, FocusField::Headers, NavKey::Down) => FocusField::Body,
        (Page::Http, FocusField::Body, NavKey::Down) => FocusField::Concurrency,
        (Page::Http, FocusField::Concurrency, NavKey::Down) => FocusField::Requests,
        (Page::Http, FocusField::Requests, NavKey::Down) => FocusField::Duration,
        (Page::Http, FocusField::Duration, NavKey::Down) => FocusField::Timeout,
        (Page::Http, FocusField::Timeout, NavKey::Up) => FocusField::Duration,
        (Page::Http, FocusField::Duration, NavKey::Up) => FocusField::Requests,
        (Page::Http, FocusField::Requests, NavKey::Up) => FocusField::Concurrency,
        (Page::Http, FocusField::Concurrency, NavKey::Up) => FocusField::Body,
        (Page::Http, FocusField::Body, NavKey::Up) => FocusField::Headers,
        (Page::Http, FocusField::Headers, NavKey::Up) => FocusField::Method,
        (Page::Http, FocusField::Method, NavKey::Up) => FocusField::Url,
        (Page::Http, FocusField::Url, NavKey::Up) => FocusField::NoFocus,
        (Page::Tcp, FocusField::NoFocus, NavKey::Down) => FocusField::Address,
        (Page::Tcp, FocusField::Address, NavKey::Down) => FocusField::Data,
        (Page::Tcp, FocusField::Data, NavKey::Down) => FocusField::Expect,
        (Page::Tcp, FocusField::Expect, NavKey::Down) => FocusField::Concurrency,
        (Page::Tcp, FocusField::Concurrency, NavKey::Down) => FocusField::Requests,
        (Page::Tcp, FocusField::Requests, NavKey::Down) => FocusField::Duration,
        (Page::Tcp, FocusField::Duration, NavKey::Down) => FocusField::Timeout,
        (Page::Tcp, FocusField::Timeout, NavKey::Up) => FocusField::Duration,
        (Page::Tcp, FocusField::Duration, NavKey::Up) => FocusField::Requests,
        (Page::Tcp, FocusField::Requests, NavKey::Up) => FocusField::Concurrency,
        (Page::Tcp, FocusField::Concurrency, NavKey::Up) => FocusField::Expect,
        (Page::Tcp, FocusField::Expect, NavKey::Up) => FocusField::Data,
        (Page::Tcp, FocusField::Data, NavKey::Up) => FocusField::Address,
        (Page::Tcp, FocusField::Address, NavKey::Up) => FocusField::NoFocus,
        (Page::Uds, FocusField::NoFocus, NavKey::Down) => FocusField::Path,
        (Page::Uds, FocusField::Path, NavKey::Down) => FocusField::Data,
        (Page::Uds, FocusField::Data, NavKey::Down) => FocusField::Expect,
        (Page::Uds, FocusField::Expect, NavKey::Down) => FocusField::Concurrency,
        (Page::Uds, FocusField::Concurrency, NavKey::Down) => FocusField::Requests,
        (Page::Uds, FocusField::Requests, NavKey::Down) => FocusField::Duration,
        (Page::Uds, FocusField::Duration, NavKey::Down) => FocusField::Timeout,
        (Page::Uds, FocusField::Timeout, NavKey::Up) => FocusField::Duration,
        (Page::Uds, FocusField::Duration, NavKey::Up) => FocusField::Requests,
        (Page::Uds, FocusField::Requests, NavKey::Up) => FocusField::Concurrency,
        (Page::Uds, FocusField::Concurrency, NavKey::Up) => FocusField::Expect,
        (Page::Uds, FocusField::Expect, NavKey::Up) => FocusField::Data,
        (Page::Uds, FocusField::Path, NavKey::Up) => FocusField::NoFocus,
        (Page::Uds, FocusField::Data, NavKey::Up) => FocusField::Path,
        _ => focus,
    }
}

/// The HTTP page's form.
pub struct HttpOptions {
    pub url: String,
    pub method: String,
    pub headers: Vec<String>,
    pub body: Option<String>,
    pub concurrency: usize,
    pub requests: usize,
    pub duration: u64,
    pub timeout: u64,
    pub keep_alive: bool,
}

/// The mathematical contents of the HTTP form.
pub struct HttpOptionsView {
    pub url: Seq<char>,
    pub method: Seq<char>,
    pub headers: Seq<Seq<char>>,
    pub body: Option<Seq<char>>,
    pub concurrency: usize,
    pub requests: usize,
    pub duration: u64,
    pub timeout: u64,
    pub keep_alive: bool,
}

impl View for HttpOptions {
    type V = HttpOptionsView;

    open spec fn view(&self) -> HttpOptionsView {
        HttpOptionsView {
            url: self.url@,
            method: self.method@,
            headers: self.headers.deep_view(),
            body: crate::store::opt_view(self.body),
            concurrency: self.concurrency,
            requests: self.requests,
            duration: self.duration,
            timeout: self.timeout,
            keep_alive: self.keep_alive,
        }
    }
}

impl Default for HttpOptions {
    /// The fresh form: GET against no URL, no headers, no body, and the
    /// default load parameters.
    fn default() -> (r: Self)
        ensures
            r@.url.len() == 0,
            r@.method == "GET"@,
            r@.headers.len() == 0,
            r@.body is None,
            r@.concurrency == 1,
            r@.requests == 100,
            r@.duration == 10,
            r@.timeout == 30000,
            !r@.keep_alive,
    {
        HttpOptions {
            url: String::new(),
            method: crate::config::default_method(),
            headers: Vec::new(),
            body: None,
            concurrency: 1,
            requests: 100,
            duration: 10,
            timeout: 30000,
            keep_alive: false,
        }
    }
}

/// The TCP page's form.
pub struct TcpOptions {
    pub address: String,
    pub data: Option<String>,
    pub expect: Option<String>,
    pub concurrency: usize,
    pub requests: usize,
    pub duration: u64,
    pub timeout: u64,
    pub keep_alive: bool,
}

/// The mathematical contents of the TCP form.
pub struct TcpOptionsView {
    pub address: Seq<char>,
    pub data: Option<Seq<char>>,
    pub expect: Option<Seq<char>>,
    pub concurrency: usize,
    pub requests: usize,
    pub duration: u64,
    pub timeout: u64,
    pub keep_alive: bool,
}

impl View for TcpOptions {
    type V = TcpOptionsView;

    open spec fn view(&self) -> TcpOptionsView {
        TcpOptionsView {
            address: self.address@,
            data: crate::store::opt_view(self.data),
            expect: crate::store::opt_view(self.expect),
            concurrency: self.concurrency,
            requests: self.requests,
            duration: self.duration,
            timeout: self.timeout,
            keep_alive: self.keep_alive,
        }
    }
}

impl Default for TcpOptions {
    /// The fresh form: no address, nothing to send or expect, and the
    /// default load parameters.
    fn default() -> (r: Self)
        ensures
            r@.address.len() == 0,
            r@.data is None,
            r@.expect is None,
            r@.concurrency == 1,
            r@.requests == 100,
            r@.duration == 10,
            r@.timeout == 30000,
            !r@.keep_alive,
    {
        TcpOptions {
            address: String::new(),
            data: None,
            expect: None,
            concurrency: 1,
            requests: 100,
            duration: 10,
            timeout: 30000,
            keep_alive: false,
        }
    }
}

/// The UDS page's form.
pub struct UdsOptions {
    pub path: String,
    pub data: Option<String>,
    pub expect: Option<String>,
    pub concurrency: usize,
    pub requests: usize,
    pub duration: u64,
    pub timeout: u64,
    pub keep_alive: bool,
}

/// The mathematical contents of the UDS form.
pub struct UdsOptionsView {
    pub path: Seq<char>,
    pub data: Option<Seq<char>>,
    pub expect: Option<Seq<char>>,
    pub concurrency: usize,
    pub requests: usize,
    pub duration: u64,
    pub timeout: u64,
    pub keep_alive: bool,
}

impl View for UdsOptions {
    type V = UdsOptionsView;

    open spec fn view(&self) -> UdsOptionsView {
        UdsOptionsView {
            path: self.path@,
            data: crate::store::opt_view(self.data),
            expect: crate::store::opt_view(self.expect),
            concurrency: self.concurrency,
            requests: self.requests,
            duration: self.duration,
            timeout: self.timeout,
            keep_alive: self.keep_alive,
        }
    }
}

impl Default for UdsOptions {
    /// The fresh form: no path, nothing to send or expect, and the
    /// default load parameters.
    fn default() -> (r: Self)
        ensures
            r@.path.len() == 0,
            r@.data is None,
            r@.expect is None,
            r@.concurrency == 1,
            r@.requests == 100,
            r@.duration == 10,
            r@.timeout == 30000,
            !r@.keep_alive,
    {
        UdsOptions {
            path: String::new(),
            data: None,
            expect: None,
            concurrency: 1,
            requests: 100,
            duration: 10,
            timeout: 30000,
            keep_alive: false,
        }
    }
}

/// The saved record an HTTP form yields: every option is kept, the
/// header list only when it is nonempty.
pub open spec fn spec_save_http(o: HttpOptionsView) -> HttpSaveView {
    HttpSaveView {
        url: o.url,
        method: Some(o.method),
        headers: if o.headers.len() == 0 {
            None
        } else {
            Some(o.headers)
        },
        body: o.body,
        concurrency: Some(o.concurrency),
        requests: Some(o.requests),
        duration: Some(o.duration),
        timeout: Some(o.timeout),
        keep_alive: o.keep_alive,
    }
}

/// The HTTP form a saved record fills: absent options fall back to the
/// same defaults as the command line.
pub open spec fn spec_load_http(s: HttpSaveView) -> HttpOptionsView {
    HttpOptionsView {
        url: s.url,
        method: match s.method {
            Some(m) => m,
            None => "GET"@,
        },
        headers: match s.headers {
            Some(h) => h,
            None => Seq::empty(),
        },
        body: s.body,
        concurrency: match s.concurrency {
            Some(v) => v,
            None => 1,
        },
        requests: match s.requests {
            Some(v) => v,
            None => 100,
        },
        duration: match s.duration {
            Some(v) => v,
            None => 10,
        },
        timeout: match s.timeout {
            Some(v) => v,
            None => 30000,
        },
        keep_alive: s.keep_alive,
    }
}

/// Builds the saved record of the HTTP form.
pub fn save_http_options(o: &HttpOptions) -> (r: HttpConfigSave)
    ensures
        r@ == spec_save_http(o@),
{
    HttpConfigSave {
        url: clone_string(&o.url),
        method: Some(clone_string(&o.method)),
        headers: if o.headers.is_empty() {
            None
        } else {
            Some(clone_strings(&o.headers))
        },
        body: clone_opt_string(&o.body),
        concurrency: Some(o.concurrency),
        requests: Some(o.requests),
        duration: Some(o.duration),
        timeout: Some(o.timeout),
        keep_alive: o.keep_alive,
    }
}

/// Fills the HTTP form from a saved record.
pub fn load_http_options(s: &HttpConfigSave) -> (r: HttpOptions)
    ensures
        r@ == spec_load_http(s@),
{
    let r = HttpOptions {
        url: clone_string(&s.url),
        method: match &s.method {
            Some(m) => clone_string(m),
            None => crate::config::default_method(),
        },
        headers: match &s.headers {
            Some(h) => clone_strings(h),
            None => Vec::new(),
        },
        body: clone_opt_string(&s.body),
        concurrency: match s.concurrency {
            Some(v) => v,
            None => 1,
        },
        requests: match s.requests {
            Some(v) => v,
            None => 100,
        },
        duration: match s.duration {
            Some(v) => v,
            None => 10,
        },
        timeout: match s.timeout {
            Some(v) => v,
            None => 30000,
        },
        keep_alive: s.keep_alive,
    };
    proof {
        assert(r@.headers =~= spec_load_http(s@).headers);
    }
    r
}

/// The saved record a TCP form yields: every option is kept.
pub open spec fn spec_save_tcp(o: TcpOptionsView) -> TcpSaveView {
    TcpSaveView {
        address: o.address,
        data: o.data,
        expect: o.expect,
        concurrency: Some(o.concurrency),
        requests: Some(o.requests),
        duration: Some(o.duration),
        timeout: Some(o.timeout),
        keep_alive: o.keep_alive,
    }
}

/// The TCP form a saved record fills: absent options fall back to the
/// same defaults as the command line.
pub open spec fn spec_load_tcp(s: TcpSaveView) -> TcpOptionsView {
    TcpOptionsView {
        address: s.address,
        data: s.data,
        expect: s.expect,
        concurrency: match s.concurrency {
            Some(v) => v,
            None => 1,
        },
        requests: match s.requests {
            Some(v) => v,
            None => 100,
        },
        duration: match s.duration {
            Some(v) => v,
            None => 10,
        },
        timeout: match s.timeout {
            Some(v) => v,
            None => 30000,
        },
        keep_alive: s.keep_alive,
    }
}

/// Builds the saved record of the TCP form.
pub fn save_tcp_options(o: &TcpOptions) -> (r: TcpConfigSave)
    ensures
        r@ == spec_save_tcp(o@),
{
    TcpConfigSave {
        address: clone_string(&o.address),
        data: clone_opt_string(&o.data),
        expect: clone_opt_string(&o.expect),
        concurrency: Some(o.concurrency),
        requests: Some(o.requests),
        duration: Some(o.duration),
        timeout: Some(o.timeout),
        keep_alive: o.keep_alive,
    }
}

/// Fills the TCP form from a saved record.
pub fn load_tcp_options(s: &TcpConfigSave) -> (r: TcpOptions)
    ensures
        r@ == spec_load_tcp(s@),
{
    TcpOptions {
        address: clone_string(&s.address),
        data: clone_opt_string(&s.data),
        expect: clone_opt_string(&s.expect),
        concurrency: match s.concurrency {
            Some(v) => v,
            None => 1,
        },
        requests: match s.requests {
            Some(v) => v,
            None => 100,
        },
        duration: match s.duration {
            Some(v) => v,
            None => 10,
        },
        timeout: match s.timeout {
            Some(v) => v,
            None => 30000,
        },
        keep_alive: s.keep_alive,
    }
}

/// The saved record a UDS form yields: every option is kept.
pub open spec fn spec_save_uds(o: UdsOptionsView) -> UdsSaveView {
    UdsSaveView {
        path: o.path,
        data: o.data,
        expect: o.expect,
        concurrency: Some(o.concurrency),
        requests: Some(o.requests),
        duration: Some(o.duration),
        timeout: Some(o.timeout),
        keep_alive: o.keep_alive,
    }
}

/// The UDS form a saved record fills: absent options fall back to the
/// same defaults as the command line.
pub open spec fn spec_load_uds(s: UdsSaveView) -> UdsOptionsView {
    UdsOptionsView {
        path: s.path,
        data: s.data,
        expect: s.expect,
        concurrency: match s.concurrency {
            Some(v) => v,
            None => 1,
        },
        requests: match s.requests {
            Some(v) => v,
            None => 100,
        },
        duration: match s.duration {
            Some(v) => v,
            None => 10,
        },
        timeout: match s.timeout {
            Some(v) => v,
            None => 30000,
        },
        keep_alive: s.keep_alive,
    }
}

/// Builds the saved record of the UDS form.
pub fn save_uds_options(o: &UdsOptions) -> (r: UdsConfigSave)
    ensures
        r@ == spec_save_uds(o@),
{
    UdsConfigSave {
        path: clone_string(&o.path),
        data: clone_opt_string(&o.data),
        expect: clone_opt_string(&o.expect),
        concurrency: Some(o.concurrency),
        requests: Some(o.requests),
        duration: Some(o.duration),
        timeout: Some(o.timeout),
        keep_alive: o.keep_alive,
    }
}

/// Fills the UDS form from a saved record.
pub fn load_uds_options(s: &UdsConfigSave) -> (r: UdsOptions)
    ensures
        r@ == spec_load_uds(s@),
{
    UdsOptions {
        path: clone_string(&s.path),
        data: clone_opt_string(&s.data),
        expect: clone_opt_string(&s.expect),
        concurrency: match s.concurrency {
            Some(v) => v,
            None => 1,
        },
        requests: match s.requests {
            Some(v) => v,
            None => 100,
        },
        duration: match s.duration {
            Some(v) => v,
            None => 10,
        },
        timeout: match s.timeout {
            Some(v) => v,
            None => 30000,
        },
        keep_alive: s.keep_alive,
    }
}

/// The saved record of the page's form, where the page has one.
pub fn save_page_options(
    page: Page,
    http: &HttpOptions,
    tcp: &TcpOptions,
    uds: &UdsOptions,
) -> (r: Option<BenchmarkConfigType>)
    ensures
        match page {
            Page::Http => r matches Some(c) && c@ == crate::store::ConfigSaveView::Http(
                spec_save_http(http@),
            ),
            Page::Tcp => r matches Some(c) && c@ == crate::store::ConfigSaveView::Tcp(
                spec_save_tcp(tcp@),
            ),
            Page::Uds => r matches Some(c) && c@ == crate::store::ConfigSaveView::Uds(
                spec_save_uds(uds@),
            ),
            _ => r is None,
        },
{
    match page {
        Page::Http => Some(BenchmarkConfigType::Http(save_http_options(http))),
        Page::Tcp => Some(BenchmarkConfigType::Tcp(save_tcp_options(tcp))),
        Page::Uds => Some(BenchmarkConfigType::Uds(save_uds_options(uds))),
        _ => None,
    }
}

/// Saving a form and loading the saved record restores the form: the
/// stored shape loses nothing the page held.
pub proof fn law_options_round_trip(h: HttpOptionsView, t: TcpOptionsView, u: UdsOptionsView)
    ensures
        spec_load_http(spec_save_http(h)) == h,
        spec_load_tcp(spec_save_tcp(t)) == t,
        spec_load_uds(spec_save_uds(u)) == u,
{
    if h.headers.len() == 0 {
        assert(spec_load_http(spec_save_http(h)).headers =~= h.headers);
    }
}

} // verus!
