//! The named-configuration store.
//!
//! A store is a mapping from display names to saved configuration
//! records. A saved record keeps every option as the option source gave
//! it, absent fields included, so that loading falls back to the same
//! defaults as the command line. The disk format (a JSON document) is
//! the shell's business; the store itself is a plain keyed collection,
//! viewed as a map from name to saved record.

use vstd::prelude::*;

verus! {

use crate::text::{sort_names, str_le_ord};
use vstd::relations::sorted_by;

/// The saved form of an HTTP configuration.
pub struct HttpConfigSave {
    pub url: String,
    pub method: Option<String>,
    pub headers: Option<Vec<String>>,
    pub body: Option<String>,
    pub concurrency: Option<usize>,
    pub requests: Option<usize>,
    pub duration: Option<u64>,
    pub timeout: Option<u64>,
    pub keep_alive: bool,
}

/// The saved form of a TCP configuration.
pub struct TcpConfigSave {
    pub address: String,
    pub data: Option<String>,
    pub expect: Option<String>,
    pub concurrency: Option<usize>,
    pub requests: Option<usize>,
    pub duration: Option<u64>,
    pub timeout: Option<u64>,
    pub keep_alive: bool,
}

/// The saved form of a Unix-domain-socket configuration.
pub struct UdsConfigSave {
    pub path: String,
    pub data: Option<String>,
    pub expect: Option<String>,
    pub concurrency: Option<usize>,
    pub requests: Option<usize>,
    pub duration: Option<u64>,
    pub timeout: Option<u64>,
    pub keep_alive: bool,
}

/// A saved configuration of any protocol.
pub enum BenchmarkConfigType {
    Http(HttpConfigSave),
    Tcp(TcpConfigSave),
    Uds(UdsConfigSave),
}

/// The view of an optional owned string.
pub open spec fn opt_view(o: Option<String>) -> Option<Seq<char>> {
    match o {
        Some(s) => Some(s@),
        None => None,
    }
}

/// The view of an optional list of owned strings.
pub open spec fn opt_list_view(o: Option<Vec<String>>) -> Option<Seq<Seq<char>>> {
    match o {
        Some(v) => Some(v.deep_view()),
        None => None,
    }
}

/// The mathematical contents of a saved HTTP record.
pub struct HttpSaveView {
    pub url: Seq<char>,
    pub method: Option<Seq<char>>,
    pub headers: Option<Seq<Seq<char>>>,
    pub body: Option<Seq<char>>,
    pub concurrency: Option<usize>,
    pub requests: Option<usize>,
    pub duration: Option<u64>,
    pub timeout: Option<u64>,
    pub keep_alive: bool,
}

/// The mathematical contents of a saved TCP record.
pub struct TcpSaveView {
    pub address: Seq<char>,
    pub data: Option<Seq<char>>,
    pub expect: Option<Seq<char>>,
    pub concurrency: Option<usize>,
    pub requests: Option<usize>,
    pub duration: Option<u64>,
    pub timeout: Option<u64>,
    pub keep_alive: bool,
}

/// The mathematical contents of a saved UDS record.
pub struct UdsSaveView {
    pub path: Seq<char>,
    pub data: Option<Seq<char>>,
    pub expect: Option<Seq<char>>,
    pub concurrency: Option<usize>,
    pub requests: Option<usize>,
    pub duration: Option<u64>,
    pub timeout: Option<u64>,
    pub keep_alive: bool,
}

/// The mathematical contents of a saved record of any protocol.
pub enum ConfigSaveView {
    Http(HttpSaveView),
    Tcp(TcpSaveView),
    Uds(UdsSaveView),
}

impl View for HttpConfigSave {
    type V = HttpSaveView;

    open spec fn view(&self) -> HttpSaveView {
        HttpSaveView {
            url: self.url@,
            method: opt_view(self.method),
            headers: opt_list_view(self.headers),
            body: opt_view(self.body),
            concurrency: self.concurrency,
            requests: self.requests,
            duration: self.duration,
            timeout: self.timeout,
            keep_alive: self.keep_alive,
        }
    }
}

impl View for TcpConfigSave {
    type V = TcpSaveView;

    open spec fn view(&self) -> TcpSaveView {
        TcpSaveView {
            address: self.address@,
            data: opt_view(self.data),
            expect: opt_view(self.expect),
            concurrency: self.concurrency,
            requests: self.requests,
            duration: self.duration,
            timeout: self.timeout,
            keep_alive: self.keep_alive,
        }
    }
}

impl View for UdsConfigSave {
    type V = UdsSaveView;

    open spec fn view(&self) -> UdsSaveView {
        UdsSaveView {
            path: self.path@,
            data: opt_view(self.data),
            expect: opt_view(self.expect),
            concurrency: self.concurrency,
            requests: self.requests,
            duration: self.duration,
            timeout: self.timeout,
            keep_alive: self.keep_alive,
        }
    }
}

impl View for BenchmarkConfigType {
    type V = ConfigSaveView;

    open spec fn view(&self) -> ConfigSaveView {
        match self {
            BenchmarkConfigType::Http(c) => ConfigSaveView::Http(c@),
            BenchmarkConfigType::Tcp(c) => ConfigSaveView::Tcp(c@),
            BenchmarkConfigType::Uds(c) => ConfigSaveView::Uds(c@),
        }
    }
}

pub(crate) fn clone_string(s: &String) -> (r: String)
    ensures
        r@ == s@,
{
    s.clone()
}

pub(crate) fn clone_opt_string(o: &Option<String>) -> (r: Option<String>)
    ensures
        opt_view(r) == opt_view(*o),
{
    match o {
        Some(s) => Some(clone_string(s)),
        None => None,
    }
}

pub(crate) fn clone_strings(v: &Vec<String>) -> (r: Vec<String>)
    ensures
        r.deep_view() == v.deep_view(),
{
    let mut out: Vec<String> = Vec::new();
    let mut i: usize = 0;
    while i < v.len()
        invariant
            i <= v@.len(),
            out@.len() == i,
            forall|k: int| 0 <= k < i ==> out@[k]@ == v@[k]@,
        decreases v@.len() - i,
    {
        out.push(clone_string(&v[i]));
        i += 1;
    }
    proof {
        assert(out.deep_view() =~= v.deep_view());
    }
    out
}

pub(crate) fn clone_opt_strings(o: &Option<Vec<String>>) -> (r: Option<Vec<String>>)
    ensures
        opt_list_view(r) == opt_list_view(*o),
{
    match o {
        Some(v) => Some(clone_strings(v)),
        None => None,
    }
}

impl HttpConfigSave {
    /// A copy with the same contents.
    pub fn duplicate(&self) -> (r: Self)
        ensures
            r@ == self@,
    {
        HttpConfigSave {
            url: clone_string(&self.url),
            method: clone_opt_string(&self.method),
            headers: clone_opt_strings(&self.headers),
            body: clone_opt_string(&self.body),
            concurrency: self.concurrency,
            requests: self.requests,
            duration: self.duration,
            timeout: self.timeout,
            keep_alive: self.keep_alive,
        }
    }
}

impl TcpConfigSave {
    /// A copy with the same contents.
    pub fn duplicate(&self) -> (r: Self)
        ensures
            r@ == self@,
    {
        TcpConfigSave {
            address: clone_string(&self.address),
            data: clone_opt_string(&self.data),
            expect: clone_opt_string(&self.expect),
            concurrency: self.concurrency,
            requests: self.requests,
            duration: self.duration,
            timeout: self.timeout,
            keep_alive: self.keep_alive,
        }
    }
}

impl UdsConfigSave {
    /// A copy with the same contents.
    pub fn duplicate(&self) -> (r: Self)
        ensures
            r@ == self@,
    {
        UdsConfigSave {
            path: clone_string(&self.path),
            data: clone_opt_string(&self.data),
            expect: clone_opt_string(&self.expect),
            concurrency: self.concurrency,
            requests: self.requests,
            duration: self.duration,
            timeout: self.timeout,
            keep_alive: self.keep_alive,
        }
    }
}

impl BenchmarkConfigType {
    /// A copy with the same contents.
    pub fn duplicate(&self) -> (r: Self)
        ensures
            r@ == self@,
    {
        match self {
            BenchmarkConfigType::Http(c) => BenchmarkConfigType::Http(c.duplicate()),
            BenchmarkConfigType::Tcp(c) => BenchmarkConfigType::Tcp(c.duplicate()),
            BenchmarkConfigType::Uds(c) => BenchmarkConfigType::Uds(c.duplicate()),
        }
    }
}

/// The map an entry list denotes: later entries win, though a
/// well-formed store never repeats a key.
pub open spec fn entries_map(s: Seq<(String, BenchmarkConfigType)>) -> Map<
    Seq<char>,
    ConfigSaveView,
>
    decreases s.len(),
{
    if s.len() == 0 {
        Map::empty()
    } else {
        entries_map(s.drop_last()).insert(s.last().0@, s.last().1@)
    }
}

/// Whether no two entries share a name.
pub open spec fn keys_unique(s: Seq<(String, BenchmarkConfigType)>) -> bool {
    forall|i: int, j: int| 0 <= i < j < s.len() ==> s[i].0@ != s[j].0@
}

/// The named-configuration store: display name to saved record.
pub struct ConfigStore {
    entries: Vec<(String, BenchmarkConfigType)>,
}

proof fn lemma_entries_map_dom(s: Seq<(String, BenchmarkConfigType)>)
    ensures
        forall|k: Seq<char>| #[trigger] entries_map(s).contains_key(k) <==> (exists|i: int|
            0 <= i < s.len() && s[i].0@ == k),
    decreases s.len(),
{
    if s.len() > 0 {
        lemma_entries_map_dom(s.drop_last());
        assert forall|k: Seq<char>| #[trigger] entries_map(s).contains_key(k) implies (exists|
            i: int,
        | 0 <= i < s.len() && s[i].0@ == k) by {
            if k == s.last().0@ {
                assert(s[s.len() - 1].0@ == k);
            } else {
                assert(entries_map(s.drop_last()).contains_key(k));
                let i = choose|i: int| 0 <= i < s.drop_last().len() && s.drop_last()[i].0@ == k;
                assert(s.drop_last()[i] == s[i]);
                assert(s[i].0@ == k);
            }
        }
        assert forall|k: Seq<char>| (exists|i: int| 0 <= i < s.len() && s[i].0@ == k)
            implies #[trigger] entries_map(s).contains_key(k) by {
            let i = choose|i: int| 0 <= i < s.len() && s[i].0@ == k;
            if i < s.len() - 1 {
                assert(s.drop_last()[i] == s[i]);
                assert(s.drop_last()[i].0@ == k);
                assert(entries_map(s.drop_last()).contains_key(k));
            } else {
                assert(k == s.last().0@);
            }
        }
    }
}

proof fn lemma_entries_map_at(s: Seq<(String, BenchmarkConfigType)>, i: int)
    requires
        keys_unique(s),
        0 <= i < s.len(),
    ensures
        entries_map(s).contains_key(s[i].0@),
        entries_map(s)[s[i].0@] == s[i].1@,
    decreases s.len(),
{
    if i == s.len() - 1 {
    } else {
        assert(s.drop_last()[i] == s[i]);
        lemma_entries_map_at(s.drop_last(), i);
        assert(s[i].0@ != s.last().0@);
    }
}

proof fn lemma_entries_map_push(
    s: Seq<(String, BenchmarkConfigType)>,
    p: (String, BenchmarkConfigType),
)
    ensures
        entries_map(s.push(p)) == entries_map(s).insert(p.0@, p.1@),
{
    assert(s.push(p).drop_last() =~= s);
    assert(s.push(p).last() == p);
}

proof fn lemma_entries_map_update(
    s: Seq<(String, BenchmarkConfigType)>,
    i: int,
    p: (String, BenchmarkConfigType),
)
    requires
        keys_unique(s),
        0 <= i < s.len(),
        p.0@ == s[i].0@,
    ensures
        entries_map(s.update(i, p)) == entries_map(s).insert(p.0@, p.1@),
    decreases s.len(),
{
    let t = s.update(i, p);
    if i == s.len() - 1 {
        assert(t.drop_last() =~= s.drop_last());
        assert(t.last() == p);
        assert(entries_map(s.drop_last()).insert(s.last().0@, s.last().1@).insert(p.0@, p.1@)
            =~= entries_map(s.drop_last()).insert(p.0@, p.1@));
    } else {
        assert(t.drop_last() =~= s.drop_last().update(i, p));
        assert(t.last() == s.last());
        assert(s.drop_last()[i] == s[i]);
        lemma_entries_map_update(s.drop_last(), i, p);
        assert(p.0@ != s.last().0@);
        assert(entries_map(s.drop_last()).insert(p.0@, p.1@).insert(s.last().0@, s.last().1@)
            =~= entries_map(s.drop_last()).insert(s.last().0@, s.last().1@).insert(p.0@, p.1@));
    }
}

proof fn lemma_entries_map_remove(s: Seq<(String, BenchmarkConfigType)>, i: int)
    requires
        keys_unique(s),
        0 <= i < s.len(),
    ensures
        entries_map(s.remove(i)) == entries_map(s).remove(s[i].0@),
    decreases s.len(),
{
    let t = s.remove(i);
    lemma_entries_map_dom(s.drop_last());
    if i == s.len() - 1 {
        assert(t =~= s.drop_last());
        assert(!entries_map(s.drop_last()).contains_key(s[i].0@)) by {
            if entries_map(s.drop_last()).contains_key(s[i].0@) {
                let j = choose|j: int|
                    0 <= j < s.drop_last().len() && s.drop_last()[j].0@ == s[i].0@;
                assert(s[j].0@ == s[i].0@);
            }
        }
        assert(entries_map(s.drop_last()).insert(s.last().0@, s.last().1@).remove(s[i].0@)
            =~= entries_map(s.drop_last()));
    } else {
        assert(t.drop_last() =~= s.drop_last().remove(i));
        assert(t.last() == s.last());
        assert(s.drop_last()[i] == s[i]);
        lemma_entries_map_remove(s.drop_last(), i);
        assert(s[i].0@ != s.last().0@);
        assert(entries_map(s.drop_last()).remove(s[i].0@).insert(s.last().0@, s.last().1@)
            =~= entries_map(s.drop_last()).insert(s.last().0@, s.last().1@).remove(s[i].0@));
    }
}

impl View for ConfigStore {
    type V = Map<Seq<char>, ConfigSaveView>;

    closed spec fn view(&self) -> Map<Seq<char>, ConfigSaveView> {
        entries_map(self.entries@)
    }
}

impl ConfigStore {
    /// No two entries share a name.
    pub closed spec fn wf(&self) -> bool {
        keys_unique(self.entries@)
    }

    /// The empty store.
    pub fn new() -> (r: ConfigStore)
        ensures
            r.wf(),
            r@ == Map::<Seq<char>, ConfigSaveView>::empty(),
    {
        ConfigStore { entries: Vec::new() }
    }

    /// Finds the entry holding the name.
    fn find(&self, name: &String) -> (r: Option<usize>)
        ensures
            match r {
                Some(i) => i < self.entries@.len() && self.entries@[i as int].0@ == name@,
                None => forall|i: int|
                    0 <= i < self.entries@.len() ==> self.entries@[i].0@ != name@,
            },
    {
        let mut i: usize = 0;
        while i < self.entries.len()
            invariant
                i <= self.entries@.len(),
                forall|k: int| 0 <= k < i ==> self.entries@[k].0@ != name@,
            decreases self.entries@.len() - i,
        {
            if self.entries[i].0.eq(name) {
                return Some(i);
            }
            i += 1;
        }
        None
    }

    /// Stores the record under the name, replacing any record the name
    /// held before.
    pub fn add(&mut self, name: &str, cfg: BenchmarkConfigType)
        requires
            old(self).wf(),
        ensures
            final(self).wf(),
            final(self)@ == old(self)@.insert(name@, cfg@),
    {
        let owned: String = name.to_owned();
        match self.find(&owned) {
            Some(i) => {
                let ghost s = self.entries@;
                let ghost p = (s[i as int].0, cfg);
                proof {
                    lemma_entries_map_update(s, i as int, p);
                }
                self.entries[i].1 = cfg;
                proof {
                    assert(self.entries@ =~= s.update(i as int, p));
                }
            },
            None => {
                let ghost s = self.entries@;
                proof {
                    lemma_entries_map_push(s, (owned, cfg));
                }
                self.entries.push((owned, cfg));
            },
        }
    }

    /// The stored record of the name, if any, as a copy.
    pub fn get(&self, name: &str) -> (r: Option<BenchmarkConfigType>)
        requires
            self.wf(),
        ensures
            match r {
                Some(c) => self@.contains_key(name@) && c@ == self@[name@],
                None => !self@.contains_key(name@),
            },
    {
        let owned: String = name.to_owned();
        proof {
            lemma_entries_map_dom(self.entries@);
        }
        match self.find(&owned) {
            Some(i) => {
                proof {
                    lemma_entries_map_at(self.entries@, i as int);
                }
                Some(self.entries[i].1.duplicate())
            },
            None => None,
        }
    }

    /// Drops the name's record and hands it back, or nothing when the
    /// name holds none.
    pub fn remove(&mut self, name: &str) -> (r: Option<BenchmarkConfigType>)
        requires
            old(self).wf(),
        ensures
            final(self).wf(),
            match r {
                Some(c) => {
                    &&& old(self)@.contains_key(name@)
                    &&& c@ == old(self)@[name@]
                    &&& final(self)@ == old(self)@.remove(name@)
                },
                None => {
                    &&& !old(self)@.contains_key(name@)
                    &&& final(self)@ == old(self)@
                },
            },
    {
        let owned: String = name.to_owned();
        proof {
            lemma_entries_map_dom(self.entries@);
        }
        match self.find(&owned) {
            Some(i) => {
                let ghost s = self.entries@;
                proof {
                    lemma_entries_map_at(s, i as int);
                    lemma_entries_map_remove(s, i as int);
                }
                let entry = self.entries.remove(i);
                Some(entry.1)
            },
            None => None,
        }
    }

    /// The stored names, each exactly once, in ascending lexicographic
    /// order.
    pub fn list(&self) -> (r: Vec<String>)
        requires
            self.wf(),
        ensures
            sorted_by(r.deep_view(), str_le_ord()),
            r.deep_view().no_duplicates(),
            forall|k: Seq<char>| #[trigger] r.deep_view().contains(k) <==> self@.contains_key(k),
    {
        let mut keys: Vec<String> = Vec::new();
        let mut i: usize = 0;
        while i < self.entries.len()
            invariant
                i <= self.entries@.len(),
                keys@.len() == i,
                forall|k: int| 0 <= k < i ==> keys@[k]@ == self.entries@[k].0@,
            decreases self.entries@.len() - i,
        {
            keys.push(clone_string(&self.entries[i].0));
            i += 1;
        }
        let ghost kv = keys.deep_view();
        proof {
            broadcast use vstd::seq_lib::group_to_multiset_ensures;

            lemma_entries_map_dom(self.entries@);
            assert(kv.no_duplicates()) by {
                assert forall|a: int, b: int| 0 <= a < b < kv.len() implies kv[a] != kv[b] by {
                    assert(self.entries@[a].0@ != self.entries@[b].0@);
                }
            }
            kv.lemma_multiset_has_no_duplicates();
        }
        sort_names(&mut keys);
        proof {
            broadcast use vstd::seq_lib::group_to_multiset_ensures;

            let rv = keys.deep_view();
            assert forall|k: Seq<char>| #[trigger] rv.contains(k) implies self@.contains_key(
                k,
            ) by {
                assert(rv.to_multiset().contains(k));
                assert(kv.to_multiset().contains(k));
                assert(kv.contains(k));
                let a = choose|a: int| 0 <= a < kv.len() && kv[a] == k;
                assert(self.entries@[a].0@ == k);
            }
            assert forall|k: Seq<char>| self@.contains_key(k) implies #[trigger] rv.contains(
                k,
            ) by {
                let a = choose|a: int| 0 <= a < self.entries@.len() && self.entries@[a].0@ == k;
                assert(kv[a] == k);
                assert(kv.contains(k));
                assert(kv.to_multiset().contains(k));
                assert(rv.to_multiset().contains(k));
            }
            keys.deep_view().lemma_multiset_has_no_duplicates_conv();
        }
        keys
    }
}

} // verus!
