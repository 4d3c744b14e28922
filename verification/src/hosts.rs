//! Saved Sunshine host history.
use vstd::prelude::*;

use crate::control::{is_invalid_host_error, opt_view, ControlError};
use crate::endpoint::{spec_endpoint, Endpoint};
use crate::text::{spec_trim, str_equal, trim};

verus! {

/// The version of the saved-host document that this library reads and writes.
pub const HOSTS_FORMAT_VERSION: u32 = 1;

/// Saved Sunshine endpoints and the most recently connected endpoint.
#[derive(Debug, PartialEq, Eq)]
pub struct SavedHosts {
    hosts: Vec<String>,
    last_connected: Option<String>,
}

/// Mathematical value of [`SavedHosts`].
pub struct SavedHostsView {
    /// Remembered endpoints, in insertion order.
    pub hosts: Seq<Seq<char>>,
    /// The endpoint of the most recent successful connection.
    pub last_connected: Option<Seq<char>>,
}

/// The views of a list of strings.
pub open spec fn strings_view(s: Seq<String>) -> Seq<Seq<char>> {
    s.map_values(|x: String| x@)
}

impl View for SavedHosts {
    type V = SavedHostsView;

    closed spec fn view(&self) -> SavedHostsView {
        SavedHostsView { hosts: strings_view(self.hosts@), last_connected: opt_view(self.last_connected) }
    }
}

/// The form in which a host entry is remembered: the trimmed text, when the
/// trimmed text is a valid endpoint.
pub open spec fn spec_normalized_host(host: Seq<char>) -> Option<Seq<char>> {
    let trimmed = spec_trim(host);
    if spec_endpoint(trimmed) is Ok {
        Some(trimmed)
    } else {
        None
    }
}

/// `hosts` with `host` appended unless it is already present.
pub open spec fn spec_add_host(hosts: Seq<Seq<char>>, host: Seq<char>) -> Seq<Seq<char>> {
    if hosts.contains(host) {
        hosts
    } else {
        hosts.push(host)
    }
}

/// Whether a history is well formed: no endpoint twice, each one remembered
/// in normalized form, and the latest endpoint among them.
pub open spec fn spec_well_formed(v: SavedHostsView) -> bool {
    &&& forall|i: int, j: int| 0 <= i < j < v.hosts.len() ==> v.hosts[i] != v.hosts[j]
    &&& forall|i: int| 0 <= i < v.hosts.len() ==> spec_normalized_host(#[trigger] v.hosts[i]) == Some(
        v.hosts[i],
    )
    &&& (v.last_connected matches Some(h) ==> v.hosts.contains(h))
}

/// The history after remembering `host` without selecting it.
pub open spec fn spec_remember_without_selecting(v: SavedHostsView, host: Seq<char>) -> Option<SavedHostsView> {
    match spec_normalized_host(host) {
        Some(h) => Some(SavedHostsView { hosts: spec_add_host(v.hosts, h), last_connected: v.last_connected }),
        None => None,
    }
}

/// The history after remembering `host` as the latest connection.
pub open spec fn spec_remember(v: SavedHostsView, host: Seq<char>) -> Option<SavedHostsView> {
    match spec_normalized_host(host) {
        Some(h) => Some(SavedHostsView { hosts: spec_add_host(v.hosts, h), last_connected: Some(h) }),
        None => None,
    }
}

/// The history that a saved document describes: its hosts remembered in
/// order, then its latest host selected (`None` when one is invalid).
pub open spec fn spec_from_hosts(v: SavedHostsView, hosts: Seq<Seq<char>>) -> Option<SavedHostsView>
    decreases hosts.len(),
{
    if hosts.len() == 0 {
        Some(v)
    } else {
        match spec_remember_without_selecting(v, hosts[0]) {
            Some(next) => spec_from_hosts(next, hosts.drop_first()),
            None => None,
        }
    }
}

/// The empty history.
pub open spec fn spec_empty_history() -> SavedHostsView {
    SavedHostsView { hosts: Seq::empty(), last_connected: None }
}

fn normalized_host(host: &str) -> (res: Result<String, ControlError>)
    ensures
        match spec_normalized_host(host@) {
            Some(h) => res is Ok && res->Ok_0@ == h,
            None => res is Err,
        },
        spec_endpoint(spec_trim(host@)) matches Err(m) ==> res is Err && is_invalid_host_error(
            res->Err_0,
            m,
        ),
        res matches Ok(h) ==> spec_normalized_host(h@) == Some(h@),
{
    let trimmed = trim(host);
    proof {
        crate::text::lemma_trim_idempotent(host@);
    }
    match Endpoint::parse(trimmed.as_str()) {
        Ok(_) => Ok(trimmed),
        Err(error) => Err(error),
    }
}

impl Default for SavedHosts {
    /// An empty history, as [`SavedHosts::new`] gives.
    fn default() -> (res: Self)
        ensures
            res@ == spec_empty_history(),
            res.well_formed(),
    {
        SavedHosts::new()
    }
}

impl SavedHosts {
    /// The well-formedness of this history.
    pub closed spec fn well_formed(&self) -> bool {
        spec_well_formed(self@)
    }

    /// A well-formed history keeps no endpoint twice, keeps each one in
    /// normalized form, and its latest endpoint is among them: the laws
    /// stated over `spec_well_formed` hold of it.
    pub proof fn lemma_well_formed_view(&self)
        requires
            self.well_formed(),
        ensures
            spec_well_formed(self@),
    {
    }

    /// An empty history.
    pub fn new() -> (res: Self)
        ensures
            res@ == spec_empty_history(),
            res.well_formed(),
    {
        let res = SavedHosts { hosts: Vec::new(), last_connected: None };
        assert(strings_view(res.hosts@) =~= Seq::empty());
        res
    }

    fn contains(&self, host: &str) -> (res: bool)
        ensures
            res == self@.hosts.contains(host@),
    {
        let mut i: usize = 0;
        while i < self.hosts.len()
            invariant
                i <= self.hosts.len(),
                forall|k: int| 0 <= k < i ==> self.hosts@[k]@ != host@,
            decreases self.hosts.len() - i,
        {
            if str_equal(self.hosts[i].as_str(), host) {
                assert(self@.hosts[i as int] == host@);
                return true;
            }
            i = i + 1;
        }
        proof {
            if self@.hosts.contains(host@) {
                let k = choose|k: int| 0 <= k < self@.hosts.len() && self@.hosts[k] == host@;
                assert(self.hosts@[k]@ == host@);
            }
        }
        false
    }

    /// Remember an endpoint without making it the latest connection.
    pub fn remember_without_selecting(&mut self, host: &str) -> (res: Result<(), ControlError>)
        requires
            old(self).well_formed(),
        ensures
            final(self).well_formed(),
            match spec_remember_without_selecting(old(self)@, host@) {
                Some(v) => res is Ok && final(self)@ == v,
                None => res is Err && final(self)@ == old(self)@,
            },
            spec_endpoint(spec_trim(host@)) matches Err(m) ==> res is Err && is_invalid_host_error(
                res->Err_0,
                m,
            ),
    {
        let host = match normalized_host(host) {
            Ok(h) => h,
            Err(error) => return Err(error),
        };
        if !self.contains(host.as_str()) {
            let ghost before = self@;
            let ghost h = host@;
            self.hosts.push(host);
            assert(self@.hosts =~= before.hosts.push(h));
            proof {
                assert forall|i: int, j: int| 0 <= i < j < self@.hosts.len() implies self@.hosts[i]
                    != self@.hosts[j] by {
                    if j == self@.hosts.len() - 1 {
                        assert(before.hosts[i] == self@.hosts[i]);
                    } else {
                        assert(before.hosts[i] == self@.hosts[i]);
                        assert(before.hosts[j] == self@.hosts[j]);
                    }
                }
                assert forall|i: int| 0 <= i < self@.hosts.len() implies spec_normalized_host(
                    #[trigger] self@.hosts[i],
                ) == Some(self@.hosts[i]) by {
                    if i < before.hosts.len() {
                        assert(before.hosts[i] == self@.hosts[i]);
                    }
                }
                if let Some(h) = self@.last_connected {
                    assert(before.hosts.contains(h));
                    let k = choose|k: int| 0 <= k < before.hosts.len() && before.hosts[k] == h;
                    assert(self@.hosts[k] == h);
                }
            }
        }
        Ok(())
    }

    /// Remember a successfully connected endpoint and select it as the
    /// latest host.
    pub fn remember(&mut self, host: &str) -> (res: Result<(), ControlError>)
        requires
            old(self).well_formed(),
        ensures
            final(self).well_formed(),
            match spec_remember(old(self)@, host@) {
                Some(v) => res is Ok && final(self)@ == v,
                None => res is Err && final(self)@ == old(self)@,
            },
            spec_endpoint(spec_trim(host@)) matches Err(m) ==> res is Err && is_invalid_host_error(
                res->Err_0,
                m,
            ),
    {
        let host = match normalized_host(host) {
            Ok(h) => h,
            Err(error) => return Err(error),
        };
        self.remember_without_selecting(host.as_str())?;
        assert(self@.hosts.contains(host@)) by {
            if !old(self)@.hosts.contains(host@) {
                assert(self@.hosts[self@.hosts.len() - 1] == host@);
            }
        }
        self.last_connected = Some(host);
        Ok(())
    }

    /// Return all remembered endpoints in insertion order.
    pub fn hosts(&self) -> (res: &[String])
        ensures
            strings_view(res@) == self@.hosts,
    {
        self.hosts.as_slice()
    }

    /// Return the endpoint used by the most recent successful connection.
    pub fn last_connected(&self) -> (res: Option<&str>)
        ensures
            match res {
                Some(h) => self@.last_connected == Some(h@),
                None => self@.last_connected is None,
            },
    {
        match &self.last_connected {
            Some(host) => Some(host.as_str()),
            None => None,
        }
    }

    /// Rebuild a history from a saved document: `version` must be the
    /// supported format version; every host is remembered in order, then the
    /// latest host is selected.
    pub fn from_document(version: u32, hosts: Vec<String>, last_connected: Option<String>) -> (res: Result<
        Self,
        ControlError,
    >)
        ensures
            version != HOSTS_FORMAT_VERSION ==> res is Err && res->Err_0 is Configuration,
            version == HOSTS_FORMAT_VERSION ==> match spec_from_hosts(
                spec_empty_history(),
                strings_view(hosts@),
            ) {
                Some(v) => match last_connected {
                    Some(l) => match spec_remember(v, l@) {
                        Some(w) => res is Ok && res->Ok_0@ == w,
                        None => res is Err,
                    },
                    None => res is Ok && res->Ok_0@ == v,
                },
                None => res is Err,
            },
            res matches Ok(saved) ==> saved.well_formed(),
    {
        if version != HOSTS_FORMAT_VERSION {
            let mut message = "unsupported hosts.json version ".to_owned();
            let number = crate::text::decimal(version as u64);
            message.append(number.as_str());
            return Err(ControlError::Configuration(message));
        }
        let mut saved = SavedHosts::new();
        let mut i: usize = 0;
        assert(strings_view(hosts@).subrange(0, hosts@.len() as int) =~= strings_view(hosts@));
        while i < hosts.len()
            invariant
                i <= hosts.len(),
                version == HOSTS_FORMAT_VERSION,
                saved.well_formed(),
                spec_from_hosts(spec_empty_history(), strings_view(hosts@)) == spec_from_hosts(
                    saved@,
                    strings_view(hosts@).subrange(i as int, hosts@.len() as int),
                ),
            decreases hosts.len() - i,
        {
            let ghost rest = strings_view(hosts@).subrange(i as int, hosts@.len() as int);
            assert(rest[0] == hosts@[i as int]@);
            assert(rest.drop_first() =~= strings_view(hosts@).subrange(i + 1, hosts@.len() as int));
            saved.remember_without_selecting(hosts[i].as_str())?;
            i = i + 1;
        }
        assert(strings_view(hosts@).subrange(i as int, hosts@.len() as int) =~= Seq::empty());
        if let Some(last) = last_connected {
            saved.remember(last.as_str())?;
        }
        Ok(saved)
    }

    /// The document fields of this history: version, hosts and latest host.
    pub fn to_document(&self) -> (res: (u32, Vec<String>, Option<String>))
        ensures
            res.0 == HOSTS_FORMAT_VERSION,
            strings_view(res.1@) == self@.hosts,
            opt_view(res.2) == self@.last_connected,
    {
        let mut hosts: Vec<String> = Vec::new();
        let mut i: usize = 0;
        while i < self.hosts.len()
            invariant
                i <= self.hosts.len(),
                hosts@.len() == i,
                strings_view(hosts@) == self@.hosts.subrange(0, i as int),
            decreases self.hosts.len() - i,
        {
            let ghost before = hosts@;
            hosts.push(self.hosts[i].clone());
            assert(hosts@[i as int] == self.hosts@[i as int]);
            assert(self@.hosts[i as int] == self.hosts@[i as int]@);
            i = i + 1;
            assert(strings_view(hosts@) =~= self@.hosts.subrange(0, i as int));
        }
        assert(self@.hosts.subrange(0, i as int) =~= self@.hosts);
        let last = match &self.last_connected {
            Some(host) => Some(host.clone()),
            None => None,
        };
        (HOSTS_FORMAT_VERSION, hosts, last)
    }
}

/// Remembering an endpoint twice leaves the history as remembering it once.
pub proof fn law_remember_idempotent(v: SavedHostsView, host: Seq<char>)
    requires
        spec_well_formed(v),
    ensures
        match spec_remember(v, host) {
            Some(w) => spec_remember(w, host) == Some(w),
            None => true,
        },
{
    if let Some(w) = spec_remember(v, host) {
        let h = spec_normalized_host(host)->Some_0;
        assert(w.hosts.contains(h)) by {
            if !v.hosts.contains(h) {
                assert(w.hosts[w.hosts.len() - 1] == h);
            }
        }
    }
}

/// Remembering an endpoint never forgets another one, keeps the order of
/// those already saved, and selects the endpoint as the latest connection.
pub proof fn law_remember_keeps_history(v: SavedHostsView, host: Seq<char>)
    requires
        spec_well_formed(v),
    ensures
        match spec_remember(v, host) {
            Some(w) => {
                &&& w.hosts.subrange(0, v.hosts.len() as int) == v.hosts
                &&& w.last_connected == spec_normalized_host(host)
                &&& w.hosts.contains(spec_normalized_host(host)->Some_0)
                &&& spec_well_formed(w)
            },
            None => true,
        },
{
    if let Some(w) = spec_remember(v, host) {
        let h = spec_normalized_host(host)->Some_0;
        crate::text::lemma_trim_idempotent(host);
        assert(w.hosts.subrange(0, v.hosts.len() as int) =~= v.hosts);
        assert(w.hosts.contains(h)) by {
            if !v.hosts.contains(h) {
                assert(w.hosts[w.hosts.len() - 1] == h);
            }
        }
        assert(spec_normalized_host(h) == Some(h));
        if !v.hosts.contains(h) {
            assert forall|i: int, j: int| 0 <= i < j < w.hosts.len() implies w.hosts[i] != w.hosts[j] by {
                if j == w.hosts.len() - 1 {
                    assert(v.hosts[i] == w.hosts[i]);
                }
            }
        }
    }
}

/// Rebuilding a history from its remaining hosts, after the first `k` were
/// remembered, gives the whole list back.
proof fn lemma_rebuild(hosts: Seq<Seq<char>>, k: int)
    requires
        0 <= k <= hosts.len(),
        forall|i: int, j: int| 0 <= i < j < hosts.len() ==> hosts[i] != hosts[j],
        forall|i: int| 0 <= i < hosts.len() ==> spec_normalized_host(#[trigger] hosts[i]) == Some(hosts[i]),
    ensures
        spec_from_hosts(SavedHostsView { hosts: hosts.take(k), last_connected: None }, hosts.skip(k)) == Some(
            SavedHostsView { hosts, last_connected: None },
        ),
    decreases hosts.len() - k,
{
    if k == hosts.len() {
        assert(hosts.take(k) =~= hosts);
        assert(hosts.skip(k) =~= Seq::<Seq<char>>::empty());
    } else {
        let prefix = hosts.take(k);
        assert(!prefix.contains(hosts[k])) by {
            if prefix.contains(hosts[k]) {
                let i = choose|i: int| 0 <= i < prefix.len() && prefix[i] == hosts[k];
                assert(hosts[i] == hosts[k]);
            }
        }
        assert(spec_normalized_host(hosts[k]) == Some(hosts[k]));
        assert(spec_add_host(prefix, hosts[k]) =~= hosts.take(k + 1));
        assert(hosts.skip(k)[0] == hosts[k]);
        assert(hosts.skip(k).drop_first() =~= hosts.skip(k + 1));
        lemma_rebuild(hosts, k + 1);
    }
}

/// Saving a well-formed history and reading the document back gives the
/// same history: its hosts remembered in order rebuild the list, and
/// selecting the saved latest host restores it.
pub proof fn law_document_round_trip(v: SavedHostsView)
    requires
        spec_well_formed(v),
    ensures
        spec_from_hosts(spec_empty_history(), v.hosts) == Some(
            SavedHostsView { hosts: v.hosts, last_connected: None },
        ),
        match v.last_connected {
            Some(l) => spec_remember(SavedHostsView { hosts: v.hosts, last_connected: None }, l) == Some(v),
            None => v == SavedHostsView { hosts: v.hosts, last_connected: None },
        },
{
    lemma_rebuild(v.hosts, 0);
    assert(v.hosts.take(0) =~= Seq::<Seq<char>>::empty());
    assert(v.hosts.skip(0) =~= v.hosts);
    if let Some(l) = v.last_connected {
        let i = choose|i: int| 0 <= i < v.hosts.len() && v.hosts[i] == l;
        assert(spec_normalized_host(v.hosts[i]) == Some(v.hosts[i]));
    }
}

} // verus!
