//! Manual host endpoints and GameStream request URLs.
use vstd::prelude::*;

use crate::control::{is_invalid_host_error, opt_view, ControlError};
use crate::identity::random_bytes;
use crate::text::{
    chars_of, concat, concat3, contains_char, decimal, spec_decimal, spec_trim, str_equal, trim,
};
use crate::xml::{hex_encode, spec_hex_encode};

verus! {

/// The HTTP port used when a host address names none.
pub const DEFAULT_HTTP_PORT: u16 = 47989;

/// The parts of a parsed URL that endpoint validation reads.
pub struct UrlParts {
    /// Host, as `Url::host_str` gives it.
    pub host: Option<String>,
    /// User name (empty when absent).
    pub username: String,
    /// Password, when present.
    pub password: Option<String>,
    /// Query string, when present.
    pub query: Option<String>,
    /// Path.
    pub path: String,
    /// Port, as `Url::port` gives it: `None` when absent or equal to the
    /// scheme's default.
    pub port: Option<u16>,
}

/// Mathematical value of [`UrlParts`].
pub struct UrlPartsView {
    pub host: Option<Seq<char>>,
    pub username: Seq<char>,
    pub password: Option<Seq<char>>,
    pub query: Option<Seq<char>>,
    pub path: Seq<char>,
    pub port: Option<u16>,
}

impl View for UrlParts {
    type V = UrlPartsView;

    open spec fn view(&self) -> UrlPartsView {
        UrlPartsView {
            host: opt_view(self.host),
            username: self.username@,
            password: opt_view(self.password),
            query: opt_view(self.query),
            path: self.path@,
            port: self.port,
        }
    }
}

/// The parts of the URL that `input` parses to, or the parser's message.
pub uninterp spec fn parsed_url(input: Seq<char>) -> Result<UrlPartsView, Seq<char>>;

/// Parses a URL with `reqwest::Url::parse`.
///
/// Trusted: the parts, or the error message, are what `parsed_url` names
/// for the input.
#[verifier::external_body]
fn parse_url(input: &str) -> (res: Result<UrlParts, String>)
    ensures
        match res {
            Ok(parts) => parsed_url(input@) == Ok::<UrlPartsView, Seq<char>>(parts@),
            Err(e) => parsed_url(input@) == Err::<UrlPartsView, Seq<char>>(e@),
        },
{
    let url = reqwest::Url::parse(input).map_err(|error| error.to_string())?;
    Ok(UrlParts {
        host: url.host_str().map(str::to_owned),
        username: url.username().to_owned(),
        password: url.password().map(str::to_owned),
        query: url.query().map(str::to_owned),
        path: url.path().to_owned(),
        port: url.port(),
    })
}

/// The views of name/value pairs.
pub open spec fn pairs_view(pairs: Seq<(String, String)>) -> Seq<(Seq<char>, Seq<char>)> {
    pairs.map_values(|p: (String, String)| (p.0@, p.1@))
}

/// The text of the URL that `base` parses to with `pairs` appended to its
/// query, form-encoded in order, or the parser's message.
pub uninterp spec fn query_url(base: Seq<char>, pairs: Seq<(Seq<char>, Seq<char>)>) -> Result<
    Seq<char>,
    Seq<char>,
>;

/// Builds a URL with a query (`reqwest::Url::parse`, then
/// `query_pairs_mut().extend_pairs`, then `to_string`).
///
/// Trusted: the text, or the parser's message, is what `query_url` names.
#[verifier::external_body]
fn build_query_url(base: &str, pairs: &[(String, String)]) -> (res: Result<String, String>)
    ensures
        match res {
            Ok(url) => query_url(base@, pairs_view(pairs@)) == Ok::<Seq<char>, Seq<char>>(url@),
            Err(m) => query_url(base@, pairs_view(pairs@)) == Err::<Seq<char>, Seq<char>>(m@),
        },
{
    let mut url = reqwest::Url::parse(base).map_err(|error| error.to_string())?;
    url.query_pairs_mut().extend_pairs(pairs.iter().map(|pair| (pair.0.as_str(), pair.1.as_str())));
    Ok(url.to_string())
}

/// The authority of a request URL: an IPv6 host goes in brackets.
pub open spec fn spec_authority(host: Seq<char>) -> Seq<char> {
    if host.contains(':') {
        "["@ + host + "]"@
    } else {
        host
    }
}

/// The request URL before its query: `scheme://authority:port/command`.
pub open spec fn spec_url_base(scheme: Seq<char>, host: Seq<char>, port: u16, command: Seq<char>) -> Seq<
    char,
> {
    scheme + "://"@ + spec_authority(host) + ":"@ + spec_decimal(port as nat) + "/"@ + command
}

/// The query of a request: the client's unique ID, the request's UUID in
/// hexadecimal, then the arguments.
pub open spec fn spec_query_pairs(
    unique_id: Seq<char>,
    request_uuid: Seq<u8>,
    arguments: Seq<(Seq<char>, Seq<char>)>,
) -> Seq<(Seq<char>, Seq<char>)> {
    seq![("uniqueid"@, unique_id), ("uuid"@, spec_hex_encode(request_uuid))] + arguments
}

/// Parsed manual host endpoint.
#[derive(Clone, Debug, PartialEq, Eq)]
pub struct Endpoint {
    host: String,
    http_port: u16,
}

/// Mathematical value of an [`Endpoint`].
pub struct EndpointView {
    pub host: Seq<char>,
    pub http_port: u16,
}

impl View for Endpoint {
    type V = EndpointView;

    closed spec fn view(&self) -> EndpointView {
        EndpointView { host: self.host@, http_port: self.http_port }
    }
}

/// Whether `s` contains `needle` as a contiguous part.
pub open spec fn spec_contains(s: Seq<char>, needle: Seq<char>) -> bool {
    exists|i: int| 0 <= i && i + needle.len() <= s.len() && #[trigger] s.subrange(i, i + needle.len()) == needle
}

/// The URL that a trimmed host entry is read as: itself when it names a
/// scheme, else an `http` URL.
pub open spec fn spec_candidate(input: Seq<char>) -> Seq<char> {
    if spec_contains(input, "://"@) {
        input
    } else {
        "http://"@ + input
    }
}

/// The outcome of parsing a host entry: the endpoint, or the message of the
/// `InvalidHost` error. The port is the one written in the entry, else
/// 47989.
pub open spec fn spec_endpoint(input: Seq<char>) -> Result<EndpointView, Seq<char>> {
    let input = spec_trim(input);
    if input.len() == 0 {
        Err("host is empty"@)
    } else {
        match parsed_url(spec_candidate(input)) {
            Err(message) => Err(message),
            Ok(url) => if url.host is None {
                Err("host name is missing"@)
            } else if url.username.len() != 0 || url.password is Some || url.query is Some {
                Err("credentials and query strings are not supported"@)
            } else if url.path != "/"@ && url.path.len() != 0 {
                Err("a host address must not contain a path"@)
            } else {
                Ok(
                    EndpointView {
                        host: url.host->Some_0,
                        http_port: match spec_written_port(spec_candidate(input)) {
                            Some(p) => p,
                            None => match url.port {
                                Some(p) => p,
                                None => DEFAULT_HTTP_PORT,
                            },
                        },
                    },
                )
            },
        }
    }
}

fn contains_scheme_separator(s: &[char]) -> (res: bool)
    ensures
        res == spec_contains(s@, "://"@),
{
    proof {
        reveal_strlit("://");
    }
    let mut i: usize = 0;
    while s.len() >= 3 && i <= s.len() - 3
        invariant
            i <= s.len(),
            forall|k: int| 0 <= k < i ==> #[trigger] s@.subrange(k, k + 3) != "://"@,
        decreases s.len() - i,
    {
        proof {
            reveal_strlit("://");
        }
        if s[i] == ':' && s[i + 1] == '/' && s[i + 2] == '/' {
            assert(s@.subrange(i as int, i + 3) =~= "://"@);
            return true;
        }
        assert(s@.subrange(i as int, i + 3) != "://"@) by {
            if s@.subrange(i as int, i + 3) == "://"@ {
                assert(s@.subrange(i as int, i + 3)[0] == s@[i as int]);
                assert(s@.subrange(i as int, i + 3)[1] == s@[i + 1]);
                assert(s@.subrange(i as int, i + 3)[2] == s@[i + 2]);
            }
        }
        i = i + 1;
    }
    proof {
        reveal_strlit("://");
    }
    assert forall|k: int| 0 <= k && k + "://"@.len() <= s@.len() implies #[trigger] s@.subrange(
        k,
        k + "://"@.len(),
    ) != "://"@ by {
        assert(k < i);
    }
    false
}

/// The index of the first `://` in `s` at or after `i`, or the length of
/// `s` when there is none.
pub open spec fn spec_sep_index(s: Seq<char>, i: int) -> int
    decreases s.len() - i,
{
    if i < 0 || i + 3 > s.len() {
        s.len() as int
    } else if s[i] == ':' && s[i + 1] == '/' && s[i + 2] == '/' {
        i
    } else {
        spec_sep_index(s, i + 1)
    }
}

/// Whether `c` ends the authority of a URL.
pub open spec fn spec_ends_authority(c: char) -> bool {
    c == '/' || c == '?' || c == '#' || c == '\\'
}

/// The index of the first character at or after `i` that ends the
/// authority, or the length of `s`.
pub open spec fn spec_authority_end(s: Seq<char>, i: int) -> int
    decreases s.len() - i,
{
    if i < 0 || i >= s.len() {
        s.len() as int
    } else if spec_ends_authority(s[i]) {
        i
    } else {
        spec_authority_end(s, i + 1)
    }
}

/// The index of the last `c` in `s[lo..hi]`, or `lo - 1` when there is
/// none.
pub open spec fn spec_last_in(s: Seq<char>, c: char, lo: int, hi: int) -> int
    decreases hi - lo,
{
    if hi <= lo {
        lo - 1
    } else if s[hi - 1] == c {
        hi - 1
    } else {
        spec_last_in(s, c, lo, hi - 1)
    }
}

/// Whether every character of `t` is an ASCII digit.
pub open spec fn spec_all_digits(t: Seq<char>) -> bool {
    forall|i: int| 0 <= i < t.len() ==> '0' <= #[trigger] t[i] <= '9'
}

/// The decimal value of the digits `t`.
pub open spec fn spec_digits_value(t: Seq<char>) -> int
    decreases t.len(),
{
    if t.len() == 0 {
        0
    } else {
        spec_digits_value(t.drop_last()) * 10 + (t.last() as int - '0' as int)
    }
}

/// The port that the digits `t` write, when they write one.
pub open spec fn spec_port_value(t: Seq<char>) -> Option<u16> {
    if t.len() > 0 && spec_all_digits(t) && spec_digits_value(t) <= 65535 {
        Some(spec_digits_value(t) as u16)
    } else {
        None
    }
}

/// The port written in the authority of the URL `s` (after the last `:`
/// that follows the user information), when one is written.
pub open spec fn spec_written_port(s: Seq<char>) -> Option<u16> {
    let sep = spec_sep_index(s, 0);
    if sep + 3 > s.len() {
        None
    } else {
        let start = sep + 3;
        let end = spec_authority_end(s, start);
        let host_start = spec_last_in(s, '@', start, end) + 1;
        let colon = spec_last_in(s, ':', host_start, end);
        if colon < host_start {
            None
        } else {
            spec_port_value(s.subrange(colon + 1, end))
        }
    }
}

proof fn lemma_digits_value_grows(t: Seq<char>, k: int)
    requires
        spec_all_digits(t),
        0 <= k <= t.len(),
    ensures
        spec_digits_value(t.subrange(0, k)) <= spec_digits_value(t),
    decreases t.len(),
{
    if k < t.len() {
        let u = t.drop_last();
        assert(u.subrange(0, k) =~= t.subrange(0, k));
        assert(spec_all_digits(u)) by {
            assert forall|i: int| 0 <= i < u.len() implies '0' <= #[trigger] u[i] <= '9' by {
                assert(u[i] == t[i]);
            }
        }
        lemma_digits_value_grows(u, k);
        assert('0' <= t[t.len() - 1]);
        assert(spec_digits_value(u) >= 0) by {
            lemma_digits_value_nonneg(u);
        }
    } else {
        assert(t.subrange(0, k) =~= t);
    }
}

proof fn lemma_digits_value_nonneg(t: Seq<char>)
    requires
        spec_all_digits(t),
    ensures
        spec_digits_value(t) >= 0,
    decreases t.len(),
{
    if t.len() > 0 {
        let u = t.drop_last();
        assert(spec_all_digits(u)) by {
            assert forall|i: int| 0 <= i < u.len() implies '0' <= #[trigger] u[i] <= '9' by {
                assert(u[i] == t[i]);
            }
        }
        lemma_digits_value_nonneg(u);
        assert('0' <= t[t.len() - 1]);
    }
}

fn sep_index(s: &[char]) -> (res: usize)
    ensures
        res == spec_sep_index(s@, 0),
{
    let mut i: usize = 0;
    while i < s.len() && s.len() - i >= 3
        invariant
            i <= s.len(),
            spec_sep_index(s@, 0) == spec_sep_index(s@, i as int),
        decreases s.len() - i,
    {
        if s[i] == ':' && s[i + 1] == '/' && s[i + 2] == '/' {
            return i;
        }
        i = i + 1;
    }
    s.len()
}

fn authority_end(s: &[char], start: usize) -> (res: usize)
    requires
        start <= s.len(),
    ensures
        res == spec_authority_end(s@, start as int),
        start <= res <= s.len(),
{
    let mut i: usize = start;
    while i < s.len()
        invariant
            start <= i <= s.len(),
            spec_authority_end(s@, start as int) == spec_authority_end(s@, i as int),
        decreases s.len() - i,
    {
        if s[i] == '/' || s[i] == '?' || s[i] == '#' || s[i] == '\\' {
            return i;
        }
        i = i + 1;
    }
    s.len()
}

fn last_in(s: &[char], c: char, lo: usize, hi: usize) -> (res: Option<usize>)
    requires
        lo <= hi <= s.len(),
    ensures
        match res {
            Some(k) => k == spec_last_in(s@, c, lo as int, hi as int) && lo <= k < hi,
            None => spec_last_in(s@, c, lo as int, hi as int) == lo - 1,
        },
{
    let mut j: usize = hi;
    while j > lo
        invariant
            lo <= j <= hi,
            hi <= s.len(),
            spec_last_in(s@, c, lo as int, hi as int) == spec_last_in(s@, c, lo as int, j as int),
        decreases j,
    {
        if s[j - 1] == c {
            return Some(j - 1);
        }
        j = j - 1;
    }
    None
}

fn port_value(s: &[char], lo: usize, hi: usize) -> (res: Option<u16>)
    requires
        lo <= hi <= s.len(),
    ensures
        res == spec_port_value(s@.subrange(lo as int, hi as int)),
{
    let ghost t = s@.subrange(lo as int, hi as int);
    if lo == hi {
        return None;
    }
    let mut value: u32 = 0;
    let mut i: usize = lo;
    while i < hi
        invariant
            lo <= i <= hi,
            hi <= s.len(),
            t == s@.subrange(lo as int, hi as int),
            value <= 65535,
            value == spec_digits_value(s@.subrange(lo as int, i as int)),
            forall|k: int| lo <= k < i ==> '0' <= #[trigger] s@[k] <= '9',
        decreases hi - i,
    {
        let c = s[i];
        if !('0' <= c && c <= '9') {
            proof {
                assert(t[i - lo] == c);
                assert(!spec_all_digits(t));
            }
            return None;
        }
        let ghost prefix = s@.subrange(lo as int, i + 1);
        proof {
            assert(prefix.drop_last() =~= s@.subrange(lo as int, i as int));
            assert(prefix.last() == c);
        }
        let digit: u32 = (c as u32) - ('0' as u32);
        value = value * 10 + digit;
        i = i + 1;
        if value > 65535 {
            proof {
                if spec_all_digits(t) {
                    assert(t.subrange(0, i - lo) =~= prefix);
                    lemma_digits_value_grows(t, i - lo);
                }
            }
            return None;
        }
    }
    proof {
        assert(s@.subrange(lo as int, i as int) =~= t);
        assert(spec_all_digits(t)) by {
            assert forall|k: int| 0 <= k < t.len() implies '0' <= #[trigger] t[k] <= '9' by {
                assert(t[k] == s@[lo + k]);
            }
        }
    }
    Some(value as u16)
}

/// The port written in the authority of the URL `s`, when one is written.
fn written_port(s: &[char]) -> (res: Option<u16>)
    ensures
        res == spec_written_port(s@),
{
    let sep = sep_index(s);
    if sep >= s.len() || s.len() - sep < 3 {
        return None;
    }
    let start = sep + 3;
    let end = authority_end(s, start);
    let host_start = match last_in(s, '@', start, end) {
        Some(k) => k + 1,
        None => start,
    };
    match last_in(s, ':', host_start, end) {
        Some(colon) => port_value(s, colon + 1, end),
        None => None,
    }
}

impl Endpoint {
    /// Parse a hostname, IPv4 address, or HTTP URL; port 47989 is used when
    /// the entry names none.
    pub fn parse(input: &str) -> (res: Result<Self, ControlError>)
        ensures
            match spec_endpoint(input@) {
                Ok(e) => res is Ok && res->Ok_0@ == e,
                Err(message) => res is Err && is_invalid_host_error(res->Err_0, message),
            },
    {
        let input = trim(input);
        if input.as_str().is_empty() {
            return Err(ControlError::InvalidHost("host is empty".to_owned()));
        }
        let chars = chars_of(input.as_str());
        let candidate = if contains_scheme_separator(chars.as_slice()) {
            input.clone()
        } else {
            concat("http://", input.as_str())
        };
        let url = match parse_url(candidate.as_str()) {
            Ok(url) => url,
            Err(message) => return Err(ControlError::InvalidHost(message)),
        };
        let host = match url.host {
            Some(host) => host,
            None => return Err(ControlError::InvalidHost("host name is missing".to_owned())),
        };
        if !url.username.as_str().is_empty() || url.password.is_some() || url.query.is_some() {
            return Err(
                ControlError::InvalidHost(
                    "credentials and query strings are not supported".to_owned(),
                ),
            );
        }
        if !str_equal(url.path.as_str(), "/") && !url.path.as_str().is_empty() {
            return Err(
                ControlError::InvalidHost("a host address must not contain a path".to_owned()),
            );
        }
        let candidate_chars = chars_of(candidate.as_str());
        let http_port = match written_port(candidate_chars.as_slice()) {
            Some(port) => port,
            None => match url.port {
                Some(port) => port,
                None => DEFAULT_HTTP_PORT,
            },
        };
        Ok(Endpoint { host, http_port })
    }

    /// A copy of this endpoint.
    pub fn copy(&self) -> (res: Endpoint)
        ensures
            res@ == self@,
    {
        Endpoint { host: self.host.clone(), http_port: self.http_port }
    }

    /// Return the normalized host name or IP address.
    pub fn host(&self) -> (res: &str)
        ensures
            res@ == self@.host,
    {
        self.host.as_str()
    }

    /// Return the HTTP control port.
    pub fn http_port(&self) -> (res: u16)
        ensures
            res == self@.http_port,
    {
        self.http_port
    }

    /// The URL of a request to `command` on `port`, carrying the client's
    /// unique ID, the request's UUID and the arguments in its query.
    pub fn url_with_uuid(
        &self,
        scheme: &str,
        port: u16,
        command: &str,
        unique_id: &str,
        arguments: &[(String, String)],
        request_uuid: [u8; 16],
    ) -> (res: Result<String, ControlError>)
        ensures
            match query_url(
                spec_url_base(scheme@, self@.host, port, command@),
                spec_query_pairs(unique_id@, request_uuid@, pairs_view(arguments@)),
            ) {
                Ok(url) => res is Ok && res->Ok_0@ == url,
                Err(m) => res is Err && is_invalid_host_error(res->Err_0, m),
            },
    {
        let host_chars = chars_of(self.host.as_str());
        let authority = if contains_char(host_chars.as_slice(), ':') {
            concat3("[", self.host.as_str(), "]")
        } else {
            self.host.clone()
        };
        let port_text = decimal(port as u64);
        let head = concat3(scheme, "://", authority.as_str());
        let with_port = concat3(head.as_str(), ":", port_text.as_str());
        let base = concat3(with_port.as_str(), "/", command);
        let mut pairs: Vec<(String, String)> = Vec::new();
        pairs.push(("uniqueid".to_owned(), unique_id.to_owned()));
        pairs.push(("uuid".to_owned(), hex_encode(request_uuid.as_slice())));
        let mut i: usize = 0;
        while i < arguments.len()
            invariant
                i <= arguments.len(),
                pairs_view(pairs@) == seq![
                    ("uniqueid"@, unique_id@),
                    ("uuid"@, spec_hex_encode(request_uuid@)),
                ] + pairs_view(arguments@.subrange(0, i as int)),
            decreases arguments.len() - i,
        {
            let name = arguments[i].0.clone();
            let value = arguments[i].1.clone();
            let ghost before = pairs@;
            pairs.push((name, value));
            proof {
                assert(name@ == arguments@[i as int].0@ && value@ == arguments@[i as int].1@);
                assert(pairs_view(pairs@) =~= pairs_view(before).push((name@, value@)));
                assert(arguments@.subrange(0, i + 1) =~= arguments@.subrange(0, i as int).push(
                    arguments@[i as int],
                ));
                assert(pairs_view(arguments@.subrange(0, i + 1)) =~= pairs_view(
                    arguments@.subrange(0, i as int),
                ).push((name@, value@)));
            }
            i = i + 1;
            assert(pairs_view(pairs@) =~= seq![
                ("uniqueid"@, unique_id@),
                ("uuid"@, spec_hex_encode(request_uuid@)),
            ] + pairs_view(arguments@.subrange(0, i as int)));
        }
        assert(arguments@.subrange(0, arguments.len() as int) =~= arguments@);
        assert(base@ == spec_url_base(scheme@, self@.host, port, command@));
        match build_query_url(base.as_str(), pairs.as_slice()) {
            Ok(url) => Ok(url),
            Err(message) => Err(ControlError::InvalidHost(message)),
        }
    }

    /// The URL of a request, with a fresh random request UUID.
    pub fn url(
        &self,
        scheme: &str,
        port: u16,
        command: &str,
        unique_id: &str,
        arguments: &[(String, String)],
    ) -> (res: Result<String, ControlError>)
        ensures
            exists|request_uuid: Seq<u8>|
                request_uuid.len() == 16 && match query_url(
                    spec_url_base(scheme@, self@.host, port, command@),
                    spec_query_pairs(unique_id@, request_uuid, pairs_view(arguments@)),
                ) {
                    Ok(url) => res is Ok && res->Ok_0@ == url,
                    Err(m) => res is Err && is_invalid_host_error(res->Err_0, m),
                },
    {
        let request_uuid = random_bytes::<16>();
        let res = self.url_with_uuid(scheme, port, command, unique_id, arguments, request_uuid);
        assert(request_uuid@.len() == 16);
        res
    }
}

} // verus!
