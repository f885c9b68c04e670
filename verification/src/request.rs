//! Assembling a request: a header set with defaults, and one function per
//! HTTP verb, each performing a single exchange through the transport.

use vstd::prelude::*;
use crate::errors::RequestsError;
use crate::headers::{
    chars_eq_ci, entry_views, find_header, lemma_put_all_distinct_pair, lemma_put_all_single,
    lookup_header, put_all, put_all_from, put_from, put_header, str_eq_ci,
};
use crate::transport::{header_entries, url_parses};
use crate::response::Response;
use crate::transport;

verus! {

/// The result of one HTTP exchange.
pub type RequestsResult = Result<Response, RequestsError>;

/// The fixed User-Agent value sent by default.
pub open spec fn default_agent() -> Seq<char> {
    "requests-rs/0.1.0"@
}

/// The fixed User-Agent value, as a string slice.
pub fn default_agent_str() -> (r: &'static str)
    ensures
        r@ == default_agent(),
{
    "requests-rs/0.1.0"
}

/// A set of outbound headers, assembled once and consumed by one verb
/// call.  Header names compare case-insensitively.
pub struct Request {
    headers: Vec<(String, String)>,
}

impl Request {
    /// The header entries this request will send, in order.
    pub closed spec fn entries(&self) -> Seq<(Seq<char>, Seq<char>)> {
        entry_views(self.headers@)
    }

    /// A bare request that carries no headers at all.
    pub fn new() -> (r: Self)
        ensures
            r.entries() == Seq::<(Seq<char>, Seq<char>)>::empty(),
    {
        let r = Request { headers: Vec::new() };
        proof {
            assert(r.entries() =~= Seq::<(Seq<char>, Seq<char>)>::empty());
        }
        r
    }

    /// Stores `value` under the header `name`: the first entry whose name
    /// matches up to ASCII case is replaced, else the pair is appended.
    fn put_entry(&mut self, name: &str, value: &str)
        ensures
            final(self).entries() == put_header(old(self).entries(), name@, value@),
    {
        let ghost orig = old(self).entries();
        let mut i: usize = 0;
        while i < self.headers.len()
            invariant
                i <= self.headers@.len(),
                self.headers@ == old(self).headers@,
                orig == entry_views(self.headers@),
                put_from(orig, name@, value@, 0) == put_from(orig, name@, value@, i as int),
            decreases self.headers@.len() - i,
        {
            assert(orig[i as int] == (self.headers@[i as int].0@, self.headers@[i as int].1@));
            if str_eq_ci(self.headers[i].0.as_str(), name) {
                self.headers.set(i, (name.to_owned(), value.to_owned()));
                proof {
                    assert(final(self).entries() =~= orig.update(
                        i as int,
                        (name@, value@),
                    ));
                }
                return ;
            }
            i += 1;
        }
        self.headers.push((name.to_owned(), value.to_owned()));
        proof {
            assert(final(self).entries() =~= orig.push((name@, value@)));
        }
    }

    /// The value this request carries under `name`, compared
    /// case-insensitively.
    pub fn header(&self, name: &str) -> (r: Option<String>)
        ensures
            match r {
                Some(v) => lookup_header(self.entries(), name@) == Some(v@),
                None => lookup_header(self.entries(), name@) is None,
            },
    {
        find_header(&self.headers, name)
    }

    /// Stores the User-Agent header, replacing any present value.
    pub fn user_agent(&mut self, ua: &str)
        ensures
            final(self).entries() == put_header(old(self).entries(), "User-Agent"@, ua@),
    {
        self.put_entry("User-Agent", ua);
    }

    /// A request that, beside the default User-Agent, announces that only
    /// JSON responses are acceptable.
    pub fn json() -> (r: Self)
        ensures
            r.entries() == seq![
                ("User-Agent"@, default_agent()),
                ("Accept"@, "application/json"@),
            ],
    {
        let mut r = Request::default();
        r.put_entry("Accept", "application/json");
        proof {
            reveal_strlit("User-Agent");
            reveal_strlit("Accept");
            let one = seq![("User-Agent"@, default_agent())];
            assert(!chars_eq_ci(one[0].0, "Accept"@));
            assert(put_from(one, "Accept"@, "application/json"@, 0) == put_from(
                one,
                "Accept"@,
                "application/json"@,
                1,
            ));
            assert(put_from(one, "Accept"@, "application/json"@, 1) == one.push(
                ("Accept"@, "application/json"@),
            ));
            assert(r.entries() =~= seq![
                ("User-Agent"@, default_agent()),
                ("Accept"@, "application/json"@),
            ]);
        }
        r
    }

    /// One GET exchange against `url` with this request's headers.
    pub fn get(&self, url: &str) -> (r: RequestsResult)
        ensures
            r matches Err(e) ==> e is Transport,
            !url_parses(url@) ==> r is Err,
    {
        match transport::send_get(url, self.to_header_set()) {
            Ok(raw) => Ok(Response::from_exchange(raw)),
            Err(e) => Err(RequestsError::Transport(e)),
        }
    }

    /// One POST exchange (empty body) against `url` with this request's
    /// headers.
    pub fn post(&self, url: &str) -> (r: RequestsResult)
        ensures
            r matches Err(e) ==> e is Transport,
            !url_parses(url@) ==> r is Err,
    {
        match transport::send_post(url, self.to_header_set()) {
            Ok(raw) => Ok(Response::from_exchange(raw)),
            Err(e) => Err(RequestsError::Transport(e)),
        }
    }

    /// One PUT exchange (empty body) against `url` with this request's
    /// headers.
    pub fn put(&self, url: &str) -> (r: RequestsResult)
        ensures
            r matches Err(e) ==> e is Transport,
            !url_parses(url@) ==> r is Err,
    {
        match transport::send_put(url, self.to_header_set()) {
            Ok(raw) => Ok(Response::from_exchange(raw)),
            Err(e) => Err(RequestsError::Transport(e)),
        }
    }

    /// One HEAD exchange against `url` with this request's headers.
    pub fn head(&self, url: &str) -> (r: RequestsResult)
        ensures
            r matches Err(e) ==> e is Transport,
            !url_parses(url@) ==> r is Err,
    {
        match transport::send_head(url, self.to_header_set()) {
            Ok(raw) => Ok(Response::from_exchange(raw)),
            Err(e) => Err(RequestsError::Transport(e)),
        }
    }

    /// One DELETE exchange against `url` with this request's headers.
    pub fn delete(&self, url: &str) -> (r: RequestsResult)
        ensures
            r matches Err(e) ==> e is Transport,
            !url_parses(url@) ==> r is Err,
    {
        match transport::send_delete(url, self.to_header_set()) {
            Ok(raw) => Ok(Response::from_exchange(raw)),
            Err(e) => Err(RequestsError::Transport(e)),
        }
    }

    /// Hands every entry to a fresh transport header set, in order: what
    /// goes over the wire holds exactly the fold of this request's entries.
    fn to_header_set(&self) -> (h: hyper::header::Headers)
        ensures
            header_entries(h) == put_all(self.entries()),
    {
        let ghost ev = self.entries();
        let mut h = transport::new_header_set();
        let mut i: usize = 0;
        while i < self.headers.len()
            invariant
                i <= self.headers@.len(),
                ev == entry_views(self.headers@),
                put_all(ev) == put_all_from(header_entries(h), ev, i as int),
            decreases self.headers@.len() - i,
        {
            assert(ev[i as int] == (self.headers@[i as int].0@, self.headers@[i as int].1@));
            transport::set_raw_header(&mut h, &self.headers[i].0, &self.headers[i].1);
            i += 1;
        }
        h
    }
}

/// What the builders hand to the transport.  Folding a default request's
/// single User-Agent entry, or a JSON-mode request's User-Agent and Accept
/// entries, into an empty wire header set reproduces those entries exactly:
/// so by `to_header_set`, every verb call of such a request sends exactly
/// the headers its contract pins.
pub proof fn lemma_wire_headers_of_builders()
    ensures
        put_all(seq![("User-Agent"@, default_agent())]) == seq![
            ("User-Agent"@, default_agent()),
        ],
        put_all(
            seq![("User-Agent"@, default_agent()), ("Accept"@, "application/json"@)],
        ) == seq![("User-Agent"@, default_agent()), ("Accept"@, "application/json"@)],
{
    reveal_strlit("User-Agent");
    reveal_strlit("Accept");
    lemma_put_all_single(("User-Agent"@, default_agent()));
    assert(!chars_eq_ci("User-Agent"@, "Accept"@));
    lemma_put_all_distinct_pair(
        ("User-Agent"@, default_agent()),
        ("Accept"@, "application/json"@),
    );
}

impl Default for Request {
    /// A request carrying exactly the default User-Agent header.
    fn default() -> (r: Self)
        ensures
            r.entries() == seq![("User-Agent"@, default_agent())],
    {
        let mut r = Request::new();
        r.user_agent(default_agent_str());
        proof {
            assert(r.entries() =~= seq![("User-Agent"@, default_agent())]);
        }
        r
    }
}

} // verus!
