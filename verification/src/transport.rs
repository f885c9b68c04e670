//! The trusted boundary: every call into hyper, serde_json and the
//! standard library's UTF-8 decoder stands here, behind a contract that
//! Verus takes on trust.

use std::io::Read;
use hyper::client::Response as HyperResponse;
use vstd::prelude::*;
use crate::headers::{entry_views, put_header};

verus! {

/// hyper's header set, carried opaquely between the builder and the wire.
#[verifier::external_type_specification]
#[verifier::external_body]
pub struct ExHeaders(hyper::header::Headers);

/// hyper's completed exchange, read out through the accessors below.
#[verifier::external_type_specification]
#[verifier::external_body]
pub struct ExClientResponse(HyperResponse);

/// What a transport header set holds: its entries as name/value views, in
/// insertion order.
pub uninterp spec fn header_entries(h: hyper::header::Headers) -> Seq<(Seq<char>, Seq<char>)>;

/// Whether hyper accepts a string as an absolute, well-formed URL.  The
/// verdict is a function of the characters alone.
pub uninterp spec fn url_parses(u: Seq<char>) -> bool;

/// The final URL a completed exchange reports, serialized.
pub uninterp spec fn url_of(r: HyperResponse) -> Seq<char>;

/// The numeric status a completed exchange reports.
pub uninterp spec fn status_of(r: HyperResponse) -> u16;

/// The headers a completed exchange reports, as name/value views in
/// insertion order; each value is its raw header lines decoded lossily as
/// UTF-8 and joined with a comma and space.
pub uninterp spec fn headers_of(r: HyperResponse) -> Seq<(Seq<char>, Seq<char>)>;

/// Relies on hyper's Headers::new: a fresh, empty header set.
#[verifier::external_body]
pub(crate) fn new_header_set() -> (r: hyper::header::Headers)
    ensures
        header_entries(r) == Seq::<(Seq<char>, Seq<char>)>::empty(),
{
    hyper::header::Headers::new()
}

/// Relies on hyper's Headers::set_raw: it stores the value into an
/// insertion-ordered map keyed case-insensitively, replacing the first
/// matching entry (key included) or appending when none matches — the
/// same replace-or-append rule `put_header` states.
#[verifier::external_body]
pub(crate) fn set_raw_header(h: &mut hyper::header::Headers, name: &String, value: &String)
    ensures
        header_entries(*final(h)) == put_header(header_entries(*old(h)), name@, value@),
{
    h.set_raw(name.clone(), vec![value.clone().into_bytes()]);
}

/// Relies on hyper's Client: one blocking GET exchange against `url` with
/// the given headers.  hyper parses the URL first and fails before any
/// network activity when it is malformed; otherwise it performs the round
/// trip and follows redirects before returning.
#[verifier::external_body]
pub(crate) fn send_get(url: &str, h: hyper::header::Headers) -> (r: Result<
    HyperResponse,
    hyper::Error,
>)
    ensures
        !url_parses(url@) ==> r is Err,
{
    hyper::Client::new().get(url).headers(h).send()
}

/// Relies on hyper's Client: one blocking POST exchange with an empty body.
/// A malformed URL fails before any network activity.
#[verifier::external_body]
pub(crate) fn send_post(url: &str, h: hyper::header::Headers) -> (r: Result<
    HyperResponse,
    hyper::Error,
>)
    ensures
        !url_parses(url@) ==> r is Err,
{
    hyper::Client::new().post(url).headers(h).send()
}

/// Relies on hyper's Client: one blocking PUT exchange with an empty body.
/// A malformed URL fails before any network activity.
#[verifier::external_body]
pub(crate) fn send_put(url: &str, h: hyper::header::Headers) -> (r: Result<
    HyperResponse,
    hyper::Error,
>)
    ensures
        !url_parses(url@) ==> r is Err,
{
    hyper::Client::new().put(url).headers(h).send()
}

/// Relies on hyper's Client: one blocking HEAD exchange.
/// A malformed URL fails before any network activity.
#[verifier::external_body]
pub(crate) fn send_head(url: &str, h: hyper::header::Headers) -> (r: Result<
    HyperResponse,
    hyper::Error,
>)
    ensures
        !url_parses(url@) ==> r is Err,
{
    hyper::Client::new().head(url).headers(h).send()
}

/// Relies on hyper's Client: one blocking DELETE exchange.
/// A malformed URL fails before any network activity.
#[verifier::external_body]
pub(crate) fn send_delete(url: &str, h: hyper::header::Headers) -> (r: Result<
    HyperResponse,
    hyper::Error,
>)
    ensures
        !url_parses(url@) ==> r is Err,
{
    hyper::Client::new().delete(url).headers(h).send()
}

/// Relies on hyper: the final URL of the exchange, after any redirects
/// hyper followed — a plain field of the completed exchange, serialized.
#[verifier::external_body]
pub(crate) fn response_url(r: &HyperResponse) -> (res: String)
    ensures
        res@ == url_of(*r),
{
    r.url.as_str().to_owned()
}

/// Relies on hyper's StatusCode::to_u16: the numeric status of the
/// exchange — a plain field of the completed exchange.
#[verifier::external_body]
pub(crate) fn response_status(r: &HyperResponse) -> (res: u16)
    ensures
        res == status_of(*r),
{
    r.status.to_u16()
}

/// Relies on hyper's Headers::iter and Headers::get_raw: the headers of
/// the exchange as name/value pairs, in the insertion order of hyper's
/// ordered map.  Each value is decoded lossily from its raw bytes, lines
/// joined with a comma and space as hyper itself renders them — total
/// even for header values that are not valid UTF-8.
#[verifier::external_body]
pub(crate) fn response_headers(r: &HyperResponse) -> (res: Vec<(String, String)>)
    ensures
        entry_views(res@) == headers_of(*r),
{
    r.headers.iter().map(|h| {
        let lines: Vec<String> = r.headers.get_raw(h.name()).unwrap_or(&[]).iter().map(
            |b| String::from_utf8_lossy(b).into_owned(),
        ).collect();
        (h.name().to_owned(), lines.join(", "))
    }).collect()
}

/// Relies on std's Read::read_to_end on hyper's response: the body read to
/// completion, or nothing if reading fails part way.
#[verifier::external_body]
pub(crate) fn response_body(r: &mut HyperResponse) -> Option<Vec<u8>> {
    let mut buf: Vec<u8> = Vec::new();
    match r.read_to_end(&mut buf) {
        Ok(_) => Some(buf),
        Err(_) => None,
    }
}

/// Relies on serde_json::from_slice: parses the bytes as JSON into the
/// caller's shape.  Which byte sequences succeed is decided by that crate
/// together with the shape's own deserialization rules.
#[verifier::external_body]
pub(crate) fn parse_json<T: serde::de::DeserializeOwned>(bytes: &[u8]) -> Result<
    T,
    serde_json::Error,
> {
    serde_json::from_slice(bytes)
}

} // verus!
