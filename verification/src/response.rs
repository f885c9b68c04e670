//! A completed exchange, buffered and normalized: final URL, status,
//! reason phrase, headers, raw bytes, and derived text and JSON views.

use hyper::client::Response as HyperResponse;
use vstd::prelude::*;
use vstd::utf8::{decode_utf8, valid_utf8};
use crate::errors::RequestsError;
use crate::headers::{
    entry_views, find_header, headers_indicate_json, media_type_is_json_exec,
};
use crate::status::{reason_for, reason_text};
use crate::text::{decode_valid_utf8, utf8_is_valid};
use crate::transport;
use crate::transport::{headers_of, status_of, url_of};

verus! {

/// A completed HTTP exchange.  The body is read to completion once, at
/// construction; every view below is derived from the stored fields and
/// is deterministic and side-effect-free.
pub struct Response {
    url: String,
    status: u16,
    headers: Vec<(String, String)>,
    content: Vec<u8>,
}

impl Response {
    /// The final URL, as reported by the transport.
    pub closed spec fn spec_url(&self) -> Seq<char> {
        self.url@
    }

    /// The numeric status code.
    pub closed spec fn spec_status(&self) -> u16 {
        self.status
    }

    /// The response headers, as name/value views.
    pub closed spec fn spec_headers(&self) -> Seq<(Seq<char>, Seq<char>)> {
        entry_views(self.headers@)
    }

    /// The buffered body bytes.
    pub closed spec fn spec_content(&self) -> Seq<u8> {
        self.content@
    }

    /// A response assembled from its raw parts: final URL, status code,
    /// headers and fully read body bytes.
    pub fn new(url: String, status: u16, headers: Vec<(String, String)>, content: Vec<u8>) -> (r:
        Response)
        ensures
            r.spec_url() == url@,
            r.spec_status() == status,
            r.spec_headers() == entry_views(headers@),
            r.spec_content() == content@,
    {
        Response { url, status, headers, content }
    }

    /// Wraps one completed transport exchange: the final URL, status and
    /// headers the exchange reports are stored unchanged, and the body is
    /// read to completion and buffered.  A body that fails to read part
    /// way is stored as empty content rather than reported as an error — a
    /// deliberate, narrow policy this layer keeps.
    pub fn from_exchange(raw: HyperResponse) -> (r: Response)
        ensures
            r.spec_url() == url_of(raw),
            r.spec_status() == status_of(raw),
            r.spec_headers() == headers_of(raw),
    {
        let mut ex = raw;
        let url = transport::response_url(&ex);
        let status = transport::response_status(&ex);
        let header_pairs = transport::response_headers(&ex);
        let content = Self::body_or_empty(transport::response_body(&mut ex));
        Response::new(url, status, header_pairs, content)
    }

    /// The read-failure policy: a body read to completion is stored as it
    /// came, a failed read as empty content — the one place this layer
    /// degrades silently instead of reporting an error.
    fn body_or_empty(read: Option<Vec<u8>>) -> (r: Vec<u8>)
        ensures
            read matches Some(b) ==> r@ == b@,
            read is None ==> r@ == Seq::<u8>::empty(),
    {
        match read {
            Some(b) => b,
            None => Vec::new(),
        }
    }

    /// The final URL string of the exchange.
    pub fn url(&self) -> (r: String)
        ensures
            r@ == self.spec_url(),
    {
        self.url.clone()
    }

    /// The numeric HTTP status of the exchange.
    pub fn status_code(&self) -> (r: u16)
        ensures
            r == self.spec_status(),
    {
        self.status
    }

    /// The canonical reason phrase of the status code, or the fixed
    /// literal `UNAVAILABLE` for a code with none.
    pub fn reason(&self) -> (r: String)
        ensures
            r@ == reason_text(self.spec_status()),
    {
        reason_for(self.status)
    }

    /// Whether the status is exactly 200.
    pub fn ok(&self) -> (r: bool)
        ensures
            r == (self.spec_status() == 200),
    {
        self.status == 200
    }

    /// The raw body bytes.
    pub fn content(&self) -> (r: &Vec<u8>)
        ensures
            r@ == self.spec_content(),
    {
        &self.content
    }

    /// The body decoded as UTF-8 text: present exactly when the bytes are
    /// valid UTF-8, and then the exact decoded string.
    pub fn text(&self) -> (r: Option<String>)
        ensures
            r is Some <==> valid_utf8(self.spec_content()),
            r matches Some(s) ==> s@ == decode_utf8(self.spec_content()),
    {
        if utf8_is_valid(&self.content) {
            Some(decode_valid_utf8(&self.content))
        } else {
            None
        }
    }

    /// Whether the Content-Type header names the media type
    /// `application/json` exactly, parameters such as a charset ignored.
    pub fn is_json(&self) -> (r: bool)
        ensures
            r == headers_indicate_json(self.spec_headers()),
    {
        match find_header(&self.headers, "content-type") {
            Some(v) => media_type_is_json_exec(v.as_str()),
            None => false,
        }
    }

    /// The body as text, but only when the headers announce JSON content:
    /// present exactly when the Content-Type names `application/json` and
    /// the bytes are valid UTF-8.
    pub fn json(&self) -> (r: Option<String>)
        ensures
            r is Some <==> (headers_indicate_json(self.spec_headers()) && valid_utf8(
                self.spec_content(),
            )),
            r matches Some(s) ==> s@ == decode_utf8(self.spec_content()),
    {
        if self.is_json() {
            self.text()
        } else {
            None
        }
    }

    /// The body parsed as JSON into a caller-chosen shape.  The attempt is
    /// independent of `is_json`: mislabelled bodies may still parse, and a
    /// labelled body that is not valid JSON for the shape fails with a
    /// decode error.
    pub fn from_json<T: serde::de::DeserializeOwned>(&self) -> (r: Result<T, RequestsError>)
        ensures
            r matches Err(e) ==> e is Decode,
    {
        match transport::parse_json::<T>(self.content.as_slice()) {
            Ok(t) => Ok(t),
            Err(e) => Err(RequestsError::Decode(e)),
        }
    }
}

} // verus!
