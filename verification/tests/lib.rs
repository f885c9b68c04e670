use std::collections::HashMap;

use requests_rs::{Request, RequestsError, Response};

fn plain_response(status: u16, headers: Vec<(String, String)>, body: &[u8]) -> Response {
    Response::new(
        "http://example.org/thing".to_string(),
        status,
        headers,
        body.to_vec(),
    )
}

fn content_type(value: &str) -> Vec<(String, String)> {
    vec![("Content-Type".to_string(), value.to_string())]
}

#[test]
fn url_and_status_are_kept() {
    let res = plain_response(200, Vec::new(), b"");
    assert_eq!(res.url(), "http://example.org/thing");
    assert_eq!(res.status_code(), 200);
    assert!(res.ok());
}

#[test]
fn ok_is_exactly_200() {
    assert!(plain_response(200, Vec::new(), b"").ok());
    assert!(!plain_response(201, Vec::new(), b"").ok());
    assert!(!plain_response(404, Vec::new(), b"").ok());
    assert!(!plain_response(500, Vec::new(), b"").ok());
}

#[test]
fn reason_canonical_phrases() {
    let cases: Vec<(u16, &str)> = vec![
        (100, "Continue"),
        (101, "Switching Protocols"),
        (102, "Processing"),
        (103, "Early Hints"),
        (200, "OK"),
        (201, "Created"),
        (202, "Accepted"),
        (203, "Non-Authoritative Information"),
        (301, "Moved Permanently"),
        (304, "Not Modified"),
        (400, "Bad Request"),
        (401, "Unauthorized"),
        (402, "Payment Required"),
        (403, "Forbidden"),
        (404, "Not Found"),
        (418, "I'm a teapot"),
        (425, "Too Early"),
        (429, "Too Many Requests"),
        (500, "Internal Server Error"),
        (502, "Bad Gateway"),
        (503, "Service Unavailable"),
        (511, "Network Authentication Required"),
    ];
    for (code, phrase) in cases {
        assert_eq!(plain_response(code, Vec::new(), b"").reason(), phrase);
    }
}

#[test]
fn reason_falls_back_for_unregistered_codes() {
    for code in [0u16, 99, 104, 199, 299, 420, 599, 999] {
        assert_eq!(plain_response(code, Vec::new(), b"").reason(), "UNAVAILABLE");
    }
}

#[test]
fn status_echo_not_found() {
    let res = plain_response(404, Vec::new(), b"not here");
    assert_eq!(res.status_code(), 404);
    assert_eq!(res.reason(), "Not Found");
    assert!(!res.ok());
}

#[test]
fn is_json_exact_media_type() {
    assert!(plain_response(200, content_type("application/json"), b"{}").is_json());
}

#[test]
fn is_json_ignores_parameters_and_case() {
    assert!(plain_response(200, content_type("application/json; charset=utf-8"), b"{}").is_json());
    assert!(plain_response(200, content_type("Application/JSON"), b"{}").is_json());
    assert!(plain_response(200, content_type(" application/json ; v=1"), b"{}").is_json());
    let mixed = vec![("content-TYPE".to_string(), "application/json".to_string())];
    assert!(plain_response(200, mixed, b"{}").is_json());
}

#[test]
fn is_json_rejects_other_media_types() {
    assert!(!plain_response(200, content_type("text/html"), b"{}").is_json());
    assert!(!plain_response(200, content_type("text/plain; charset=utf-8"), b"{}").is_json());
    assert!(!plain_response(200, content_type("application/jsonx"), b"{}").is_json());
    assert!(!plain_response(200, content_type("application/json junk"), b"{}").is_json());
    assert!(!plain_response(200, Vec::new(), b"{}").is_json());
}

#[test]
fn text_decodes_valid_utf8() {
    let res = plain_response(200, Vec::new(), b"hello world");
    assert_eq!(res.text(), Some("hello world".to_string()));
}

#[test]
fn text_decodes_multibyte_utf8() {
    let body = "h\u{e9}llo \u{2603}".as_bytes();
    let res = plain_response(200, Vec::new(), body);
    assert_eq!(res.text(), Some("h\u{e9}llo \u{2603}".to_string()));
}

#[test]
fn text_of_empty_body_is_empty_string() {
    let res = plain_response(204, Vec::new(), b"");
    assert_eq!(res.text(), Some(String::new()));
}

#[test]
fn text_absent_for_invalid_utf8() {
    let res = plain_response(200, Vec::new(), &[0xff, 0xfe, 0x68]);
    assert_eq!(res.text(), None);
    let truncated = plain_response(200, Vec::new(), &[0xe2, 0x98]);
    assert_eq!(truncated.text(), None);
}

#[test]
fn text_decodes_four_byte_scalars() {
    let body = "\u{1f600}\u{10fffd}".as_bytes();
    let res = plain_response(200, Vec::new(), body);
    assert_eq!(res.text(), Some("\u{1f600}\u{10fffd}".to_string()));
}

#[test]
fn text_rejects_overlong_encodings() {
    // 0xC0 0xAF would be an overlong encoding of '/'.
    assert_eq!(plain_response(200, Vec::new(), &[0xc0, 0xaf]).text(), None);
    // 0xE0 0x80 0x80 would be an overlong three-byte encoding.
    assert_eq!(plain_response(200, Vec::new(), &[0xe0, 0x80, 0x80]).text(), None);
}

#[test]
fn text_rejects_surrogates_and_out_of_range() {
    // 0xED 0xA0 0x80 encodes the surrogate U+D800.
    assert_eq!(plain_response(200, Vec::new(), &[0xed, 0xa0, 0x80]).text(), None);
    // 0xF4 0x90 0x80 0x80 encodes a value above U+10FFFF.
    assert_eq!(plain_response(200, Vec::new(), &[0xf4, 0x90, 0x80, 0x80]).text(), None);
}

#[test]
fn first_matching_header_wins() {
    let doubled = vec![
        ("Content-Type".to_string(), "text/html".to_string()),
        ("Content-Type".to_string(), "application/json".to_string()),
    ];
    assert!(!plain_response(200, doubled, b"{}").is_json());
}

#[test]
fn content_returns_raw_bytes() {
    let res = plain_response(200, Vec::new(), &[0xff, 0x00, 0x41]);
    assert_eq!(res.content().as_slice(), &[0xff, 0x00, 0x41]);
}

#[test]
fn json_view_requires_json_header() {
    let labelled = plain_response(200, content_type("application/json"), b"{\"a\":1}");
    assert_eq!(labelled.json(), Some("{\"a\":1}".to_string()));
    let unlabelled = plain_response(200, content_type("text/html"), b"{\"a\":1}");
    assert_eq!(unlabelled.json(), None);
}

#[test]
fn from_json_parses_labelled_body() {
    let res = plain_response(200, content_type("application/json"), b"{\"a\":1}");
    assert!(res.is_json());
    let map: HashMap<String, i64> = res.from_json().unwrap();
    assert_eq!(map.len(), 1);
    assert_eq!(map.get("a"), Some(&1));
}

#[test]
fn from_json_is_independent_of_header() {
    let res = plain_response(200, content_type("text/plain"), b"{\"a\":1,\"b\":2}");
    assert!(!res.is_json());
    let map: HashMap<String, i64> = res.from_json().unwrap();
    assert_eq!(map.get("a"), Some(&1));
    assert_eq!(map.get("b"), Some(&2));
}

#[test]
fn from_json_fails_on_invalid_json() {
    let res = plain_response(200, content_type("application/json"), b"{not json");
    let parsed: Result<HashMap<String, i64>, RequestsError> = res.from_json();
    assert!(matches!(parsed, Err(RequestsError::Decode(_))));
}

#[test]
fn from_json_fails_on_mismatched_shape() {
    let res = plain_response(200, Vec::new(), b"[1,2,3]");
    let parsed: Result<HashMap<String, i64>, RequestsError> = res.from_json();
    assert!(matches!(parsed, Err(RequestsError::Decode(_))));
}

#[test]
fn default_builder_carries_user_agent() {
    let req = Request::default();
    assert_eq!(req.header("User-Agent"), Some("requests-rs/0.1.0".to_string()));
    assert_eq!(req.header("user-agent"), Some("requests-rs/0.1.0".to_string()));
    assert_eq!(req.header("Accept"), None);
}

#[test]
fn json_builder_carries_accept_header() {
    let req = Request::json();
    assert_eq!(req.header("User-Agent"), Some("requests-rs/0.1.0".to_string()));
    assert_eq!(req.header("accept"), Some("application/json".to_string()));
}

#[test]
fn bare_builder_carries_nothing() {
    let req = Request::new();
    assert_eq!(req.header("User-Agent"), None);
}

#[test]
fn malformed_url_fails_before_any_network_activity() {
    let req = Request::default();
    assert!(matches!(req.get("no scheme at all"), Err(RequestsError::Transport(_))));
    assert!(matches!(req.post("no scheme at all"), Err(RequestsError::Transport(_))));
    assert!(matches!(req.put("no scheme at all"), Err(RequestsError::Transport(_))));
    assert!(matches!(req.head("no scheme at all"), Err(RequestsError::Transport(_))));
    assert!(matches!(req.delete("no scheme at all"), Err(RequestsError::Transport(_))));
}

#[test]
fn user_agent_replaces_existing_value() {
    let mut req = Request::default();
    req.user_agent("somebody-else/9.9");
    assert_eq!(req.header("user-agent"), Some("somebody-else/9.9".to_string()));
}
