//! Canonical reason phrases for HTTP status codes.

use vstd::prelude::*;

verus! {

/// The canonical reason phrase registered for a status code, if any.
pub open spec fn canonical_reason(code: u16) -> Option<Seq<char>> {
    if code == 100 { Some("Continue"@) }
    else if code == 101 { Some("Switching Protocols"@) }
    else if code == 102 { Some("Processing"@) }
    else if code == 103 { Some("Early Hints"@) }
    else if code == 200 { Some("OK"@) }
    else if code == 201 { Some("Created"@) }
    else if code == 202 { Some("Accepted"@) }
    else if code == 203 { Some("Non-Authoritative Information"@) }
    else if code == 204 { Some("No Content"@) }
    else if code == 205 { Some("Reset Content"@) }
    else if code == 206 { Some("Partial Content"@) }
    else if code == 207 { Some("Multi-Status"@) }
    else if code == 208 { Some("Already Reported"@) }
    else if code == 226 { Some("IM Used"@) }
    else if code == 300 { Some("Multiple Choices"@) }
    else if code == 301 { Some("Moved Permanently"@) }
    else if code == 302 { Some("Found"@) }
    else if code == 303 { Some("See Other"@) }
    else if code == 304 { Some("Not Modified"@) }
    else if code == 305 { Some("Use Proxy"@) }
    else if code == 307 { Some("Temporary Redirect"@) }
    else if code == 308 { Some("Permanent Redirect"@) }
    else if code == 400 { Some("Bad Request"@) }
    else if code == 401 { Some("Unauthorized"@) }
    else if code == 402 { Some("Payment Required"@) }
    else if code == 403 { Some("Forbidden"@) }
    else if code == 404 { Some("Not Found"@) }
    else if code == 405 { Some("Method Not Allowed"@) }
    else if code == 406 { Some("Not Acceptable"@) }
    else if code == 407 { Some("Proxy Authentication Required"@) }
    else if code == 408 { Some("Request Timeout"@) }
    else if code == 409 { Some("Conflict"@) }
    else if code == 410 { Some("Gone"@) }
    else if code == 411 { Some("Length Required"@) }
    else if code == 412 { Some("Precondition Failed"@) }
    else if code == 413 { Some("Payload Too Large"@) }
    else if code == 414 { Some("URI Too Long"@) }
    else if code == 415 { Some("Unsupported Media Type"@) }
    else if code == 416 { Some("Range Not Satisfiable"@) }
    else if code == 417 { Some("Expectation Failed"@) }
    else if code == 418 { Some("I'm a teapot"@) }
    else if code == 421 { Some("Misdirected Request"@) }
    else if code == 422 { Some("Unprocessable Entity"@) }
    else if code == 423 { Some("Locked"@) }
    else if code == 424 { Some("Failed Dependency"@) }
    else if code == 425 { Some("Too Early"@) }
    else if code == 426 { Some("Upgrade Required"@) }
    else if code == 428 { Some("Precondition Required"@) }
    else if code == 429 { Some("Too Many Requests"@) }
    else if code == 431 { Some("Request Header Fields Too Large"@) }
    else if code == 451 { Some("Unavailable For Legal Reasons"@) }
    else if code == 500 { Some("Internal Server Error"@) }
    else if code == 501 { Some("Not Implemented"@) }
    else if code == 502 { Some("Bad Gateway"@) }
    else if code == 503 { Some("Service Unavailable"@) }
    else if code == 504 { Some("Gateway Timeout"@) }
    else if code == 505 { Some("HTTP Version Not Supported"@) }
    else if code == 506 { Some("Variant Also Negotiates"@) }
    else if code == 507 { Some("Insufficient Storage"@) }
    else if code == 508 { Some("Loop Detected"@) }
    else if code == 510 { Some("Not Extended"@) }
    else if code == 511 { Some("Network Authentication Required"@) }
    else { None }
}

/// The reason phrase reported for a status code: its canonical phrase, or
/// the fixed fallback `UNAVAILABLE` for a code with none.
pub open spec fn reason_text(code: u16) -> Seq<char> {
    match canonical_reason(code) {
        Some(s) => s,
        None => "UNAVAILABLE"@,
    }
}

/// The reason phrase for a status code, as an owned string.
pub fn reason_for(code: u16) -> (r: String)
    ensures
        r@ == reason_text(code),
{
    let s: &str = if code == 100 { "Continue" }
    else if code == 101 { "Switching Protocols" }
    else if code == 102 { "Processing" }
    else if code == 103 { "Early Hints" }
    else if code == 200 { "OK" }
    else if code == 201 { "Created" }
    else if code == 202 { "Accepted" }
    else if code == 203 { "Non-Authoritative Information" }
    else if code == 204 { "No Content" }
    else if code == 205 { "Reset Content" }
    else if code == 206 { "Partial Content" }
    else if code == 207 { "Multi-Status" }
    else if code == 208 { "Already Reported" }
    else if code == 226 { "IM Used" }
    else if code == 300 { "Multiple Choices" }
    else if code == 301 { "Moved Permanently" }
    else if code == 302 { "Found" }
    else if code == 303 { "See Other" }
    else if code == 304 { "Not Modified" }
    else if code == 305 { "Use Proxy" }
    else if code == 307 { "Temporary Redirect" }
    else if code == 308 { "Permanent Redirect" }
    else if code == 400 { "Bad Request" }
    else if code == 401 { "Unauthorized" }
    else if code == 402 { "Payment Required" }
    else if code == 403 { "Forbidden" }
    else if code == 404 { "Not Found" }
    else if code == 405 { "Method Not Allowed" }
    else if code == 406 { "Not Acceptable" }
    else if code == 407 { "Proxy Authentication Required" }
    else if code == 408 { "Request Timeout" }
    else if code == 409 { "Conflict" }
    else if code == 410 { "Gone" }
    else if code == 411 { "Length Required" }
    else if code == 412 { "Precondition Failed" }
    else if code == 413 { "Payload Too Large" }
    else if code == 414 { "URI Too Long" }
    else if code == 415 { "Unsupported Media Type" }
    else if code == 416 { "Range Not Satisfiable" }
    else if code == 417 { "Expectation Failed" }
    else if code == 418 { "I'm a teapot" }
    else if code == 421 { "Misdirected Request" }
    else if code == 422 { "Unprocessable Entity" }
    else if code == 423 { "Locked" }
    else if code == 424 { "Failed Dependency" }
    else if code == 425 { "Too Early" }
    else if code == 426 { "Upgrade Required" }
    else if code == 428 { "Precondition Required" }
    else if code == 429 { "Too Many Requests" }
    else if code == 431 { "Request Header Fields Too Large" }
    else if code == 451 { "Unavailable For Legal Reasons" }
    else if code == 500 { "Internal Server Error" }
    else if code == 501 { "Not Implemented" }
    else if code == 502 { "Bad Gateway" }
    else if code == 503 { "Service Unavailable" }
    else if code == 504 { "Gateway Timeout" }
    else if code == 505 { "HTTP Version Not Supported" }
    else if code == 506 { "Variant Also Negotiates" }
    else if code == 507 { "Insufficient Storage" }
    else if code == 508 { "Loop Detected" }
    else if code == 510 { "Not Extended" }
    else if code == 511 { "Network Authentication Required" }
    else { "UNAVAILABLE" };
    s.to_owned()
}

} // verus!
