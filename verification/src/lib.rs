//! A small convenience layer over an HTTP transport: request builders that
//! carry a fixed `User-Agent` (and, in JSON mode, an `Accept` preference),
//! one function per HTTP verb, and a buffered response object exposing the
//! final URL, status code, reason phrase, headers, raw bytes, UTF-8 text and
//! JSON views.

pub mod headers;
pub mod status;
pub mod errors;
pub mod transport;
pub mod text;
pub mod request;
pub mod response;

pub use errors::RequestsError;
pub use request::Request;
pub use request::RequestsResult;
pub use response::Response;
