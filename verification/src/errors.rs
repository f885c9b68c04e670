//! The errors a request or a decode can surface.

use vstd::prelude::*;

verus! {

/// hyper's error type, so that transport failures can be carried through
/// unchanged.
#[verifier::external_type_specification]
#[verifier::external_body]
pub struct ExHyperError(hyper::Error);

/// serde_json's error type, so that decode failures can be carried through
/// unchanged.
#[verifier::external_type_specification]
#[verifier::external_body]
pub struct ExJsonError(serde_json::Error);

/// What this library's fallible operations fail with.
#[derive(Debug)]
pub enum RequestsError {
    /// The transport reported a failure: a URL that does not parse, name
    /// resolution, connection or protocol trouble, carried through from
    /// hyper unchanged.
    Transport(hyper::Error),
    /// The body could not be decoded as JSON of the requested shape,
    /// carried through from serde_json unchanged.
    Decode(serde_json::Error),
}

} // verus!
