//! The failures that a request can end in.

use vstd::prelude::*;

verus! {

/// The error that the JSON encoder reports. Nothing is known of its contents.
#[verifier::external_type_specification]
#[verifier::external_body]
pub struct ExEncoderError(serde_json::Error);

/// Why a request did not end in a successful command outcome.
#[derive(Debug)]
pub enum RequestError {
    /// The mapping could not be encoded; nothing was handed to the transport.
    Encoding(serde_json::Error),
    /// The transport failed; the message is the transport's own.
    Transport(String),
    /// The backend declined the request; the message is the backend's own.
    Rejected(String),
}

} // verus!
