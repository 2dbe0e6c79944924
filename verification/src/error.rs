//! The typed error hierarchy.
//!
//! Every failure of the library is one of these values; no error is swallowed
//! or mapped to a default. Construction-time failures (a credential string
//! that is not a legal header value) are distinguished from per-call
//! failures (transport, status, body decode).

use vstd::prelude::*;

verus! {

/// A field-level decode failure: the offending field name and the raw wire
/// value are retained for diagnosability.
#[derive(Clone, Debug, PartialEq, Eq)]
pub struct DecodeError {
    /// The name of the wire field that failed to decode.
    pub field: String,
    /// The raw wire value that was rejected.
    pub value: String,
}

/// A per-call failure: network trouble, a non-2xx status, or a body that
/// did not decode.
#[derive(Clone, Debug, PartialEq, Eq)]
pub enum TransportError {
    /// The HTTP response carried a non-success status.
    Status { status: u16 },
    /// The transport itself failed; the diagnostic is kept verbatim.
    Network { message: String },
    /// The response body did not decode as the endpoint's envelope.
    Decode { error: DecodeError },
}

/// The library's error type, a closed union with the underlying cause
/// embedded in each variant.
#[derive(Clone, Debug, PartialEq, Eq)]
pub enum Error {
    /// The client id string cannot be encoded as an HTTP header value.
    InvalidClientId { value: String },
    /// The OAuth token string cannot be encoded as an HTTP header value.
    InvalidOAuthToken { value: String },
    /// A request failed in flight or its body did not decode.
    TransportError { error: TransportError },
}

impl Error {
    /// Unwrap to the transport-level cause, when there is one.
    pub fn transport_cause(&self) -> (r: Option<&TransportError>)
        ensures
            match self {
                Error::TransportError { error } => r == Some(error),
                _ => r is None,
            },
    {
        match self {
            Error::TransportError { error } => Some(error),
            _ => None,
        }
    }
}

} // verus!
