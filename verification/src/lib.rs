//! A minimal typed client for a subset of the Twitch Helix REST API and the
//! legacy TMI chatters endpoint.
//!
//! The library holds the pure core: decoding adapters for the wire format's
//! non-uniform field encodings (stringified integers, a timestamp without a
//! real timezone), the typed domain records, the request builder, and the
//! response unwrapper. The HTTP transport itself is left to the caller.

pub mod client;
pub mod digits;
pub mod error;
pub mod json;
pub mod records;
pub mod response;
pub mod timestamp;

pub use client::{Authenication, Client, HttpRequest};
pub use digits::decode_numeric_string_as_uint;
pub use error::{DecodeError, Error, TransportError};
pub use records::{ChattersWire, Stream, StreamWire, User, UserWire, Users};
pub use response::{unwrap_chatters_response, unwrap_streams_response, unwrap_users_response};
pub use timestamp::{decode_assumed_utc_timestamp, Timestamp};
