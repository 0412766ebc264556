//! The error taxonomy of the client.

use vstd::prelude::*;
use vstd::string::*;

verus! {

/// The ways an invocation can fail. Structural input errors (`InvalidUrl`,
/// `MalformedPair`) are raised before any request is dispatched; transport
/// and decode errors afterwards.
#[derive(Debug, Clone, PartialEq, Eq)]
pub enum HttpError {
    /// The URL argument does not parse as an absolute URL; carries the
    /// argument.
    InvalidUrl(String),
    /// A body token lacks a usable `key=value` shape; carries the token.
    MalformedPair(String),
    /// A network-level failure; carries a description of the cause.
    TransportError(String),
    /// The response body could not be decoded as text; carries a
    /// description of the cause.
    DecodeError(String),
}

impl HttpError {
    /// The message reported on standard error for this failure.
    pub fn message(&self) -> (r: String)
        ensures
            match *self {
                HttpError::InvalidUrl(s) => r@ == "Invalid URL: "@ + s@,
                HttpError::MalformedPair(s) => r@ == "Failed to parse "@ + s@,
                HttpError::TransportError(s) => r@ == "Transport error: "@ + s@,
                HttpError::DecodeError(s) => r@ == "Decode error: "@ + s@,
            },
    {
        match self {
            HttpError::InvalidUrl(s) => {
                let mut out = String::from_str("Invalid URL: ");
                out.append(s.as_str());
                out
            },
            HttpError::MalformedPair(s) => {
                let mut out = String::from_str("Failed to parse ");
                out.append(s.as_str());
                out
            },
            HttpError::TransportError(s) => {
                let mut out = String::from_str("Transport error: ");
                out.append(s.as_str());
                out
            },
            HttpError::DecodeError(s) => {
                let mut out = String::from_str("Decode error: ");
                out.append(s.as_str());
                out
            },
        }
    }
}

} // verus!
