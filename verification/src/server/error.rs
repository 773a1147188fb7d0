//! Errors of the signalling layer and their HTTP rendering.

use vstd::prelude::*;
use crate::local::error::SfuError;
use crate::text::join2;

verus! {

/// What can go wrong on a signalling channel.
#[derive(Debug)]
pub enum SignallingError {
    WebSocket(String),
    AuthenticationFailed(String),
    Timeout(String),
    InvalidMessageFormat(String),
    SfuError(SfuError),
    PeerNotFound(String),
    SessionError(String),
    Serialization(String),
}

pub type Result<T> = std::result::Result<T, SignallingError>;

/// An error as it is answered over HTTP: the status code and the text of
/// the `error` field of the body.
#[derive(Debug)]
pub struct ErrorResponse {
    pub status: u16,
    pub error: String,
}

impl SignallingError {
    /// The human-readable text of the error.
    pub open spec fn describe(&self) -> Seq<char> {
        match self {
            SignallingError::WebSocket(m) => "WebSocket error: "@ + m@,
            SignallingError::AuthenticationFailed(m) => "Authentication failed: "@ + m@,
            SignallingError::Timeout(m) => "Timeout: "@ + m@,
            SignallingError::InvalidMessageFormat(m) => "Invalid message format: "@ + m@,
            SignallingError::SfuError(e) => "SFU error: "@ + e.describe(),
            SignallingError::PeerNotFound(m) => "Peer not found: "@ + m@,
            SignallingError::SessionError(m) => "Session error: "@ + m@,
            SignallingError::Serialization(m) => "Serialization error: "@ + m@,
        }
    }

    /// The HTTP status that answers the error.
    pub open spec fn status(&self) -> u16 {
        match self {
            SignallingError::AuthenticationFailed(_) => 401,
            SignallingError::PeerNotFound(_) => 404,
            SignallingError::Timeout(_) => 408,
            SignallingError::InvalidMessageFormat(_) => 400,
            _ => 500,
        }
    }

    /// The text of the `error` field that answers the error: the bare
    /// detail for the errors that have a status of their own, the full
    /// text for all others.
    pub open spec fn body(&self) -> Seq<char> {
        match self {
            SignallingError::AuthenticationFailed(m) => m@,
            SignallingError::PeerNotFound(m) => m@,
            SignallingError::Timeout(m) => m@,
            SignallingError::InvalidMessageFormat(m) => m@,
            _ => self.describe(),
        }
    }

    /// Renders the error as text.
    pub fn message(&self) -> (rendered: String)
        ensures
            rendered@ == self.describe(),
    {
        match self {
            SignallingError::WebSocket(m) => join2("WebSocket error: ", m.as_str()),
            SignallingError::AuthenticationFailed(m) => join2(
                "Authentication failed: ",
                m.as_str(),
            ),
            SignallingError::Timeout(m) => join2("Timeout: ", m.as_str()),
            SignallingError::InvalidMessageFormat(m) => join2(
                "Invalid message format: ",
                m.as_str(),
            ),
            SignallingError::SfuError(e) => {
                let inner = e.message();
                join2("SFU error: ", inner.as_str())
            },
            SignallingError::PeerNotFound(m) => join2("Peer not found: ", m.as_str()),
            SignallingError::SessionError(m) => join2("Session error: ", m.as_str()),
            SignallingError::Serialization(m) => join2("Serialization error: ", m.as_str()),
        }
    }

    /// The HTTP answer to the error.
    pub fn into_response(self) -> (response: ErrorResponse)
        ensures
            response.status == self.status(),
            response.error@ == self.body(),
    {
        match self {
            SignallingError::AuthenticationFailed(m) => ErrorResponse { status: 401, error: m },
            SignallingError::PeerNotFound(m) => ErrorResponse { status: 404, error: m },
            SignallingError::Timeout(m) => ErrorResponse { status: 408, error: m },
            SignallingError::InvalidMessageFormat(m) => ErrorResponse { status: 400, error: m },
            other => {
                let error = other.message();
                ErrorResponse { status: 500, error }
            },
        }
    }
}

} // verus!
