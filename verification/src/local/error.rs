//! Errors surfaced by the forwarding unit.

use vstd::prelude::*;
use crate::text::{join2, text};

verus! {

/// What can go wrong inside the forwarding unit. A failure reported by the
/// media stack is carried as its message.
#[derive(Debug)]
pub enum SfuError {
    PublisherNotFound(String),
    SubscriberNotFound(String),
    TrackNotFound(String),
    PeerConnectionCreation(String),
    SetRemoteDescription(String),
    CreateAnswer(String),
    SetLocalDescription(String),
    AddIceCandidate(String),
    AddTrack(String),
    WebRtc(String),
    BroadcastChannelFull,
    BroadcastChannelClosed,
    Configuration(String),
    Internal(String),
}

pub type Result<T> = std::result::Result<T, SfuError>;

impl SfuError {
    /// The human-readable text of the error.
    pub open spec fn describe(&self) -> Seq<char> {
        match self {
            SfuError::PublisherNotFound(id) => "Publisher not found: "@ + id@,
            SfuError::SubscriberNotFound(id) => "Subscriber not found: "@ + id@,
            SfuError::TrackNotFound(id) => "Track not found: "@ + id@,
            SfuError::PeerConnectionCreation(m) => "Failed to create peer connection: "@ + m@,
            SfuError::SetRemoteDescription(m) => "Failed to set remote description: "@ + m@,
            SfuError::CreateAnswer(m) => "Failed to create answer: "@ + m@,
            SfuError::SetLocalDescription(m) => "Failed to set local description: "@ + m@,
            SfuError::AddIceCandidate(m) => "Failed to add ICE candidate: "@ + m@,
            SfuError::AddTrack(m) => "Failed to add track: "@ + m@,
            SfuError::WebRtc(m) => "WebRTC error: "@ + m@,
            SfuError::BroadcastChannelFull => "Broadcaster channel is full, packet dropped"@,
            SfuError::BroadcastChannelClosed => "Broadcaster channel closed"@,
            SfuError::Configuration(m) => "Configuration error: "@ + m@,
            SfuError::Internal(m) => "Internal error: "@ + m@,
        }
    }

    /// Renders the error as text.
    pub fn message(&self) -> (rendered: String)
        ensures
            rendered@ == self.describe(),
    {
        match self {
            SfuError::PublisherNotFound(id) => join2("Publisher not found: ", id.as_str()),
            SfuError::SubscriberNotFound(id) => join2("Subscriber not found: ", id.as_str()),
            SfuError::TrackNotFound(id) => join2("Track not found: ", id.as_str()),
            SfuError::PeerConnectionCreation(m) => join2(
                "Failed to create peer connection: ",
                m.as_str(),
            ),
            SfuError::SetRemoteDescription(m) => join2(
                "Failed to set remote description: ",
                m.as_str(),
            ),
            SfuError::CreateAnswer(m) => join2("Failed to create answer: ", m.as_str()),
            SfuError::SetLocalDescription(m) => join2(
                "Failed to set local description: ",
                m.as_str(),
            ),
            SfuError::AddIceCandidate(m) => join2("Failed to add ICE candidate: ", m.as_str()),
            SfuError::AddTrack(m) => join2("Failed to add track: ", m.as_str()),
            SfuError::WebRtc(m) => join2("WebRTC error: ", m.as_str()),
            SfuError::BroadcastChannelFull => text("Broadcaster channel is full, packet dropped"),
            SfuError::BroadcastChannelClosed => text("Broadcaster channel closed"),
            SfuError::Configuration(m) => join2("Configuration error: ", m.as_str()),
            SfuError::Internal(m) => join2("Internal error: ", m.as_str()),
        }
    }
}

} // verus!
