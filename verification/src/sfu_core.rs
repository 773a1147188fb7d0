//! The requests and responses exchanged with a forwarding unit.

use vstd::prelude::*;
use webrtc::peer_connection::sdp::session_description::RTCSessionDescription;
use crate::local::error::SfuError;
use crate::local::negotiation::{Command, Negotiation};
use crate::local::session::{PublisherSession, SubscriberSession};

verus! {

/// The role of a session description in an offer/answer exchange.
#[derive(Debug, Clone, Copy, PartialEq, Eq, Structural)]
pub enum SdpType {
    Offer,
    Answer,
}

/// A session description: its role and its SDP text.
#[derive(Debug)]
pub struct SessionDescription {
    pub sdp_type: SdpType,
    pub sdp: String,
}

/// An ICE candidate as it travels over the signalling channel.
#[derive(Debug)]
pub struct IceCandidateInit {
    pub candidate: String,
    pub sdp_mid: Option<String>,
    pub sdp_mline_index: Option<u16>,
    pub username_fragment: Option<String>,
}

/// Why the SDP parser refuses `sdp` as a session description, or `None`
/// where it accepts it.
pub uninterp spec fn sdp_rejection(sdp: Seq<char>) -> Option<Seq<char>>;

/// Runs `RTCSessionDescription::offer` of the `webrtc` crate on `sdp` and
/// keeps the text of its error. The constructor parses the whole
/// description with a deterministic lexer, so what it reports depends on
/// the text alone; the contract gives that report its name and states
/// nothing else about it.
#[verifier::external_body]
fn check_offer(sdp: &str) -> (reason: Option<String>)
    ensures
        reason.deep_view() == sdp_rejection(sdp@),
{
    RTCSessionDescription::offer(sdp.to_string()).err().map(|e| e.to_string())
}

impl SessionDescription {
    /// The offer made of `sdp`, given what the SDP parser said of it: the
    /// parser's complaint stops the offer.
    pub fn checked_offer(sdp: String, rejection: Option<String>) -> (offer: Result<
        SessionDescription,
        String,
    >)
        ensures
            match rejection {
                Some(reason) => offer == Err::<SessionDescription, String>(reason),
                None => offer == Ok::<SessionDescription, String>(
                    SessionDescription { sdp_type: SdpType::Offer, sdp },
                ),
            },
    {
        match rejection {
            Some(reason) => Err(reason),
            None => Ok(SessionDescription { sdp_type: SdpType::Offer, sdp }),
        }
    }

    /// Wraps `sdp` as an offer if the SDP parser accepts it, and returns the
    /// parser's complaint otherwise.
    pub fn offer(sdp: String) -> (offer: Result<SessionDescription, String>)
        ensures
            match sdp_rejection(sdp@) {
                Some(reason) => offer matches Err(e) && e@ == reason,
                None => offer == Ok::<SessionDescription, String>(
                    SessionDescription { sdp_type: SdpType::Offer, sdp },
                ),
            },
    {
        let rejection = check_offer(sdp.as_str());
        SessionDescription::checked_offer(sdp, rejection)
    }

    /// Wraps `sdp` as the answer that the media stack produced.
    pub fn answer(sdp: String) -> (answer: SessionDescription)
        ensures
            answer == (SessionDescription { sdp_type: SdpType::Answer, sdp }),
    {
        SessionDescription { sdp_type: SdpType::Answer, sdp }
    }
}

/// A grabber asks to publish.
#[derive(Debug)]
pub struct PublisherRequest {
    pub publisher_id: String,
    pub session_id: String,
    pub offer: SessionDescription,
    /// Whether the caller wants the local ICE candidates of the new peer
    /// connection.
    pub forward_ice: bool,
}

#[derive(Debug)]
pub struct PublisherResponse {
    pub answer: SessionDescription,
    pub publisher_id: String,
}

#[derive(Debug)]
pub struct PublisherUpdateRequest {
    pub publisher_id: String,
    pub offer: SessionDescription,
}

#[derive(Debug)]
pub struct PublisherUpdateResponse {
    pub answer: SessionDescription,
}

/// A player asks to receive the tracks of one publisher.
#[derive(Debug)]
pub struct SubscriberRequest {
    pub subscriber_id: String,
    pub publisher_id: String,
    pub offer: SessionDescription,
    /// Whether the caller wants the local ICE candidates of the new peer
    /// connection.
    pub forward_ice: bool,
}

#[derive(Debug)]
pub struct SubscriberResponse {
    pub answer: SessionDescription,
}

#[derive(Debug)]
pub struct SubscriberUpdateRequest {
    pub subscriber_id: String,
}

#[derive(Debug)]
pub struct SubscriberUpdateResponse {
    pub success: bool,
}

/// A snapshot of what the forwarding unit is doing. Counters that nothing
/// feeds stay at zero.
#[derive(Debug)]
pub struct SfuMetrics {
    pub instance_id: String,
    pub timestamp_ms: i64,
    pub memory_usage: u64,
    pub memory_total: u64,
    pub go_routines: i32,
    pub uptime_seconds: i64,
    pub publisher_count: i32,
    pub subscriber_count: i32,
    pub track_count: i32,
    pub total_bitrate_bps: i64,
    pub bytes_received: i64,
    pub bytes_sent: i64,
    pub packets_received: i64,
    pub packets_sent: i64,
    pub packets_lost: i64,
    pub rtt_ms: i32,
    pub nack_count: i32,
    pub pli_count: i32,
    pub fir_count: i32,
}

/// What a forwarding unit offers to the signalling layer.
///
/// Admitting a publisher or a subscriber, and renegotiating a publisher,
/// start a negotiation, which `advance` carries on step by step. Every
/// operation that changes the unit leaves it valid.
pub trait Sfu {
    /// Whether the unit's state is valid.
    spec fn valid(&self) -> bool;

    /// The name of this instance.
    fn id(&self) -> (id: &str);

    /// Starts admitting the publisher of `req`.
    fn add_publisher(&self, req: PublisherRequest) -> (started: (Negotiation, Command))
        requires
            self.valid(),
    ;

    /// Starts renegotiating the publisher of `req`.
    fn update_publisher(&self, req: PublisherUpdateRequest) -> (started: (Negotiation, Command))
        requires
            self.valid(),
    ;

    /// Removes a publisher and hands back its session, if it was live.
    fn remove_publisher(&mut self, publisher_id: &str) -> (removed: Result<
        Option<PublisherSession>,
        SfuError,
    >)
        requires
            old(self).valid(),
        ensures
            final(self).valid(),
    ;

    /// Whether an ICE candidate for `publisher_id` has a peer connection to
    /// go to.
    fn add_publisher_ice(&self, publisher_id: &str) -> (target: Result<(), SfuError>)
        requires
            self.valid(),
    ;

    /// Starts admitting the subscriber of `req`.
    fn add_subscriber(&self, req: SubscriberRequest) -> (started: (Negotiation, Command))
        requires
            self.valid(),
    ;

    /// Renegotiates a subscriber.
    fn update_subscriber(&self, req: SubscriberUpdateRequest) -> (updated: Result<
        SubscriberUpdateResponse,
        SfuError,
    >);

    /// Removes a subscriber and hands back its session, if it had one.
    fn remove_subscriber(&mut self, subscriber_id: &str) -> (removed: Result<
        Option<SubscriberSession>,
        SfuError,
    >)
        requires
            old(self).valid(),
        ensures
            final(self).valid(),
    ;

    /// Whether an ICE candidate for `subscriber_id` has a peer connection
    /// to go to.
    fn add_subscriber_ice(&self, subscriber_id: &str) -> (target: Result<(), SfuError>)
        requires
            self.valid(),
    ;

    /// A snapshot of the unit taken at `timestamp_ms`.
    fn get_metrics(&self, timestamp_ms: i64) -> (metrics: Result<SfuMetrics, SfuError>)
        requires
            self.valid(),
    ;

    /// Whether the unit is healthy.
    fn health_check(&self) -> (health: Result<(), SfuError>);

    /// Takes the outcome of the command that `negotiation` waits for and
    /// says what to do next.
    fn advance(&mut self, negotiation: &mut Negotiation, outcome: Result<String, String>) -> (command:
        Command)
        requires
            old(self).valid(),
            old(negotiation).wf(),
        ensures
            final(self).valid(),
            final(negotiation).wf(),
    ;
}

} // verus!
