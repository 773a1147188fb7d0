//! The messages of the signalling protocol.
//!
//! Every message is an envelope with an `event` name and the parts that the
//! event needs; the parts it does not need are absent.

use vstd::prelude::*;
use crate::sfu_core::IceCandidateInit;
use crate::text::text;

verus! {

#[derive(Debug, Clone)]
pub struct PingMessage {
    pub timestamp: i64,
    pub connections_count: Option<u32>,
    pub stream_types: Option<Vec<String>>,
}

/// The events of the player channel.
#[derive(Debug, Clone, Copy, PartialEq, Eq, Structural)]
pub enum PlayerEvent {
    Auth,
    AuthRequest,
    AuthFailed,
    InitPeer,
    Offer,
    OfferFailed,
    Answer,
    PlayerIce,
    Ping,
    Pong,
    PeerStatus,
}

impl PlayerEvent {
    /// The name of the event on the wire.
    pub open spec fn wire_name(self) -> Seq<char> {
        match self {
            PlayerEvent::Auth => "AUTH"@,
            PlayerEvent::AuthRequest => "AUTH_REQUEST"@,
            PlayerEvent::AuthFailed => "AUTH_FAILED"@,
            PlayerEvent::InitPeer => "INIT_PEER"@,
            PlayerEvent::Offer => "OFFER"@,
            PlayerEvent::OfferFailed => "OFFER_FAILED"@,
            PlayerEvent::Answer => "ANSWER"@,
            PlayerEvent::PlayerIce => "PLAYER_ICE"@,
            PlayerEvent::Ping => "PING"@,
            PlayerEvent::Pong => "PONG"@,
            PlayerEvent::PeerStatus => "PEER_STATUS"@,
        }
    }

    /// The name of the event on the wire.
    pub fn name(self) -> (name: String)
        ensures
            name@ == self.wire_name(),
    {
        match self {
            PlayerEvent::Auth => text("AUTH"),
            PlayerEvent::AuthRequest => text("AUTH_REQUEST"),
            PlayerEvent::AuthFailed => text("AUTH_FAILED"),
            PlayerEvent::InitPeer => text("INIT_PEER"),
            PlayerEvent::Offer => text("OFFER"),
            PlayerEvent::OfferFailed => text("OFFER_FAILED"),
            PlayerEvent::Answer => text("ANSWER"),
            PlayerEvent::PlayerIce => text("PLAYER_ICE"),
            PlayerEvent::Ping => text("PING"),
            PlayerEvent::Pong => text("PONG"),
            PlayerEvent::PeerStatus => text("PEER_STATUS"),
        }
    }
}

/// The envelope of the player channel.
#[derive(Debug)]
pub struct PlayerMessage {
    pub event: String,
    pub player_auth: Option<PlayerAuth>,
    pub access_message: Option<String>,
    pub init_peer: Option<PcConfigMessage>,
    pub offer: Option<OfferMessage>,
    pub ice: Option<IceMessage>,
    pub ping: Option<PingMessage>,
    pub peers_status: Option<Vec<PeerStatus>>,
}

#[derive(Debug)]
pub struct PlayerAuth {
    pub credential: String,
}

#[derive(Debug)]
pub struct OfferMessage {
    pub sdp: String,
    pub type_: String,
    pub peer_id: Option<String>,
    pub peer_name: Option<String>,
    pub stream_type: Option<String>,
}

#[derive(Debug)]
pub struct IceMessage {
    pub candidate: IceCandidateInit,
    pub peer_id: Option<String>,
}

#[derive(Debug, Clone)]
pub struct JsonIceServer {
    pub urls: Vec<String>,
    pub username: Option<String>,
    pub credential: Option<String>,
}

#[derive(Debug, Clone)]
pub struct JsonRtcConfiguration {
    pub ice_servers: Vec<JsonIceServer>,
}

#[derive(Debug)]
pub struct PcConfigMessage {
    pub pc_config: JsonRtcConfiguration,
}

/// The envelope of the grabber channel.
#[derive(Debug)]
pub struct GrabberMessage {
    pub event: String,
    pub init_peer: Option<GrabberInitPeerMessage>,
    pub offer: Option<OfferMessage>,
    pub answer: Option<OfferMessage>,
    pub ice: Option<IceMessage>,
    pub ping: Option<PingMessage>,
}

#[derive(Debug)]
pub struct GrabberInitPeerMessage {
    pub pc_config: JsonRtcConfiguration,
    pub ping_interval: u64,
}

/// What the registry knows of one grabber.
#[derive(Debug, Clone)]
pub struct PeerStatus {
    pub name: String,
    pub socket_id: String,
    pub online: bool,
    pub connections: u32,
    pub stream_types: Vec<String>,
    pub last_ping: i64,
}

/// A peer status as plain sequences.
pub ghost struct PeerStatusView {
    pub name: Seq<char>,
    pub socket_id: Seq<char>,
    pub online: bool,
    pub connections: u32,
    pub stream_types: Seq<Seq<char>>,
    pub last_ping: i64,
}

impl View for PeerStatus {
    type V = PeerStatusView;

    open spec fn view(&self) -> PeerStatusView {
        PeerStatusView {
            name: self.name@,
            socket_id: self.socket_id@,
            online: self.online,
            connections: self.connections,
            stream_types: self.stream_types.deep_view(),
            last_ping: self.last_ping,
        }
    }
}

impl PeerStatus {
    /// A copy of the status.
    pub fn duplicate(&self) -> (copy: PeerStatus)
        ensures
            copy@ == self@,
    {
        let mut stream_types: Vec<String> = Vec::new();
        let mut i: usize = 0;
        while i < self.stream_types.len()
            invariant
                i <= self.stream_types@.len(),
                stream_types@.len() == i,
                forall|j: int| 0 <= j < i ==> stream_types@[j]@ == self.stream_types@[j]@,
            decreases self.stream_types@.len() - i,
        {
            stream_types.push(self.stream_types[i].clone());
            i += 1;
        }
        assert(stream_types.deep_view() =~= self.stream_types.deep_view());
        PeerStatus {
            name: self.name.clone(),
            socket_id: self.socket_id.clone(),
            online: self.online,
            connections: self.connections,
            stream_types,
            last_ping: self.last_ping,
        }
    }
}

impl JsonRtcConfiguration {
    /// Whether the configuration offers exactly the ICE servers at
    /// `addresses`, each as a server of its own without credentials.
    pub open spec fn offers(&self, addresses: Seq<Seq<char>>) -> bool {
        &&& self.ice_servers@.len() == addresses.len()
        &&& forall|i: int|
            0 <= i < addresses.len() ==> {
                &&& (#[trigger] self.ice_servers@[i]).urls.deep_view() == seq![addresses[i]]
                &&& self.ice_servers@[i].username is None
                &&& self.ice_servers@[i].credential is None
            }
    }
}

impl OfferMessage {
    /// Whether this is the answer `sdp`, addressed to `peer_name` where one
    /// is given.
    pub open spec fn is_answer(&self, sdp: Seq<char>, peer_name: Option<Seq<char>>) -> bool {
        &&& self.type_@ == "answer"@
        &&& self.sdp@ == sdp
        &&& self.peer_id is None
        &&& self.peer_name.deep_view() == peer_name
        &&& self.stream_type is None
    }
}

impl PlayerMessage {
    /// Whether the envelope names `event` and carries no part.
    pub open spec fn is_bare(&self, event: Seq<char>) -> bool {
        &&& self.event@ == event
        &&& self.player_auth is None
        &&& self.access_message is None
        &&& self.init_peer is None
        &&& self.offer is None
        &&& self.ice is None
        &&& self.ping is None
        &&& self.peers_status is None
    }

    /// An envelope that names `event` and carries no part.
    pub fn bare(event: &str) -> (message: PlayerMessage)
        ensures
            message.is_bare(event@),
    {
        PlayerMessage {
            event: text(event),
            player_auth: None,
            access_message: None,
            init_peer: None,
            offer: None,
            ice: None,
            ping: None,
            peers_status: None,
        }
    }
}

impl Default for PlayerMessage {
    fn default() -> (message: Self)
        ensures
            message.is_bare(Seq::empty()),
    {
        PlayerMessage {
            event: String::new(),
            player_auth: None,
            access_message: None,
            init_peer: None,
            offer: None,
            ice: None,
            ping: None,
            peers_status: None,
        }
    }
}

impl GrabberMessage {
    /// Whether the envelope names `event` and carries no part.
    pub open spec fn is_bare(&self, event: Seq<char>) -> bool {
        &&& self.event@ == event
        &&& self.init_peer is None
        &&& self.offer is None
        &&& self.answer is None
        &&& self.ice is None
        &&& self.ping is None
    }

    /// An envelope that names `event` and carries no part.
    pub fn bare(event: &str) -> (message: GrabberMessage)
        ensures
            message.is_bare(event@),
    {
        GrabberMessage {
            event: text(event),
            init_peer: None,
            offer: None,
            answer: None,
            ice: None,
            ping: None,
        }
    }
}

impl Default for GrabberMessage {
    fn default() -> (message: Self)
        ensures
            message.is_bare(Seq::empty()),
    {
        GrabberMessage {
            event: String::new(),
            init_peer: None,
            offer: None,
            answer: None,
            ice: None,
            ping: None,
        }
    }
}

} // verus!
