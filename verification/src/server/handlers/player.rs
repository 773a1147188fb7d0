//! The signalling session of a player.
//!
//! A player is asked for its credential first. Once it has authenticated it
//! is told how to configure its peer connection, and may then subscribe to
//! grabbers by name, hand on ICE candidates and ping.

use vstd::prelude::*;
use crate::sfu_core::Sfu;
use crate::local::error::SfuError;
use crate::local::negotiation::{Command, Flow, Negotiation, Stage};
use crate::local::session::SubscriberSession;
use crate::local::sfu::{subscriber_limit_text, LocalSfu};
use crate::server::error::SignallingError;
use crate::server::handlers::grabber::{is_pong_text, SessionStep};
use crate::server::protocol::{
    IceMessage,
    OfferMessage,
    PcConfigMessage,
    PlayerMessage,
};
use crate::server::state::AppState;
use crate::server::websocket::{queue_error, Envelope, Frame, Incoming, WsSession};
use crate::sfu_core::{
    sdp_rejection,
    IceCandidateInit,
    SdpType,
    SessionDescription,
    SubscriberRequest,
    SubscriberResponse,
};
use crate::text::{join2, same_text, text};

verus! {

/// Seconds that a player has to authenticate.
pub const AUTH_TIMEOUT_SECS: u64 = 10;

/// Where the session of a player stands.
#[derive(Debug, Clone, Copy, PartialEq, Eq, Structural)]
pub enum PlayerPhase {
    /// The player was asked for its credential and has not answered.
    AuthRequested,
    /// The player has authenticated and knows its configuration.
    Initialised,
    /// The session is over.
    Closed,
}

/// The id of the session of a player that connects from `addr`.
pub fn player_session_id(addr: &str) -> (id: String)
    ensures
        id@ == "player-"@ + addr@,
{
    join2("player-", addr)
}

/// Whether `frame` is the bare player message `event`.
pub open spec fn is_player_event(frame: Frame, event: Seq<char>) -> bool {
    frame matches Frame::Json(Envelope::Player(message)) && message.is_bare(event)
}

/// Whether `frame` tells a player that its credential was refused.
pub open spec fn is_auth_failed(frame: Frame) -> bool {
    &&& frame matches Frame::Json(Envelope::Player(message))
    &&& message.event@ == "AUTH_FAILED"@
    &&& message.access_message matches Some(text)
    &&& text@ == "Invalid credentials"@
    &&& message.player_auth is None
    &&& message.init_peer is None
    &&& message.offer is None
    &&& message.ice is None
    &&& message.ping is None
    &&& message.peers_status is None
}

/// Whether `frame` tells a player to set up its peer connection with the
/// ICE servers at `addresses`.
pub open spec fn is_player_init(frame: Frame, addresses: Seq<Seq<char>>) -> bool {
    &&& frame matches Frame::Json(Envelope::Player(message))
    &&& message.event@ == "INIT_PEER"@
    &&& message.init_peer matches Some(init)
    &&& init.pc_config.offers(addresses)
    &&& message.player_auth is None
    &&& message.access_message is None
    &&& message.offer is None
    &&& message.ice is None
    &&& message.ping is None
    &&& message.peers_status is None
}

/// Whether `frame` carries the answer `sdp` for the peer `peer_name` to a
/// player.
pub open spec fn is_player_answer(frame: Frame, sdp: Seq<char>, peer_name: Seq<char>) -> bool {
    &&& frame matches Frame::Json(Envelope::Player(message))
    &&& message.event@ == "ANSWER"@
    &&& message.offer matches Some(answer)
    &&& answer.is_answer(sdp, Some(peer_name))
    &&& message.player_auth is None
    &&& message.access_message is None
    &&& message.init_peer is None
    &&& message.ice is None
    &&& message.ping is None
    &&& message.peers_status is None
}

/// Whether the first frame of a player presents a credential: it is an
/// `AUTH` message with an authentication part. Every credential is
/// accepted.
pub open spec fn presents_credential(first: Incoming<PlayerMessage>) -> bool {
    first matches Incoming::Text(Ok(message)) && message.event@ == "AUTH"@
        && message.player_auth is Some
}

/// Whether `verdict` is what the first frame `first` of a player comes to:
/// text that could not be decoded is malformed, and any other frame
/// authenticates the player exactly if it presents a credential.
pub open spec fn authenticated(
    first: Incoming<PlayerMessage>,
    verdict: Result<bool, SignallingError>,
) -> bool {
    match first {
        Incoming::Text(Err(reason)) => verdict matches Err(
            SignallingError::InvalidMessageFormat(m),
        ) && m@ == reason@,
        _ => verdict == Ok::<bool, SignallingError>(presents_credential(first)),
    }
}

/// Opens the session of a player: asks for its credential.
pub fn handle_player_connection(session: &mut WsSession) -> (opened: Result<
    PlayerPhase,
    SignallingError,
>)
    ensures
        exists|frame: Frame| #[trigger]
            is_player_event(frame, "AUTH_REQUEST"@) && final(session).sent(
                old(session),
                frame,
                match opened {
                    Ok(_) => Ok(()),
                    Err(e) => Err(e),
                },
                queue_error(),
            ),
        opened matches Ok(phase) ==> phase == PlayerPhase::AuthRequested,
{
    let message = PlayerMessage::bare("AUTH_REQUEST");
    let ghost frame = Frame::Json(Envelope::Player(message));
    let sent = session.send_json(Envelope::Player(message));
    assert(is_player_event(frame, "AUTH_REQUEST"@));
    match sent {
        Ok(()) => Ok(PlayerPhase::AuthRequested),
        Err(e) => Err(e),
    }
}

/// Whether the first frame of a player authenticates it.
pub fn authenticate_player(msg: &Incoming<PlayerMessage>, state: &AppState) -> (verdict: Result<
    bool,
    SignallingError,
>)
    ensures
        authenticated(*msg, verdict),
{
    match msg {
        Incoming::Text(Ok(message)) => {
            let accepted = match &message.player_auth {
                Some(auth) => state.config.validate_credentials(auth.credential.as_str()),
                None => false,
            };
            Ok(same_text(message.event.as_str(), "AUTH") && accepted)
        },
        Incoming::Text(Err(reason)) => Err(SignallingError::InvalidMessageFormat(reason.clone())),
        _ => Ok(false),
    }
}

/// Whether `admitted` and the session `after` are what the first frame
/// `first` of a player comes to on the session `before`.
///
/// No frame in time is an authentication failure, the end of the stream is
/// a session error, a read error is a socket error, and text that could not
/// be decoded is malformed; none of them is answered. A frame that presents
/// no credential is answered with `AUTH_FAILED` once and is an
/// authentication failure. A frame that presents a credential is answered
/// with the peer-connection configuration.
pub open spec fn player_admitted(
    first: Incoming<PlayerMessage>,
    addresses: Seq<Seq<char>>,
    before: WsSession,
    after: WsSession,
    admitted: Result<(), SignallingError>,
) -> bool {
    match first {
        Incoming::TimedOut => after == before && (admitted matches Err(
            SignallingError::AuthenticationFailed(m),
        ) && m@ == "Authentication timeout"@),
        Incoming::Ended => after == before && (admitted matches Err(
            SignallingError::SessionError(m),
        ) && m@ == "Connection closed during auth"@),
        Incoming::Failed(reason) => after == before && (admitted matches Err(
            SignallingError::WebSocket(m),
        ) && m@ == "WebSocket error: "@ + reason@),
        Incoming::Text(Err(reason)) => after == before && (admitted matches Err(
            SignallingError::InvalidMessageFormat(m),
        ) && m@ == reason@),
        _ => if presents_credential(first) {
            exists|frame: Frame| #[trigger]
                is_player_init(frame, addresses) && after.sent(
                    &before,
                    frame,
                    admitted,
                    queue_error(),
                )
        } else if before.connected {
            &&& admitted matches Err(SignallingError::AuthenticationFailed(m)) && m@
                == "Invalid credentials"@
            &&& exists|frame: Frame| #[trigger] is_auth_failed(frame) && after.queued(&before, frame)
        } else {
            &&& after == before
            &&& admitted matches Err(SignallingError::WebSocket(m)) && m@ == queue_error()
        },
    }
}

/// Takes the first frame of a player, or the lack of one, and admits the
/// player or ends the session.
pub fn admit_player(session: &mut WsSession, first: Incoming<PlayerMessage>, state: &AppState) -> (admitted:
    Result<(), SignallingError>)
    ensures
        player_admitted(
            first,
            state.config.ice_servers.deep_view(),
            *old(session),
            *final(session),
            admitted,
        ),
{
    match &first {
        Incoming::TimedOut => {
            return Err(SignallingError::AuthenticationFailed(text("Authentication timeout")));
        },
        Incoming::Ended => {
            return Err(SignallingError::SessionError(text("Connection closed during auth")));
        },
        Incoming::Failed(reason) => {
            return Err(SignallingError::WebSocket(join2("WebSocket error: ", reason.as_str())));
        },
        _ => {},
    }
    let accepted = match authenticate_player(&first, state) {
        Ok(accepted) => accepted,
        Err(e) => {
            return Err(e);
        },
    };
    if !accepted {
        let mut message = PlayerMessage::bare("AUTH_FAILED");
        message.access_message = Some(text("Invalid credentials"));
        let ghost frame = Frame::Json(Envelope::Player(message));
        match session.send_json(Envelope::Player(message)) {
            Ok(()) => {
                assert(is_auth_failed(frame));
            },
            Err(e) => {
                return Err(e);
            },
        }
        return Err(SignallingError::AuthenticationFailed(text("Invalid credentials")));
    }
    let mut message = PlayerMessage::bare("INIT_PEER");
    message.init_peer = Some(PcConfigMessage { pc_config: state.get_client_rtc_config() });
    let ghost frame = Frame::Json(Envelope::Player(message));
    let admitted = session.send_json(Envelope::Player(message));
    assert(is_player_init(frame, state.config.ice_servers.deep_view()));
    admitted
}

/// Whether `started` and the session `after` are what an offer with the
/// part `data` comes to for the session `before` on the state `state`.
///
/// A message without an offer or without the name of a peer is malformed,
/// and so is an offer whose SDP the parser refuses. An offer for a peer
/// that is not registered is answered with `OFFER_FAILED`. Any other offer
/// starts the negotiation of a subscriber, named after the session, of the
/// publisher that the registry holds under the peer's name; it fails at
/// once at the cap on the publisher's subscribers, and otherwise when the
/// publisher is not live.
pub open spec fn subscribe_offer_started(
    data: Option<OfferMessage>,
    state: AppState,
    before: WsSession,
    after: WsSession,
    started: Result<(String, Negotiation, Command), SignallingError>,
) -> bool {
    match data {
        None => after == before && (started matches Err(SignallingError::InvalidMessageFormat(m))
            && m@ == "Missing offer data"@),
        Some(data) => match data.peer_name {
            None => after == before && (started matches Err(
                SignallingError::InvalidMessageFormat(m),
            ) && m@ == "Missing peer_name"@),
            Some(target) => if !state.storage@.contains_key(target@) {
                if before.connected {
                    &&& started matches Err(SignallingError::PeerNotFound(m)) && m@ == target@
                    &&& exists|frame: Frame| #[trigger]
                        is_player_event(frame, "OFFER_FAILED"@) && after.queued(&before, frame)
                } else {
                    &&& after == before
                    &&& started matches Err(SignallingError::WebSocket(m)) && m@ == queue_error()
                }
            } else {
                after == before && match sdp_rejection(data.sdp@) {
                    Some(reason) => started matches Err(SignallingError::InvalidMessageFormat(m))
                        && m@ == "Invalid SDP offer: "@ + reason,
                    None => started matches Ok(begun) && subscriber_begun(
                        begun.1,
                        begun.2,
                        state.sfu,
                        before.id@,
                        state.storage@[target@].socket_id,
                        SessionDescription { sdp_type: SdpType::Offer, sdp: data.sdp },
                    ) && begun.0@ == target@,
                }
            },
        },
    }
}

/// Whether `negotiation` and `command` start the subscriber `subscriber` of
/// `publisher` with `offer` on the unit `sfu`.
pub open spec fn subscriber_begun(
    negotiation: Negotiation,
    command: Command,
    sfu: LocalSfu,
    subscriber: Seq<char>,
    publisher: Seq<char>,
    offer: SessionDescription,
) -> bool {
    &&& negotiation.wf()
    &&& negotiation.flow == Flow::AddSubscriber
    &&& negotiation.session_id@ == subscriber
    &&& negotiation.publisher_id@ == publisher
    &&& negotiation.offer == offer
    &&& negotiation.forward_ice
    &&& negotiation.tracks@.len() == 0
    &&& negotiation.attached == 0
    &&& negotiation.session.track_ids().len() == 0
    &&& if sfu.subscriber_count(publisher) >= sfu.config.performance.max_subscribers_per_publisher {
        negotiation.stage == Stage::Finished && (command matches Command::Fail(
            SfuError::Internal(m),
        ) && m@ == subscriber_limit_text(
            publisher,
            sfu.config.performance.max_subscribers_per_publisher,
        ))
    } else if !sfu.has_publisher(publisher) {
        negotiation.stage == Stage::Finished && (command matches Command::Fail(
            SfuError::PublisherNotFound(id),
        ) && id@ == publisher)
    } else {
        negotiation.stage == Stage::PeerConnection && command is CreatePeerConnection
    }
}

/// Starts subscribing to the publisher `publisher_id` for an offer, given
/// what the SDP parser made of the offer's text. An offer that the parser
/// refuses is malformed; any other offer starts the negotiation of a
/// subscriber named after the session.
pub fn checked_subscribe_offer(
    session: &WsSession,
    target_peer: String,
    publisher_id: String,
    offer: Result<SessionDescription, String>,
    state: &AppState,
) -> (started: Result<(String, Negotiation, Command), SignallingError>)
    requires
        state.wf(),
    ensures
        match offer {
            Err(reason) => started matches Err(SignallingError::InvalidMessageFormat(m)) && m@
                == "Invalid SDP offer: "@ + reason@,
            Ok(description) => started matches Ok(begun) && begun.0 == target_peer
                && subscriber_begun(
                begun.1,
                begun.2,
                state.sfu,
                session.id@,
                publisher_id@,
                description,
            ),
        },
{
    match offer {
        Err(reason) => Err(
            SignallingError::InvalidMessageFormat(join2("Invalid SDP offer: ", reason.as_str())),
        ),
        Ok(description) => {
            let req = SubscriberRequest {
                subscriber_id: session.id.clone(),
                publisher_id,
                offer: description,
                forward_ice: true,
            };
            let (negotiation, command) = state.sfu.add_subscriber(req);
            Ok((target_peer, negotiation, command))
        },
    }
}

/// Starts subscribing for the offer of `msg`. See
/// [`subscribe_offer_started`].
pub fn handle_subscribe_offer(session: &mut WsSession, msg: PlayerMessage, state: &AppState) -> (started:
    Result<(String, Negotiation, Command), SignallingError>)
    requires
        state.wf(),
    ensures
        subscribe_offer_started(msg.offer, *state, *old(session), *final(session), started),
{
    let data = match msg.offer {
        Some(data) => data,
        None => {
            return Err(SignallingError::InvalidMessageFormat(text("Missing offer data")));
        },
    };
    let target_peer = match data.peer_name {
        Some(target) => target,
        None => {
            return Err(SignallingError::InvalidMessageFormat(text("Missing peer_name")));
        },
    };
    let peer_status = match state.storage.get_peer_by_name(target_peer.as_str()) {
        Some(status) => status,
        None => {
            let message = PlayerMessage::bare("OFFER_FAILED");
            let ghost frame = Frame::Json(Envelope::Player(message));
            match session.send_json(Envelope::Player(message)) {
                Ok(()) => {
                    assert(is_player_event(frame, "OFFER_FAILED"@));
                },
                Err(e) => {
                    return Err(e);
                },
            }
            return Err(SignallingError::PeerNotFound(target_peer));
        },
    };
    let offer = SessionDescription::offer(data.sdp);
    checked_subscribe_offer(session, target_peer, peer_status.socket_id, offer, state)
}

/// Tells the player how its offer for the peer `target_peer` ended: the
/// answer of the forwarding unit, or that the offer has failed. A failed
/// offer is also the error of the request.
pub fn finish_subscribe_offer(
    session: &mut WsSession,
    target_peer: String,
    result: Result<SubscriberResponse, SfuError>,
) -> (finished: Result<(), SignallingError>)
    ensures
        match result {
            Ok(response) => exists|frame: Frame| #[trigger]
                is_player_answer(frame, response.answer.sdp@, target_peer@) && final(session).sent(old(session), frame, finished, queue_error()),
            Err(e) => if old(session).connected {
                &&& finished == Err::<(), SignallingError>(SignallingError::SfuError(e))
                &&& exists|frame: Frame| #[trigger]
                    is_player_event(frame, "OFFER_FAILED"@) && final(session).queued(
                        old(session),
                        frame,
                    )
            } else {
                &&& *final(session) == *old(session)
                &&& finished matches Err(SignallingError::WebSocket(m)) && m@ == queue_error()
            },
        },
{
    match result {
        Ok(response) => {
            let mut message = PlayerMessage::bare("ANSWER");
            message.offer = Some(
                OfferMessage {
                    type_: text("answer"),
                    sdp: response.answer.sdp,
                    peer_id: None,
                    peer_name: Some(target_peer),
                    stream_type: None,
                },
            );
            let ghost frame = Frame::Json(Envelope::Player(message));
            let finished = session.send_json(Envelope::Player(message));
            assert(is_player_answer(frame, response.answer.sdp@, target_peer@));
            finished
        },
        Err(e) => {
            let message = PlayerMessage::bare("OFFER_FAILED");
            let ghost frame = Frame::Json(Envelope::Player(message));
            match session.send_json(Envelope::Player(message)) {
                Ok(()) => {
                    assert(is_player_event(frame, "OFFER_FAILED"@));
                    Err(SignallingError::SfuError(e))
                },
                Err(refused) => Err(refused),
            }
        },
    }
}

/// Whether `taken` is what the ICE part `ice` of a message from the session
/// `session_id` comes to on the unit `sfu`: a missing part is malformed, a
/// session that does not subscribe has no peer connection, and otherwise
/// the candidate goes to the subscriber's peer connection.
pub open spec fn player_ice_taken(
    ice: Option<IceMessage>,
    session_id: Seq<char>,
    sfu: LocalSfu,
    taken: Result<IceCandidateInit, SignallingError>,
) -> bool {
    match ice {
        None => taken matches Err(SignallingError::InvalidMessageFormat(m)) && m@
            == "Missing ICE data"@,
        Some(ice) => if sfu.has_subscriber(session_id) {
            taken == Ok::<IceCandidateInit, SignallingError>(ice.candidate)
        } else {
            taken matches Err(SignallingError::SfuError(SfuError::SubscriberNotFound(id))) && id@
                == session_id
        },
    }
}

/// Takes an ICE candidate of the player: the candidate to hand to the
/// subscriber's peer connection.
pub fn handle_player_ice(session: &WsSession, msg: PlayerMessage, state: &AppState) -> (taken: Result<
    IceCandidateInit,
    SignallingError,
>)
    requires
        state.wf(),
    ensures
        player_ice_taken(msg.ice, session.id@, state.sfu, taken),
{
    let ice = match msg.ice {
        Some(ice) => ice,
        None => {
            return Err(SignallingError::InvalidMessageFormat(text("Missing ICE data")));
        },
    };
    match state.sfu.add_subscriber_ice(session.id.as_str()) {
        Ok(()) => Ok(ice.candidate),
        Err(e) => Err(SignallingError::SfuError(e)),
    }
}

/// Whether `handled` and the session `after` are what the message `parsed`
/// comes to for the session `before` on the state `state`: text that could
/// not be decoded is malformed, an offer starts a negotiation, an ICE
/// candidate is handed on, a ping is answered with `PONG`, and any other
/// event is passed over.
pub open spec fn player_message_handled(
    parsed: Result<PlayerMessage, String>,
    state: AppState,
    before: WsSession,
    after: WsSession,
    handled: Result<SessionStep, SignallingError>,
) -> bool {
    match parsed {
        Err(reason) => after == before && handled == Err::<SessionStep, SignallingError>(
            SignallingError::InvalidMessageFormat(reason),
        ),
        Ok(msg) => if msg.event@ == "OFFER"@ {
            match handled {
                Ok(SessionStep::Subscribe(target, negotiation, command)) => subscribe_offer_started(
                    msg.offer,
                    state,
                    before,
                    after,
                    Ok((target, negotiation, command)),
                ),
                Err(e) => subscribe_offer_started(msg.offer, state, before, after, Err(e)),
                _ => false,
            }
        } else if msg.event@ == "PLAYER_ICE"@ {
            after == before && match handled {
                Ok(SessionStep::AddIce(candidate)) => player_ice_taken(
                    msg.ice,
                    before.id@,
                    state.sfu,
                    Ok(candidate),
                ),
                Err(e) => player_ice_taken(msg.ice, before.id@, state.sfu, Err(e)),
                _ => false,
            }
        } else if msg.event@ == "PING"@ {
            if before.connected {
                &&& handled matches Ok(SessionStep::Continue)
                &&& exists|frame: Frame| #[trigger]
                    is_player_event(frame, "PONG"@) && after.queued(&before, frame)
            } else {
                &&& after == before
                &&& handled matches Err(SignallingError::WebSocket(m)) && m@ == queue_error()
            }
        } else {
            after == before && handled matches Ok(SessionStep::Continue)
        },
    }
}

/// Handles one text frame of an authenticated player, decoded as `parsed`.
pub fn handle_player_message(
    session: &mut WsSession,
    parsed: Result<PlayerMessage, String>,
    state: &AppState,
) -> (handled: Result<SessionStep, SignallingError>)
    requires
        state.wf(),
    ensures
        player_message_handled(parsed, *state, *old(session), *final(session), handled),
{
    let msg = match parsed {
        Ok(msg) => msg,
        Err(reason) => {
            return Err(SignallingError::InvalidMessageFormat(reason));
        },
    };
    if same_text(msg.event.as_str(), "OFFER") {
        match handle_subscribe_offer(session, msg, state) {
            Ok((target, negotiation, command)) => Ok(
                SessionStep::Subscribe(target, negotiation, command),
            ),
            Err(e) => Err(e),
        }
    } else if same_text(msg.event.as_str(), "PLAYER_ICE") {
        match handle_player_ice(session, msg, state) {
            Ok(candidate) => Ok(SessionStep::AddIce(candidate)),
            Err(e) => Err(e),
        }
    } else if same_text(msg.event.as_str(), "PING") {
        let message = PlayerMessage::bare("PONG");
        let ghost frame = Frame::Json(Envelope::Player(message));
        match session.send_json(Envelope::Player(message)) {
            Ok(()) => {
                assert(is_player_event(frame, "PONG"@));
                Ok(SessionStep::Continue)
            },
            Err(e) => Err(e),
        }
    } else {
        Ok(SessionStep::Continue)
    }
}

/// Whether a session of a player went from `phase` and `before` to `next`
/// and `after`, with the loop going on as `step`, by the frame `frame` on
/// the state `state`.
///
/// The first frame admits the player or ends the session with the error
/// of the admission. After that a text frame is handled as a message, and
/// a message that is refused does not end the session; a ping frame is
/// answered; a close frame, a read error and the end of the stream end the
/// session; anything else is passed over. A session that is over takes
/// nothing and sends nothing.
pub open spec fn player_stepped(
    phase: PlayerPhase,
    next: PlayerPhase,
    frame: Incoming<PlayerMessage>,
    state: AppState,
    before: WsSession,
    after: WsSession,
    step: SessionStep,
) -> bool {
    match phase {
        PlayerPhase::Closed => next == PlayerPhase::Closed && after == before && step is Stop,
        PlayerPhase::AuthRequested => match step {
            SessionStep::Continue => next == PlayerPhase::Initialised && player_admitted(
                frame,
                state.config.ice_servers.deep_view(),
                before,
                after,
                Ok(()),
            ),
            SessionStep::Abort(e) => next == PlayerPhase::Closed && player_admitted(
                frame,
                state.config.ice_servers.deep_view(),
                before,
                after,
                Err(e),
            ),
            _ => false,
        },
        PlayerPhase::Initialised => match frame {
            Incoming::Text(parsed) => next == PlayerPhase::Initialised && match step {
                SessionStep::Rejected(e) => player_message_handled(
                    parsed,
                    state,
                    before,
                    after,
                    Err(e),
                ),
                SessionStep::Abort(_) => false,
                other => player_message_handled(parsed, state, before, after, Ok(other)),
            },
            Incoming::Ping => {
                &&& next == PlayerPhase::Initialised
                &&& step is Continue
                &&& if before.connected {
                    exists|queued: Frame| #[trigger]
                        is_pong_text(queued) && after.queued(&before, queued)
                } else {
                    after == before
                }
            },
            Incoming::Close | Incoming::Failed(_) | Incoming::Ended => {
                &&& next == PlayerPhase::Closed
                &&& step is Stop
                &&& after == before
            },
            Incoming::Other | Incoming::TimedOut => {
                &&& next == PlayerPhase::Initialised
                &&& step is Continue
                &&& after == before
            },
        },
    }
}

/// Takes one frame from the socket of a player, or the lack of one, and
/// says how the loop goes on. See [`player_stepped`].
pub fn on_player_frame(
    phase: &mut PlayerPhase,
    session: &mut WsSession,
    frame: Incoming<PlayerMessage>,
    state: &AppState,
) -> (step: SessionStep)
    requires
        state.wf(),
    ensures
        player_stepped(
            *old(phase),
            *final(phase),
            frame,
            *state,
            *old(session),
            *final(session),
            step,
        ),
{
    match *phase {
        PlayerPhase::Closed => SessionStep::Stop,
        PlayerPhase::AuthRequested => match admit_player(session, frame, state) {
            Ok(()) => {
                *phase = PlayerPhase::Initialised;
                SessionStep::Continue
            },
            Err(e) => {
                *phase = PlayerPhase::Closed;
                SessionStep::Abort(e)
            },
        },
        PlayerPhase::Initialised => match frame {
            Incoming::Text(parsed) => match handle_player_message(session, parsed, state) {
                Ok(step) => {
                    proof {
                        if step is Abort || step is Rejected {
                            assert(false);
                        }
                    }
                    step
                },
                Err(e) => SessionStep::Rejected(e),
            },
            Incoming::Ping => {
                let pong = text("{\"event\":\"PONG\"}");
                let ghost queued = Frame::Text(pong);
                let _ = session.send_text(pong);
                assert(is_pong_text(queued));
                SessionStep::Continue
            },
            Incoming::Close => {
                *phase = PlayerPhase::Closed;
                SessionStep::Stop
            },
            Incoming::Failed(_) => {
                *phase = PlayerPhase::Closed;
                SessionStep::Stop
            },
            Incoming::Ended => {
                *phase = PlayerPhase::Closed;
                SessionStep::Stop
            },
            Incoming::Other => SessionStep::Continue,
            Incoming::TimedOut => SessionStep::Continue,
        },
    }
}

/// A player whose first frame presents no credential is told so once, and
/// its session is over with that: the refusal is the only frame queued,
/// the session is closed, and whatever arrives afterwards is neither
/// handled nor answered.
pub proof fn lemma_auth_failure_closes(
    first: Incoming<PlayerMessage>,
    later: Incoming<PlayerMessage>,
    state: AppState,
    phase1: PlayerPhase,
    phase2: PlayerPhase,
    session0: WsSession,
    session1: WsSession,
    session2: WsSession,
    step1: SessionStep,
    step2: SessionStep,
)
    requires
        session0.connected,
        first is Text || first is Close || first is Ping || first is Other,
        !(first matches Incoming::Text(Err(_))),
        !presents_credential(first),
        player_stepped(PlayerPhase::AuthRequested, phase1, first, state, session0, session1, step1),
        player_stepped(phase1, phase2, later, state, session1, session2, step2),
    ensures
        step1 matches SessionStep::Abort(SignallingError::AuthenticationFailed(_)),
        exists|frame: Frame| #[trigger]
            is_auth_failed(frame) && session1.outbox@ == session0.outbox@.push(frame),
        phase1 == PlayerPhase::Closed,
        phase2 == PlayerPhase::Closed,
        step2 is Stop,
        session2 == session1,
{
    let addresses = state.config.ice_servers.deep_view();
    match step1 {
        SessionStep::Continue => {
            assert(player_admitted(first, addresses, session0, session1, Ok(())));
            assert(false);
        },
        SessionStep::Abort(e) => {
            assert(player_admitted(first, addresses, session0, session1, Err(e)));
            let frame = choose|frame: Frame| #[trigger]
                is_auth_failed(frame) && session1.queued(&session0, frame);
            assert(is_auth_failed(frame) && session1.outbox@ == session0.outbox@.push(frame));
        },
        _ => {
            assert(false);
        },
    }
}

/// The message that carries a local ICE candidate of the subscriber's peer
/// connection to the player.
pub fn player_server_ice(candidate: IceCandidateInit) -> (message: PlayerMessage)
    ensures
        message.event@ == "SERVER_ICE"@,
        message.ice matches Some(part) && part.candidate == candidate && part.peer_id is None,
        message.player_auth is None,
        message.access_message is None,
        message.init_peer is None,
        message.offer is None,
        message.ping is None,
        message.peers_status is None,
{
    let mut message = PlayerMessage::bare("SERVER_ICE");
    message.ice = Some(IceMessage { candidate, peer_id: None });
    message
}

/// Closes the session `session_id` of a player: its subscriber goes, its
/// consumers are detached from the broadcasters they read from, and its
/// session is handed back for the caller to stop.
pub fn player_disconnected(session_id: &str, state: &mut AppState) -> (gone: Option<
    SubscriberSession,
>)
    requires
        old(state).wf(),
    ensures
        final(state).wf(),
        final(state).config == old(state).config,
        final(state).storage == old(state).storage,
        final(state).sfu.subscriber_removed(&old(state).sfu, session_id@, gone),
{
    match state.sfu.remove_subscriber(session_id) {
        Ok(gone) => gone,
        Err(_) => None,
    }
}

} // verus!
