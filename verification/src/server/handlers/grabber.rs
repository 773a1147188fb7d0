//! The signalling session of a grabber.
//!
//! A grabber registers under the name in its address, is told how to
//! configure its peer connection, and then publishes: its offers are
//! negotiated with the forwarding unit, its ICE candidates are handed on,
//! and its pings keep its registry entry fresh.

use vstd::prelude::*;
use crate::sfu_core::Sfu;
use crate::local::error::SfuError;
use crate::local::negotiation::{Command, Flow, Negotiation, Stage};
use crate::local::session::PublisherSession;
use crate::local::sfu::{publisher_limit_text, LocalSfu};
use crate::server::error::SignallingError;
use crate::server::protocol::{
    GrabberInitPeerMessage,
    GrabberMessage,
    IceMessage,
    OfferMessage,
    PeerStatusView,
    PingMessage,
};
use crate::server::state::AppState;
use crate::server::storage::{of_other_socket, ping_recorded, registered, without_socket};
use crate::server::websocket::{queue_error, Envelope, Frame, Incoming, WsSession};
use crate::sfu_core::{
    sdp_rejection,
    IceCandidateInit,
    PublisherRequest,
    PublisherResponse,
    SdpType,
    SessionDescription,
};
use crate::text::{join2, same_text, text};

verus! {

/// The ping interval that a grabber is told to keep, in milliseconds.
pub const GRABBER_PING_INTERVAL_MS: u64 = 5000;

/// What the socket loop does after a frame.
#[derive(Debug)]
pub enum SessionStep {
    /// Wait for the next frame.
    Continue,
    /// Leave the loop: the session is over.
    Stop,
    /// The frame was refused for this reason; wait for the next one.
    Rejected(SignallingError),
    /// Leave the loop with this error: the session is over.
    Abort(SignallingError),
    /// Run the negotiation of a publisher from this command to its end and
    /// report how it ended.
    Negotiate(Negotiation, Command),
    /// Run the negotiation of a subscriber of the named peer from this
    /// command to its end and report how it ended.
    Subscribe(String, Negotiation, Command),
    /// Hand the candidate to the peer connection of the session and report
    /// how that went.
    AddIce(IceCandidateInit),
}

/// The id of the session of a grabber that connects from `addr`.
pub fn grabber_session_id(addr: &str) -> (id: String)
    ensures
        id@ == "grabber-"@ + addr@,
{
    join2("grabber-", addr)
}

/// The text that answers a ping frame.
pub open spec fn pong_text() -> Seq<char> {
    "{\"event\":\"PONG\"}"@
}

/// Whether `frame` tells a grabber to set up its peer connection with the
/// ICE servers at `addresses`.
pub open spec fn is_grabber_init(frame: Frame, addresses: Seq<Seq<char>>) -> bool {
    &&& frame matches Frame::Json(Envelope::Grabber(message))
    &&& message.event@ == "INIT_PEER"@
    &&& message.init_peer matches Some(init)
    &&& init.pc_config.offers(addresses)
    &&& init.ping_interval == GRABBER_PING_INTERVAL_MS
    &&& message.offer is None
    &&& message.answer is None
    &&& message.ice is None
    &&& message.ping is None
}

/// Whether `frame` carries the answer `sdp` to a grabber.
pub open spec fn is_grabber_answer(frame: Frame, sdp: Seq<char>) -> bool {
    &&& frame matches Frame::Json(Envelope::Grabber(message))
    &&& message.event@ == "ANSWER"@
    &&& message.answer matches Some(answer)
    &&& answer.is_answer(sdp, None)
    &&& message.init_peer is None
    &&& message.offer is None
    &&& message.ice is None
    &&& message.ping is None
}

/// Whether `frame` tells a grabber that its offer has failed.
pub open spec fn is_grabber_offer_failed(frame: Frame) -> bool {
    frame matches Frame::Json(Envelope::Grabber(message)) && message.is_bare("OFFER_FAILED"@)
}

/// The offer of a grabber message: its `offer` part, or else its `answer`
/// part.
pub open spec fn offer_part(msg: GrabberMessage) -> Option<OfferMessage> {
    match msg.offer {
        Some(offer) => Some(offer),
        None => msg.answer,
    }
}

/// Whether the registry, whose names stand in `order`, went from `before`
/// to `after` by the ping part `ping` of a message from the session
/// `session_id`: a missing count is zero, missing stream types are none,
/// and a message without a ping part changes nothing.
pub open spec fn ping_handled(
    ping: Option<PingMessage>,
    session_id: Seq<char>,
    order: Seq<Seq<char>>,
    before: Map<Seq<char>, PeerStatusView>,
    after: Map<Seq<char>, PeerStatusView>,
) -> bool {
    match ping {
        Some(ping) => ping_recorded(
            order,
            before,
            after,
            session_id,
            match ping.connections_count {
                Some(count) => count,
                None => 0u32,
            },
            match ping.stream_types {
                Some(types) => types.deep_view(),
                None => Seq::empty(),
            },
        ),
        None => after == before,
    }
}

/// Whether `started` is what an offer with the part `data` starts for the
/// session `session_id` on the unit `sfu`: a missing part and a refused SDP
/// are malformed; any other offer starts the negotiation of a publisher
/// named after the session, which fails at once at the cap on publishers.
pub open spec fn publisher_offer_started(
    data: Option<OfferMessage>,
    session_id: Seq<char>,
    sfu: LocalSfu,
    started: Result<(Negotiation, Command), SignallingError>,
) -> bool {
    match data {
        None => started matches Err(SignallingError::InvalidMessageFormat(m)) && m@
            == "Missing offer data"@,
        Some(data) => match sdp_rejection(data.sdp@) {
            Some(reason) => started matches Err(SignallingError::InvalidMessageFormat(m)) && m@
                == "Invalid SDP offer: "@ + reason,
            None => started matches Ok(begun) && {
                &&& begun.0.wf()
                &&& begun.0.flow == Flow::AddPublisher
                &&& begun.0.session_id@ == session_id
                &&& begun.0.publisher_id@ == session_id
                &&& begun.0.offer.sdp_type == SdpType::Offer
                &&& begun.0.offer.sdp == data.sdp
                &&& begun.0.forward_ice
                &&& begun.0.tracks@.len() == 0
                &&& begun.0.attached == 0
                &&& begun.0.session.track_ids().len() == 0
                &&& if sfu.publisher_count() < sfu.config.performance.max_publishers {
                    begun.0.stage == Stage::PeerConnection && begun.1 is CreatePeerConnection
                } else {
                    begun.0.stage == Stage::Finished && (begun.1 matches Command::Fail(
                        SfuError::Internal(m),
                    ) && m@ == publisher_limit_text(sfu.config.performance.max_publishers))
                }
            },
        },
    }
}

/// Whether `taken` is what the ICE part `ice` of a message from the session
/// `session_id` comes to on the unit `sfu`: a missing part is malformed, a
/// session that does not publish has no peer connection, and otherwise the
/// candidate goes to the publisher's peer connection.
pub open spec fn grabber_ice_taken(
    ice: Option<IceMessage>,
    session_id: Seq<char>,
    sfu: LocalSfu,
    taken: Result<IceCandidateInit, SignallingError>,
) -> bool {
    match ice {
        None => taken matches Err(SignallingError::InvalidMessageFormat(m)) && m@
            == "Missing ICE data"@,
        Some(ice) => if sfu.has_publisher(session_id) {
            taken == Ok::<IceCandidateInit, SignallingError>(ice.candidate)
        } else {
            taken matches Err(SignallingError::SfuError(SfuError::PublisherNotFound(id))) && id@
                == session_id
        },
    }
}

/// Opens the session of the grabber `name`: registers it under its name
/// with the session's id, and tells it how to set up its peer connection.
pub fn handle_grabber_connection(session: &mut WsSession, name: String, state: &mut AppState) -> (opened:
    Result<(), SignallingError>)
    requires
        old(state).wf(),
    ensures
        final(state).wf(),
        final(state).sfu == old(state).sfu,
        final(state).config == old(state).config,
        final(state).storage@.contains_key(name@),
        final(state).storage@ == old(state).storage@.insert(
            name@,
            registered(name@, old(session).id@, final(state).storage@[name@].last_ping),
        ),
        final(state).storage.order() == if old(state).storage@.contains_key(name@) {
            old(state).storage.order()
        } else {
            old(state).storage.order().push(name@)
        },
        exists|frame: Frame| #[trigger]
            is_grabber_init(frame, old(state).config.ice_servers.deep_view()) && final(session).sent(old(session), frame, opened, queue_error()),
{
    state.storage.add_peer(name, session.id.clone());
    let mut message = GrabberMessage::bare("INIT_PEER");
    message.init_peer = Some(
        GrabberInitPeerMessage {
            pc_config: state.get_client_rtc_config(),
            ping_interval: GRABBER_PING_INTERVAL_MS,
        },
    );
    let ghost frame = Frame::Json(Envelope::Grabber(message));
    let opened = session.send_json(Envelope::Grabber(message));
    assert(is_grabber_init(frame, old(state).config.ice_servers.deep_view()));
    opened
}

/// Records the ping of a grabber in the registry. A message without a ping
/// part changes nothing.
pub fn handle_ping(session: &WsSession, msg: GrabberMessage, state: &mut AppState) -> (handled: Result<
    (),
    SignallingError,
>)
    requires
        old(state).wf(),
    ensures
        handled is Ok,
        final(state).wf(),
        final(state).sfu == old(state).sfu,
        final(state).config == old(state).config,
        ping_handled(
            msg.ping,
            session.id@,
            old(state).storage.order(),
            old(state).storage@,
            final(state).storage@,
        ),
        final(state).storage.order() == old(state).storage.order(),
{
    if let Some(ping) = msg.ping {
        let connections = match ping.connections_count {
            Some(count) => count,
            None => 0,
        };
        let streams = match ping.stream_types {
            Some(types) => types,
            None => {
                let none: Vec<String> = Vec::new();
                assert(none.deep_view() =~= Seq::<Seq<char>>::empty());
                none
            },
        };
        state.storage.update_ping(session.id.as_str(), connections, streams);
    }
    Ok(())
}

/// Starts publishing for an offer, given what the SDP parser made of the
/// offer's text; `None` stands for a message without an offer. A message
/// without an offer is malformed, and so is an offer that the parser
/// refuses; any other offer starts the negotiation of a publisher named
/// after the session.
pub fn checked_publisher_offer(
    session: &WsSession,
    offer: Option<Result<SessionDescription, String>>,
    state: &AppState,
) -> (started: Result<(Negotiation, Command), SignallingError>)
    requires
        state.wf(),
    ensures
        match offer {
            None => started matches Err(SignallingError::InvalidMessageFormat(m)) && m@
                == "Missing offer data"@,
            Some(Err(reason)) => started matches Err(SignallingError::InvalidMessageFormat(m))
                && m@ == "Invalid SDP offer: "@ + reason@,
            Some(Ok(description)) => started matches Ok(begun) && {
                &&& begun.0.wf()
                &&& begun.0.is_fresh(
                    Flow::AddPublisher,
                    begun.0.session_id,
                    session.id@,
                    description,
                    true,
                )
                &&& begun.0.session_id@ == session.id@
                &&& if state.sfu.publisher_count() < state.sfu.config.performance.max_publishers {
                    begun.0.stage == Stage::PeerConnection && begun.1 is CreatePeerConnection
                } else {
                    begun.0.stage == Stage::Finished && (begun.1 matches Command::Fail(
                        SfuError::Internal(m),
                    ) && m@ == publisher_limit_text(state.sfu.config.performance.max_publishers))
                }
            },
        },
{
    match offer {
        None => Err(SignallingError::InvalidMessageFormat(text("Missing offer data"))),
        Some(Err(reason)) => Err(
            SignallingError::InvalidMessageFormat(join2("Invalid SDP offer: ", reason.as_str())),
        ),
        Some(Ok(description)) => {
            let req = PublisherRequest {
                session_id: session.id.clone(),
                publisher_id: session.id.clone(),
                offer: description,
                forward_ice: true,
            };
            Ok(state.sfu.add_publisher(req))
        },
    }
}

/// Starts publishing for the offer of `msg`: the offer is its `offer` part,
/// or else its `answer` part. A message with neither is malformed, and so
/// is an offer whose SDP the parser refuses; any other offer starts the
/// negotiation of a publisher named after the session.
pub fn handle_publisher_offer(session: &WsSession, msg: GrabberMessage, state: &AppState) -> (started:
    Result<(Negotiation, Command), SignallingError>)
    requires
        state.wf(),
    ensures
        publisher_offer_started(offer_part(msg), session.id@, state.sfu, started),
{
    let data = match msg.offer {
        Some(offer) => Some(offer),
        None => msg.answer,
    };
    let offer = match data {
        Some(data) => Some(SessionDescription::offer(data.sdp)),
        None => None,
    };
    checked_publisher_offer(session, offer, state)
}

/// Tells the grabber how its offer ended: the answer of the forwarding
/// unit, or that the offer has failed. A failed offer is also the error of
/// the request.
pub fn finish_publisher_offer(session: &mut WsSession, result: Result<PublisherResponse, SfuError>) -> (finished:
    Result<(), SignallingError>)
    ensures
        match result {
            Ok(response) => exists|frame: Frame| #[trigger]
                is_grabber_answer(frame, response.answer.sdp@) && final(session).sent(
                    old(session),
                    frame,
                    finished,
                    queue_error(),
                ),
            Err(e) => if old(session).connected {
                &&& finished == Err::<(), SignallingError>(SignallingError::SfuError(e))
                &&& exists|frame: Frame| #[trigger]
                    is_grabber_offer_failed(frame) && final(session).queued(old(session), frame)
            } else {
                &&& *final(session) == *old(session)
                &&& finished matches Err(SignallingError::WebSocket(m)) && m@ == queue_error()
            },
        },
{
    match result {
        Ok(response) => {
            let mut message = GrabberMessage::bare("ANSWER");
            message.answer = Some(
                OfferMessage {
                    type_: text("answer"),
                    sdp: response.answer.sdp,
                    peer_id: None,
                    peer_name: None,
                    stream_type: None,
                },
            );
            let ghost frame = Frame::Json(Envelope::Grabber(message));
            let finished = session.send_json(Envelope::Grabber(message));
            assert(is_grabber_answer(frame, response.answer.sdp@));
            finished
        },
        Err(e) => {
            let message = GrabberMessage::bare("OFFER_FAILED");
            let ghost frame = Frame::Json(Envelope::Grabber(message));
            match session.send_json(Envelope::Grabber(message)) {
                Ok(()) => {
                    assert(is_grabber_offer_failed(frame));
                    Err(SignallingError::SfuError(e))
                },
                Err(refused) => Err(refused),
            }
        },
    }
}

/// Takes an ICE candidate of the grabber: the candidate to hand to the
/// publisher's peer connection. A message without an ICE part is
/// malformed, and a grabber that does not publish has no peer connection.
pub fn handle_grabber_ice(session: &WsSession, msg: GrabberMessage, state: &AppState) -> (taken: Result<
    IceCandidateInit,
    SignallingError,
>)
    requires
        state.wf(),
    ensures
        grabber_ice_taken(msg.ice, session.id@, state.sfu, taken),
{
    let ice = match msg.ice {
        Some(ice) => ice,
        None => {
            return Err(SignallingError::InvalidMessageFormat(text("Missing ICE data")));
        },
    };
    match state.sfu.add_publisher_ice(session.id.as_str()) {
        Ok(()) => Ok(ice.candidate),
        Err(e) => Err(SignallingError::SfuError(e)),
    }
}

/// What handing an ICE candidate to a peer connection comes to, given how
/// the peer connection took it.
pub fn finish_ice(refusal: Option<String>) -> (finished: Result<(), SignallingError>)
    ensures
        match refusal {
            Some(message) => finished == Err::<(), SignallingError>(
                SignallingError::SfuError(SfuError::AddIceCandidate(message)),
            ),
            None => finished is Ok,
        },
{
    match refusal {
        Some(message) => Err(SignallingError::SfuError(SfuError::AddIceCandidate(message))),
        None => Ok(()),
    }
}

/// Whether `event` names an offer of a grabber.
pub open spec fn is_offer_event(event: Seq<char>) -> bool {
    event == "OFFER"@ || event == "OFFER_ANSWER"@
}

/// Whether `handled` and the registry `after` are what the message
/// `parsed` of the session `session_id` comes to on the state `before`:
/// text that could not be decoded is malformed, a ping is recorded, an
/// offer starts a negotiation, an ICE candidate is handed on, and any other
/// event is passed over.
pub open spec fn grabber_message_handled(
    parsed: Result<GrabberMessage, String>,
    session_id: Seq<char>,
    before: AppState,
    after: Map<Seq<char>, PeerStatusView>,
    handled: Result<SessionStep, SignallingError>,
) -> bool {
    match parsed {
        Err(reason) => after == before.storage@ && handled == Err::<
            SessionStep,
            SignallingError,
        >(SignallingError::InvalidMessageFormat(reason)),
        Ok(msg) => if msg.event@ == "PING"@ {
            handled matches Ok(SessionStep::Continue) && ping_handled(
                msg.ping,
                session_id,
                before.storage.order(),
                before.storage@,
                after,
            )
        } else if is_offer_event(msg.event@) {
            after == before.storage@ && match handled {
                Ok(SessionStep::Negotiate(negotiation, command)) => publisher_offer_started(
                    offer_part(msg),
                    session_id,
                    before.sfu,
                    Ok((negotiation, command)),
                ),
                Err(e) => publisher_offer_started(offer_part(msg), session_id, before.sfu, Err(e)),
                _ => false,
            }
        } else if msg.event@ == "GRABBER_ICE"@ {
            after == before.storage@ && match handled {
                Ok(SessionStep::AddIce(candidate)) => grabber_ice_taken(
                    msg.ice,
                    session_id,
                    before.sfu,
                    Ok(candidate),
                ),
                Err(e) => grabber_ice_taken(msg.ice, session_id, before.sfu, Err(e)),
                _ => false,
            }
        } else {
            after == before.storage@ && handled matches Ok(SessionStep::Continue)
        },
    }
}

/// Handles one text frame of a grabber, decoded as `parsed`.
pub fn handle_grabber_message(
    session: &WsSession,
    parsed: Result<GrabberMessage, String>,
    state: &mut AppState,
) -> (handled: Result<SessionStep, SignallingError>)
    requires
        old(state).wf(),
    ensures
        final(state).wf(),
        final(state).sfu == old(state).sfu,
        final(state).config == old(state).config,
        grabber_message_handled(parsed, session.id@, *old(state), final(state).storage@, handled),
{
    let msg = match parsed {
        Ok(msg) => msg,
        Err(reason) => {
            return Err(SignallingError::InvalidMessageFormat(reason));
        },
    };
    if same_text(msg.event.as_str(), "PING") {
        match handle_ping(session, msg, state) {
            Ok(()) => Ok(SessionStep::Continue),
            Err(e) => Err(e),
        }
    } else if same_text(msg.event.as_str(), "OFFER") || same_text(
        msg.event.as_str(),
        "OFFER_ANSWER",
    ) {
        match handle_publisher_offer(session, msg, state) {
            Ok((negotiation, command)) => Ok(SessionStep::Negotiate(negotiation, command)),
            Err(e) => Err(e),
        }
    } else if same_text(msg.event.as_str(), "GRABBER_ICE") {
        match handle_grabber_ice(session, msg, state) {
            Ok(candidate) => Ok(SessionStep::AddIce(candidate)),
            Err(e) => Err(e),
        }
    } else {
        Ok(SessionStep::Continue)
    }
}

/// Whether `frame` is the text that answers a ping frame.
pub open spec fn is_pong_text(frame: Frame) -> bool {
    frame matches Frame::Text(t) && t@ == pong_text()
}

/// Takes one frame from the socket of a grabber and says how the loop goes
/// on. A text frame is handled as a message, and a message that is refused
/// does not end the session. A ping frame is answered. A close frame, a
/// read error and the end of the stream end the session. Anything else is
/// passed over.
pub fn on_grabber_frame(
    session: &mut WsSession,
    frame: Incoming<GrabberMessage>,
    state: &mut AppState,
) -> (step: SessionStep)
    requires
        old(state).wf(),
    ensures
        final(state).wf(),
        final(state).sfu == old(state).sfu,
        final(state).config == old(state).config,
        match frame {
            Incoming::Text(parsed) => *final(session) == *old(session) && match step {
                SessionStep::Rejected(e) => grabber_message_handled(
                    parsed,
                    old(session).id@,
                    *old(state),
                    final(state).storage@,
                    Err(e),
                ),
                SessionStep::Abort(_) => false,
                other => grabber_message_handled(
                    parsed,
                    old(session).id@,
                    *old(state),
                    final(state).storage@,
                    Ok(other),
                ),
            },
            Incoming::Ping => {
                &&& step is Continue
                &&& final(state).storage@ == old(state).storage@
                &&& if old(session).connected {
                    exists|queued: Frame| #[trigger]
                        is_pong_text(queued) && final(session).queued(old(session), queued)
                } else {
                    *final(session) == *old(session)
                }
            },
            Incoming::Close | Incoming::Failed(_) | Incoming::Ended => {
                &&& step is Stop
                &&& *final(session) == *old(session)
                &&& final(state).storage@ == old(state).storage@
            },
            Incoming::Other | Incoming::TimedOut => {
                &&& step is Continue
                &&& *final(session) == *old(session)
                &&& final(state).storage@ == old(state).storage@
            },
        },
{
    match frame {
        Incoming::Text(parsed) => match handle_grabber_message(session, parsed, state) {
            Ok(step) => {
                proof {
                    if step is Abort || step is Rejected {
                        assert(false);
                    }
                }
                step
            },
            Err(e) => SessionStep::Rejected(e),
        },
        Incoming::Ping => {
            let pong = text("{\"event\":\"PONG\"}");
            let ghost queued = Frame::Text(pong);
            let _ = session.send_text(pong);
            assert(is_pong_text(queued));
            SessionStep::Continue
        },
        Incoming::Close => SessionStep::Stop,
        Incoming::Failed(_) => SessionStep::Stop,
        Incoming::Ended => SessionStep::Stop,
        Incoming::Other => SessionStep::Continue,
        Incoming::TimedOut => SessionStep::Continue,
    }
}

/// The message that carries a local ICE candidate of the publisher's peer
/// connection to the grabber.
pub fn grabber_server_ice(candidate: IceCandidateInit) -> (message: GrabberMessage)
    ensures
        message.event@ == "SERVER_ICE"@,
        message.ice matches Some(part) && part.candidate == candidate && part.peer_id is None,
        message.init_peer is None,
        message.offer is None,
        message.answer is None,
        message.ping is None,
{
    let mut message = GrabberMessage::bare("SERVER_ICE");
    message.ice = Some(IceMessage { candidate, peer_id: None });
    message
}

/// Closes the session `session_id` of a grabber: its registry entries go,
/// and so does its publisher, whose session is handed back for the caller
/// to stop.
pub fn grabber_disconnected(session_id: &str, state: &mut AppState) -> (gone: Option<
    PublisherSession,
>)
    requires
        old(state).wf(),
    ensures
        final(state).wf(),
        final(state).config == old(state).config,
        final(state).storage@ == without_socket(old(state).storage@, session_id@),
        final(state).storage.order() == old(state).storage.order().filter(
            of_other_socket(old(state).storage@, session_id@),
        ),
        final(state).sfu.publisher_removed(&old(state).sfu, session_id@, gone),
{
    state.storage.remove_peer_by_socket_id(session_id);
    match state.sfu.remove_publisher(session_id) {
        Ok(gone) => gone,
        Err(_) => None,
    }
}

} // verus!
