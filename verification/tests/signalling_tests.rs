use grabber_sfu::local::config::create_default_config;
use grabber_sfu::local::error::SfuError;
use grabber_sfu::local::negotiation::{Command, Negotiation, Stage};
use grabber_sfu::local::sfu::LocalSfu;
use grabber_sfu::server::error::SignallingError;
use grabber_sfu::server::handlers::api::{get_peers, health};
use grabber_sfu::server::handlers::grabber::{
    finish_ice, finish_publisher_offer, grabber_disconnected, grabber_server_ice,
    grabber_session_id,
    handle_grabber_connection, handle_grabber_ice, handle_grabber_message, handle_ping,
    handle_publisher_offer, on_grabber_frame, SessionStep, GRABBER_PING_INTERVAL_MS,
};
use grabber_sfu::server::handlers::player::{
    admit_player, authenticate_player, finish_subscribe_offer, handle_player_connection,
    handle_player_ice, handle_player_message, handle_subscribe_offer, on_player_frame,
    player_disconnected, player_server_ice, player_session_id, PlayerPhase, AUTH_TIMEOUT_SECS,
};
use grabber_sfu::server::protocol::{
    GrabberMessage, IceMessage, OfferMessage, PingMessage, PlayerAuth, PlayerEvent, PlayerMessage,
};
use grabber_sfu::server::state::AppState;
use grabber_sfu::server::websocket::{
    keepalive_ping, Envelope, Frame, Incoming, WsSession, KEEPALIVE_INTERVAL_SECS,
};
use grabber_sfu::sfu_core::{IceCandidateInit, SdpType, SessionDescription, Sfu};

const OFFER: &str = "v=0\r\no=- 4596489990601351948 2 IN IP4 127.0.0.1\r\ns=-\r\nt=0 0\r\n";

fn state() -> AppState {
    let config = create_default_config();
    let sfu = LocalSfu::new("local-sfu-1".to_string(), create_default_config()).unwrap();
    AppState::new(sfu, config)
}

fn offer_part(sdp: &str, peer_name: Option<&str>) -> OfferMessage {
    OfferMessage {
        sdp: sdp.to_string(),
        type_: "offer".to_string(),
        peer_id: None,
        peer_name: peer_name.map(|n| n.to_string()),
        stream_type: None,
    }
}

fn candidate() -> IceCandidateInit {
    IceCandidateInit {
        candidate: "candidate:1 1 UDP 1 127.0.0.1 9 typ host".to_string(),
        sdp_mid: Some("0".to_string()),
        sdp_mline_index: Some(0),
        username_fragment: None,
    }
}

fn run(sfu: &mut LocalSfu, negotiation: &mut Negotiation, first: Command) -> Command {
    let mut command = first;
    loop {
        let outcome = match command {
            Command::Complete | Command::Fail(_) => return command,
            Command::CreateAnswer => Ok("answer-sdp".to_string()),
            _ => Ok(String::new()),
        };
        command = sfu.advance(negotiation, outcome);
    }
}

fn grabber_events(session: &WsSession) -> Vec<String> {
    session
        .outbox
        .iter()
        .map(|frame| match frame {
            Frame::Json(Envelope::Grabber(m)) => m.event.clone(),
            Frame::Json(Envelope::Player(m)) => m.event.clone(),
            Frame::Text(t) => t.clone(),
            Frame::Close => "<close>".to_string(),
        })
        .collect()
}

fn publish_alice(state: &mut AppState) -> WsSession {
    let mut session = WsSession::new(grabber_session_id("10.0.0.1:5000"));
    handle_grabber_connection(&mut session, "alice".to_string(), state).unwrap();
    let mut msg = GrabberMessage::bare("OFFER");
    msg.offer = Some(offer_part(OFFER, None));
    match handle_grabber_message(&session, Ok(msg), state).unwrap() {
        SessionStep::Negotiate(mut negotiation, command) => {
            let end = run(&mut state.sfu, &mut negotiation, command);
            assert!(matches!(end, Command::Complete));
            finish_publisher_offer(&mut session, Ok(negotiation.publisher_response())).unwrap();
        }
        other => panic!("unexpected {:?}", other),
    }
    session
}

fn admitted_player(state: &AppState, addr: &str) -> (WsSession, PlayerPhase) {
    let mut session = WsSession::new(player_session_id(addr));
    let mut phase = handle_player_connection(&mut session).unwrap();
    let mut auth = PlayerMessage::bare("AUTH");
    auth.player_auth = Some(PlayerAuth { credential: "test".to_string() });
    let step = on_player_frame(&mut phase, &mut session, Incoming::Text(Ok(auth)), state);
    assert!(matches!(step, SessionStep::Continue));
    assert_eq!(phase, PlayerPhase::Initialised);
    (session, phase)
}

#[test]
fn session_ids_name_the_address() {
    assert_eq!(grabber_session_id("10.0.0.1:5000"), "grabber-10.0.0.1:5000");
    assert_eq!(player_session_id("[::1]:80"), "player-[::1]:80");
    assert_eq!(GRABBER_PING_INTERVAL_MS, 5000);
    assert_eq!(AUTH_TIMEOUT_SECS, 10);
    assert_eq!(KEEPALIVE_INTERVAL_SECS, 30);
}

#[test]
fn event_names() {
    assert_eq!(PlayerEvent::Auth.name(), "AUTH");
    assert_eq!(PlayerEvent::AuthRequest.name(), "AUTH_REQUEST");
    assert_eq!(PlayerEvent::AuthFailed.name(), "AUTH_FAILED");
    assert_eq!(PlayerEvent::InitPeer.name(), "INIT_PEER");
    assert_eq!(PlayerEvent::Offer.name(), "OFFER");
    assert_eq!(PlayerEvent::OfferFailed.name(), "OFFER_FAILED");
    assert_eq!(PlayerEvent::Answer.name(), "ANSWER");
    assert_eq!(PlayerEvent::PlayerIce.name(), "PLAYER_ICE");
    assert_eq!(PlayerEvent::Ping.name(), "PING");
    assert_eq!(PlayerEvent::Pong.name(), "PONG");
    assert_eq!(PlayerEvent::PeerStatus.name(), "PEER_STATUS");
    assert_eq!(PlayerMessage::default().event, "");
    assert_eq!(GrabberMessage::default().event, "");
}

#[test]
fn queue_takes_frames_while_its_writer_lives() {
    let mut session = WsSession::new("s".to_string());
    assert!(session.connected);
    session.send_json(Envelope::Player(PlayerMessage::bare("PONG"))).unwrap();
    session.send_text("hello".to_string()).unwrap();
    session.close().unwrap();
    assert_eq!(grabber_events(&session), vec!["PONG", "hello", "<close>"]);
    let drained = session.drain();
    assert_eq!(drained.len(), 3);
    assert!(session.outbox.is_empty());
    session.writer_stopped();
    match session.send_text("late".to_string()) {
        Err(SignallingError::WebSocket(m)) => {
            assert_eq!(m, "Failed to queue message: channel closed")
        }
        other => panic!("unexpected {:?}", other),
    }
    match session.send_json(Envelope::Player(PlayerMessage::bare("PONG"))) {
        Err(SignallingError::WebSocket(m)) => {
            assert_eq!(m, "Failed to queue message: channel closed")
        }
        other => panic!("unexpected {:?}", other),
    }
    match session.close() {
        Err(SignallingError::WebSocket(m)) => assert_eq!(m, "Failed to send close: channel closed"),
        other => panic!("unexpected {:?}", other),
    }
    assert!(session.outbox.is_empty());
}

#[test]
fn keepalive_is_a_ping_with_the_time() {
    let ping = keepalive_ping(1700000000);
    assert_eq!(ping.event, "PING");
    let part = ping.ping.unwrap();
    assert_eq!(part.timestamp, 1700000000);
    assert!(part.connections_count.is_none());
    assert!(part.stream_types.is_none());
    assert!(ping.offer.is_none());
}

#[test]
fn client_configuration_lists_every_ice_server() {
    let state = state();
    let rtc = state.get_client_rtc_config();
    assert_eq!(rtc.ice_servers.len(), 1);
    assert_eq!(rtc.ice_servers[0].urls, vec!["stun:stun.l.google.com:19302".to_string()]);
    assert!(rtc.ice_servers[0].username.is_none());
    assert!(rtc.ice_servers[0].credential.is_none());
}

#[test]
fn grabber_connects_and_publishes() {
    let mut state = state();
    let session = publish_alice(&mut state);
    assert_eq!(grabber_events(&session), vec!["INIT_PEER", "ANSWER"]);
    match &session.outbox[0] {
        Frame::Json(Envelope::Grabber(init)) => {
            let part = init.init_peer.as_ref().unwrap();
            assert_eq!(part.ping_interval, 5000);
            assert_eq!(
                part.pc_config.ice_servers[0].urls,
                vec!["stun:stun.l.google.com:19302".to_string()]
            );
        }
        other => panic!("unexpected {:?}", other),
    }
    match &session.outbox[1] {
        Frame::Json(Envelope::Grabber(answer)) => {
            let part = answer.answer.as_ref().unwrap();
            assert_eq!(part.type_, "answer");
            assert_eq!(part.sdp, "answer-sdp");
            assert!(part.peer_name.is_none());
            assert!(answer.offer.is_none());
        }
        other => panic!("unexpected {:?}", other),
    }
    let peers = get_peers(&state).peers;
    assert_eq!(peers.len(), 1);
    assert_eq!(peers[0].name, "alice");
    assert_eq!(peers[0].socket_id, "grabber-10.0.0.1:5000");
    assert!(peers[0].online);
    assert!(state.sfu.publishers.get("grabber-10.0.0.1:5000").is_some());
    let report = health(&state);
    assert_eq!(report.status, "ok");
    assert_eq!(report.sfu_id, "local-sfu-1");
    assert_eq!(report.publishers, 1);
    assert_eq!(report.subscribers, 0);
}

#[test]
fn offer_answer_is_an_offer_too() {
    let state = state();
    let session = WsSession::new("grabber-a".to_string());
    let mut msg = GrabberMessage::bare("OFFER_ANSWER");
    msg.answer = Some(offer_part(OFFER, None));
    let (negotiation, command) = handle_publisher_offer(&session, msg, &state).unwrap();
    assert!(matches!(command, Command::CreatePeerConnection));
    assert_eq!(negotiation.session_id, "grabber-a");
    assert_eq!(negotiation.publisher_id, "grabber-a");
    assert_eq!(negotiation.offer.sdp, OFFER);
    assert_eq!(negotiation.offer.sdp_type, SdpType::Offer);
    assert!(negotiation.forward_ice);

    let mut both = GrabberMessage::bare("OFFER");
    both.offer = Some(offer_part(OFFER, None));
    both.answer = Some(offer_part("ignored", None));
    let (negotiation, _) = handle_publisher_offer(&session, both, &state).unwrap();
    assert_eq!(negotiation.offer.sdp, OFFER);
}

#[test]
fn malformed_grabber_messages() {
    let mut state = state();
    let session = WsSession::new("grabber-a".to_string());
    match handle_grabber_message(&session, Err("expected value".to_string()), &mut state) {
        Err(SignallingError::InvalidMessageFormat(m)) => assert_eq!(m, "expected value"),
        other => panic!("unexpected {:?}", other),
    }
    match handle_grabber_message(&session, Ok(GrabberMessage::bare("OFFER")), &mut state) {
        Err(SignallingError::InvalidMessageFormat(m)) => assert_eq!(m, "Missing offer data"),
        other => panic!("unexpected {:?}", other),
    }
    let mut bad = GrabberMessage::bare("OFFER");
    bad.offer = Some(offer_part("garbage", None));
    match handle_grabber_message(&session, Ok(bad), &mut state) {
        Err(SignallingError::InvalidMessageFormat(m)) => {
            assert!(m.starts_with("Invalid SDP offer: "));
            assert!(m.len() > "Invalid SDP offer: ".len());
        }
        other => panic!("unexpected {:?}", other),
    }
    match handle_grabber_message(&session, Ok(GrabberMessage::bare("GRABBER_ICE")), &mut state) {
        Err(SignallingError::InvalidMessageFormat(m)) => assert_eq!(m, "Missing ICE data"),
        other => panic!("unexpected {:?}", other),
    }
    assert!(matches!(
        handle_grabber_message(&session, Ok(GrabberMessage::bare("DANCE")), &mut state),
        Ok(SessionStep::Continue)
    ));
    assert!(matches!(
        handle_grabber_message(&session, Ok(GrabberMessage::bare("PING")), &mut state),
        Ok(SessionStep::Continue)
    ));
}

#[test]
fn grabber_ping_refreshes_the_registry() {
    let mut state = state();
    let mut session = WsSession::new("grabber-a".to_string());
    handle_grabber_connection(&mut session, "alice".to_string(), &mut state).unwrap();
    let mut msg = GrabberMessage::bare("PING");
    msg.ping = Some(PingMessage {
        timestamp: 1,
        connections_count: Some(4),
        stream_types: Some(vec!["webcam".to_string()]),
    });
    handle_ping(&session, msg, &mut state).unwrap();
    let alice = state.storage.get_peer_by_name("alice").unwrap();
    assert_eq!(alice.connections, 4);
    assert_eq!(alice.stream_types, vec!["webcam".to_string()]);
    let mut msg = GrabberMessage::bare("PING");
    msg.ping = Some(PingMessage { timestamp: 2, connections_count: None, stream_types: None });
    assert!(matches!(
        handle_grabber_message(&session, Ok(msg), &mut state),
        Ok(SessionStep::Continue)
    ));
    let alice = state.storage.get_peer_by_name("alice").unwrap();
    assert_eq!(alice.connections, 0);
    assert!(alice.stream_types.is_empty());
}

#[test]
fn failed_publisher_offer_is_reported() {
    let mut session = WsSession::new("grabber-a".to_string());
    let failure = SfuError::CreateAnswer("no codecs".to_string());
    match finish_publisher_offer(&mut session, Err(failure)) {
        Err(SignallingError::SfuError(SfuError::CreateAnswer(m))) => assert_eq!(m, "no codecs"),
        other => panic!("unexpected {:?}", other),
    }
    assert_eq!(grabber_events(&session), vec!["OFFER_FAILED"]);
    session.writer_stopped();
    match finish_publisher_offer(&mut session, Err(SfuError::BroadcastChannelClosed)) {
        Err(SignallingError::WebSocket(_)) => {}
        other => panic!("unexpected {:?}", other),
    }
    assert_eq!(session.outbox.len(), 1);
}

#[test]
fn grabber_ice_needs_a_publisher() {
    let mut state = state();
    let lonely = WsSession::new("grabber-z".to_string());
    let mut msg = GrabberMessage::bare("GRABBER_ICE");
    msg.ice = Some(IceMessage { candidate: candidate(), peer_id: None });
    match handle_grabber_ice(&lonely, msg, &state) {
        Err(SignallingError::SfuError(SfuError::PublisherNotFound(id))) => {
            assert_eq!(id, "grabber-z")
        }
        other => panic!("unexpected {:?}", other),
    }
    let session = publish_alice(&mut state);
    let mut msg = GrabberMessage::bare("GRABBER_ICE");
    msg.ice = Some(IceMessage { candidate: candidate(), peer_id: None });
    match handle_grabber_message(&session, Ok(msg), &mut state).unwrap() {
        SessionStep::AddIce(c) => {
            assert_eq!(c.candidate, "candidate:1 1 UDP 1 127.0.0.1 9 typ host");
            assert_eq!(c.sdp_mid.as_deref(), Some("0"));
            assert_eq!(c.sdp_mline_index, Some(0));
        }
        other => panic!("unexpected {:?}", other),
    }
    assert!(finish_ice(None).is_ok());
    match finish_ice(Some("refused".to_string())) {
        Err(SignallingError::SfuError(SfuError::AddIceCandidate(m))) => assert_eq!(m, "refused"),
        other => panic!("unexpected {:?}", other),
    }
}

#[test]
fn grabber_frames() {
    let mut state = state();
    let mut session = WsSession::new("grabber-a".to_string());
    assert!(matches!(
        on_grabber_frame(&mut session, Incoming::Ping, &mut state),
        SessionStep::Continue
    ));
    assert_eq!(grabber_events(&session), vec!["{\"event\":\"PONG\"}"]);
    assert!(matches!(
        on_grabber_frame(&mut session, Incoming::Other, &mut state),
        SessionStep::Continue
    ));
    assert!(matches!(
        on_grabber_frame(&mut session, Incoming::Text(Err("bad json".to_string())), &mut state),
        SessionStep::Rejected(SignallingError::InvalidMessageFormat(_))
    ));
    assert!(matches!(
        on_grabber_frame(&mut session, Incoming::Close, &mut state),
        SessionStep::Stop
    ));
    assert!(matches!(
        on_grabber_frame(&mut session, Incoming::Failed("reset".to_string()), &mut state),
        SessionStep::Stop
    ));
    assert!(matches!(
        on_grabber_frame(&mut session, Incoming::Ended, &mut state),
        SessionStep::Stop
    ));
    assert_eq!(session.outbox.len(), 1);
}

#[test]
fn grabber_that_leaves_is_forgotten() {
    let mut state = state();
    let session = publish_alice(&mut state);
    let gone = grabber_disconnected(&session.id, &mut state);
    assert!(gone.is_some());
    assert!(get_peers(&state).peers.is_empty());
    assert!(state.storage.get_peer_by_name("alice").is_none());
    assert!(state.sfu.publishers.get(&session.id).is_none());
    assert!(grabber_disconnected(&session.id, &mut state).is_none());

    let (mut player, _) = admitted_player(&state, "10.0.0.2:6000");
    let mut msg = PlayerMessage::bare("OFFER");
    msg.offer = Some(offer_part(OFFER, Some("alice")));
    match handle_player_message(&mut player, Ok(msg), &state) {
        Err(SignallingError::PeerNotFound(name)) => assert_eq!(name, "alice"),
        other => panic!("unexpected {:?}", other),
    }
    assert_eq!(grabber_events(&player), vec!["AUTH_REQUEST", "INIT_PEER", "OFFER_FAILED"]);
}

#[test]
fn two_players_subscribe_to_alice() {
    let mut state = state();
    publish_alice(&mut state);
    for addr in ["10.0.0.2:6000", "10.0.0.3:6000"] {
        let (mut session, mut phase) = admitted_player(&state, addr);
        let mut msg = PlayerMessage::bare("OFFER");
        msg.offer = Some(offer_part(OFFER, Some("alice")));
        let step = on_player_frame(&mut phase, &mut session, Incoming::Text(Ok(msg)), &state);
        match step {
            SessionStep::Subscribe(target, mut negotiation, command) => {
                assert_eq!(target, "alice");
                assert_eq!(negotiation.session_id, format!("player-{}", addr));
                assert_eq!(negotiation.publisher_id, "grabber-10.0.0.1:5000");
                let end = run(&mut state.sfu, &mut negotiation, command);
                assert!(matches!(end, Command::Complete));
                finish_subscribe_offer(&mut session, target, Ok(negotiation.subscriber_response()))
                    .unwrap();
            }
            other => panic!("unexpected {:?}", other),
        }
        assert_eq!(grabber_events(&session), vec!["AUTH_REQUEST", "INIT_PEER", "ANSWER"]);
        match &session.outbox[2] {
            Frame::Json(Envelope::Player(answer)) => {
                let part = answer.offer.as_ref().unwrap();
                assert_eq!(part.type_, "answer");
                assert_eq!(part.sdp, "answer-sdp");
                assert_eq!(part.peer_name.as_deref(), Some("alice"));
            }
            other => panic!("unexpected {:?}", other),
        }
    }
    assert_eq!(state.sfu.subscribers.len(), 2);
    assert_eq!(state.sfu.count_subscribers("grabber-10.0.0.1:5000"), 2);
    assert!(player_disconnected("player-10.0.0.2:6000", &mut state).is_some());
    assert!(player_disconnected("player-10.0.0.2:6000", &mut state).is_none());
    assert_eq!(state.sfu.subscribers.len(), 1);
}

#[test]
fn ice_before_the_offer_is_dropped() {
    let mut state = state();
    publish_alice(&mut state);
    let (mut session, mut phase) = admitted_player(&state, "10.0.0.2:6000");
    for _ in 0..10 {
        let mut msg = PlayerMessage::bare("PLAYER_ICE");
        msg.ice = Some(IceMessage { candidate: candidate(), peer_id: None });
        let step = on_player_frame(&mut phase, &mut session, Incoming::Text(Ok(msg)), &state);
        match step {
            SessionStep::Rejected(SignallingError::SfuError(SfuError::SubscriberNotFound(id))) => {
                assert_eq!(id, "player-10.0.0.2:6000")
            }
            other => panic!("unexpected {:?}", other),
        }
        assert_eq!(phase, PlayerPhase::Initialised);
    }
    let mut msg = PlayerMessage::bare("OFFER");
    msg.offer = Some(offer_part(OFFER, Some("alice")));
    match on_player_frame(&mut phase, &mut session, Incoming::Text(Ok(msg)), &state) {
        SessionStep::Subscribe(_, mut negotiation, command) => {
            assert!(matches!(run(&mut state.sfu, &mut negotiation, command), Command::Complete));
        }
        other => panic!("unexpected {:?}", other),
    }
    let mut msg = PlayerMessage::bare("PLAYER_ICE");
    msg.ice = Some(IceMessage { candidate: candidate(), peer_id: None });
    assert!(matches!(handle_player_ice(&session, msg, &state), Ok(_)));
    assert_eq!(grabber_events(&session), vec!["AUTH_REQUEST", "INIT_PEER"]);
}

#[test]
fn player_without_credential_is_refused_once() {
    let state = state();
    let mut session = WsSession::new(player_session_id("10.0.0.2:6000"));
    let mut phase = handle_player_connection(&mut session).unwrap();
    assert_eq!(phase, PlayerPhase::AuthRequested);
    let step = on_player_frame(
        &mut phase,
        &mut session,
        Incoming::Text(Ok(PlayerMessage::bare("OFFER"))),
        &state,
    );
    match step {
        SessionStep::Abort(SignallingError::AuthenticationFailed(m)) => {
            assert_eq!(m, "Invalid credentials")
        }
        other => panic!("unexpected {:?}", other),
    }
    assert_eq!(phase, PlayerPhase::Closed);
    assert_eq!(grabber_events(&session), vec!["AUTH_REQUEST", "AUTH_FAILED"]);
    match &session.outbox[1] {
        Frame::Json(Envelope::Player(m)) => {
            assert_eq!(m.access_message.as_deref(), Some("Invalid credentials"))
        }
        other => panic!("unexpected {:?}", other),
    }
    let mut auth = PlayerMessage::bare("AUTH");
    auth.player_auth = Some(PlayerAuth { credential: "test".to_string() });
    let step = on_player_frame(&mut phase, &mut session, Incoming::Text(Ok(auth)), &state);
    assert!(matches!(step, SessionStep::Stop));
    assert_eq!(phase, PlayerPhase::Closed);
    assert_eq!(session.outbox.len(), 2);
    assert_eq!(state.sfu.subscribers.len(), 0);
}

#[test]
fn authentication_outcomes() {
    let state = state();
    let mut auth = PlayerMessage::bare("AUTH");
    auth.player_auth = Some(PlayerAuth { credential: "test".to_string() });
    assert!(authenticate_player(&Incoming::Text(Ok(auth)), &state).unwrap());
    assert!(!authenticate_player(&Incoming::Text(Ok(PlayerMessage::bare("AUTH"))), &state).unwrap());
    let mut wrong = PlayerMessage::bare("HELLO");
    wrong.player_auth = Some(PlayerAuth { credential: "test".to_string() });
    assert!(!authenticate_player(&Incoming::Text(Ok(wrong)), &state).unwrap());
    assert!(!authenticate_player(&Incoming::Ping, &state).unwrap());
    assert!(!authenticate_player(&Incoming::Close, &state).unwrap());
    match authenticate_player(&Incoming::Text(Err("eof".to_string())), &state) {
        Err(SignallingError::InvalidMessageFormat(m)) => assert_eq!(m, "eof"),
        other => panic!("unexpected {:?}", other),
    }
}

#[test]
fn player_that_never_authenticates() {
    let state = state();
    let mut session = WsSession::new(player_session_id("10.0.0.2:6000"));
    let mut phase = handle_player_connection(&mut session).unwrap();
    match on_player_frame(&mut phase, &mut session, Incoming::TimedOut, &state) {
        SessionStep::Abort(SignallingError::AuthenticationFailed(m)) => {
            assert_eq!(m, "Authentication timeout")
        }
        other => panic!("unexpected {:?}", other),
    }
    assert_eq!(phase, PlayerPhase::Closed);
    assert_eq!(grabber_events(&session), vec!["AUTH_REQUEST"]);
    assert_eq!(state.sfu.subscribers.len(), 0);

    let mut session = WsSession::new("p".to_string());
    match admit_player(&mut session, Incoming::Ended, &state) {
        Err(SignallingError::SessionError(m)) => assert_eq!(m, "Connection closed during auth"),
        other => panic!("unexpected {:?}", other),
    }
    match admit_player(&mut session, Incoming::Failed("reset".to_string()), &state) {
        Err(SignallingError::WebSocket(m)) => assert_eq!(m, "WebSocket error: reset"),
        other => panic!("unexpected {:?}", other),
    }
    match admit_player(&mut session, Incoming::Text(Err("bad".to_string())), &state) {
        Err(SignallingError::InvalidMessageFormat(m)) => assert_eq!(m, "bad"),
        other => panic!("unexpected {:?}", other),
    }
    assert!(session.outbox.is_empty());
}

#[test]
fn player_messages() {
    let mut state = state();
    publish_alice(&mut state);
    let (mut session, mut phase) = admitted_player(&state, "10.0.0.2:6000");
    session.drain();
    assert!(matches!(
        handle_player_message(&mut session, Ok(PlayerMessage::bare("PING")), &state),
        Ok(SessionStep::Continue)
    ));
    assert_eq!(grabber_events(&session), vec!["PONG"]);
    assert!(matches!(
        handle_player_message(&mut session, Ok(PlayerMessage::bare("WAVE")), &state),
        Ok(SessionStep::Continue)
    ));
    match handle_player_message(&mut session, Ok(PlayerMessage::bare("OFFER")), &state) {
        Err(SignallingError::InvalidMessageFormat(m)) => assert_eq!(m, "Missing offer data"),
        other => panic!("unexpected {:?}", other),
    }
    let mut nameless = PlayerMessage::bare("OFFER");
    nameless.offer = Some(offer_part(OFFER, None));
    match handle_subscribe_offer(&mut session, nameless, &state) {
        Err(SignallingError::InvalidMessageFormat(m)) => assert_eq!(m, "Missing peer_name"),
        other => panic!("unexpected {:?}", other),
    }
    let mut garbled = PlayerMessage::bare("OFFER");
    garbled.offer = Some(offer_part("garbage", Some("alice")));
    match handle_subscribe_offer(&mut session, garbled, &state) {
        Err(SignallingError::InvalidMessageFormat(m)) => assert!(m.starts_with("Invalid SDP offer: ")),
        other => panic!("unexpected {:?}", other),
    }
    match handle_player_message(&mut session, Ok(PlayerMessage::bare("PLAYER_ICE")), &state) {
        Err(SignallingError::InvalidMessageFormat(m)) => assert_eq!(m, "Missing ICE data"),
        other => panic!("unexpected {:?}", other),
    }
    assert_eq!(session.outbox.len(), 1);
    assert!(matches!(
        on_player_frame(&mut phase, &mut session, Incoming::Ping, &state),
        SessionStep::Continue
    ));
    assert_eq!(grabber_events(&session), vec!["PONG", "{\"event\":\"PONG\"}"]);
    assert!(matches!(
        on_player_frame(&mut phase, &mut session, Incoming::Close, &state),
        SessionStep::Stop
    ));
    assert_eq!(phase, PlayerPhase::Closed);
}

#[test]
fn failed_subscription_is_reported() {
    let mut session = WsSession::new("player-a".to_string());
    let failure = SfuError::Internal("limit".to_string());
    match finish_subscribe_offer(&mut session, "alice".to_string(), Err(failure)) {
        Err(SignallingError::SfuError(SfuError::Internal(m))) => assert_eq!(m, "limit"),
        other => panic!("unexpected {:?}", other),
    }
    assert_eq!(grabber_events(&session), vec!["OFFER_FAILED"]);
}

#[test]
fn subscription_past_the_cap_fails_at_once() {
    let mut config = create_default_config();
    config.performance.max_subscribers_per_publisher = 0;
    let sfu = LocalSfu::new("unit".to_string(), config).unwrap();
    let mut state = AppState::new(sfu, create_default_config());
    publish_alice(&mut state);
    let (mut session, _) = admitted_player(&state, "10.0.0.2:6000");
    let mut msg = PlayerMessage::bare("OFFER");
    msg.offer = Some(offer_part(OFFER, Some("alice")));
    let (_, negotiation, command) = handle_subscribe_offer(&mut session, msg, &state).unwrap();
    assert_eq!(negotiation.stage, Stage::Finished);
    match command {
        Command::Fail(SfuError::Internal(m)) => assert_eq!(
            m,
            "Maximum subscriber limit reached for publisher grabber-10.0.0.1:5000: 0"
        ),
        other => panic!("unexpected {:?}", other),
    }
}

#[test]
fn errors_map_to_http_statuses() {
    let cases = vec![
        (SignallingError::AuthenticationFailed("a".to_string()), 401, "a"),
        (SignallingError::PeerNotFound("b".to_string()), 404, "b"),
        (SignallingError::Timeout("c".to_string()), 408, "c"),
        (SignallingError::InvalidMessageFormat("d".to_string()), 400, "d"),
        (SignallingError::WebSocket("e".to_string()), 500, "WebSocket error: e"),
        (SignallingError::SessionError("f".to_string()), 500, "Session error: f"),
        (SignallingError::Serialization("g".to_string()), 500, "Serialization error: g"),
        (
            SignallingError::SfuError(SfuError::TrackNotFound("t".to_string())),
            500,
            "SFU error: Track not found: t",
        ),
    ];
    for (error, status, body) in cases {
        let response = error.into_response();
        assert_eq!(response.status, status);
        assert_eq!(response.error, body);
    }
    assert_eq!(
        SignallingError::AuthenticationFailed("x".to_string()).message(),
        "Authentication failed: x"
    );
    assert_eq!(SignallingError::PeerNotFound("x".to_string()).message(), "Peer not found: x");
    assert_eq!(SignallingError::Timeout("x".to_string()).message(), "Timeout: x");
    assert_eq!(
        SignallingError::InvalidMessageFormat("x".to_string()).message(),
        "Invalid message format: x"
    );
}

#[test]
fn session_description_of_an_offer() {
    let offer = SessionDescription::offer(OFFER.to_string()).unwrap();
    assert_eq!(offer.sdp_type, SdpType::Offer);
}

#[test]
fn server_candidates_travel_as_server_ice() {
    let to_grabber = grabber_server_ice(candidate());
    assert_eq!(to_grabber.event, "SERVER_ICE");
    let part = to_grabber.ice.unwrap();
    assert_eq!(part.candidate.candidate, "candidate:1 1 UDP 1 127.0.0.1 9 typ host");
    assert!(part.peer_id.is_none());
    assert!(to_grabber.offer.is_none());
    let to_player = player_server_ice(candidate());
    assert_eq!(to_player.event, "SERVER_ICE");
    assert_eq!(to_player.ice.unwrap().candidate.sdp_mline_index, Some(0));
    assert!(to_player.offer.is_none());
}

#[test]
fn peers_are_listed_in_registration_order() {
    let mut state = state();
    for (i, name) in ["carol", "alice", "bob"].iter().enumerate() {
        let mut session = WsSession::new(grabber_session_id(&format!("10.0.0.{}:5000", i)));
        handle_grabber_connection(&mut session, name.to_string(), &mut state).unwrap();
    }
    let names: Vec<String> = get_peers(&state).peers.into_iter().map(|p| p.name).collect();
    assert_eq!(names, vec!["carol", "alice", "bob"]);
    grabber_disconnected("grabber-10.0.0.1:5000", &mut state);
    let names: Vec<String> = get_peers(&state).peers.into_iter().map(|p| p.name).collect();
    assert_eq!(names, vec!["carol", "bob"]);
    assert_eq!(health(&state).publishers, 2);
}
