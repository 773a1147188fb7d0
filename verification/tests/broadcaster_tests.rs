use grabber_sfu::local::broadcaster::{
    default_mime, keyframe_burst, negotiated_codec, on_receive, on_source_read, on_write, CodecCapability,
    ConsumerStep, PictureLossIndication, ProducerStep, Received, RemoteTrack, RtcpFeedback,
    RtcpKind, TrackBroadcaster, TrackIo, KEYFRAME_BURST_LEN, KEYFRAME_BURST_SPACING_MS,
    LAG_KEYFRAME_THRESHOLD, PLI_MIN_INTERVAL_MS,
};

fn broadcaster(kind: &str) -> TrackBroadcaster {
    TrackBroadcaster::new(
        RemoteTrack { id: "track-1".to_string(), kind: kind.to_string(), ssrc: 4242 },
        format!("{}/VP8", kind),
        CodecCapability::bare(format!("{}/VP8", kind)),
        1000,
    )
}

#[test]
fn new_broadcaster_takes_the_track() {
    let b = broadcaster("video");
    assert_eq!(b.id, "track-1");
    assert_eq!(b.kind, "video");
    assert_eq!(b.mime_type, "video/VP8");
    assert_eq!(b.ssrc, 4242);
    assert_eq!(b.channel_capacity, 1000);
    assert_eq!(b.subscriber_count(), 0);
    assert_eq!(b.last_pli_time, None);
    assert_eq!(b.codec_capability.mime_type, "video/VP8");
    assert_eq!(b.codec_capability.clock_rate, 0);
}

#[test]
fn constants_of_the_keyframe_rules() {
    assert_eq!(PLI_MIN_INTERVAL_MS, 500);
    assert_eq!(LAG_KEYFRAME_THRESHOLD, 10);
    assert_eq!(KEYFRAME_BURST_LEN, 3);
    assert_eq!(KEYFRAME_BURST_SPACING_MS, 300);
}

#[test]
fn first_keyframe_request_goes_upstream() {
    let b = broadcaster("video");
    assert_eq!(
        b.request_keyframe(0),
        Some(PictureLossIndication { sender_ssrc: 0, media_ssrc: 4242 })
    );
}

#[test]
fn keyframe_requests_are_spaced() {
    let mut b = broadcaster("video");
    assert!(b.request_keyframe(1000).is_some());
    b.keyframe_sent(1000);
    assert_eq!(b.last_pli_time, Some(1000));
    assert_eq!(b.request_keyframe(1000), None);
    assert_eq!(b.request_keyframe(1499), None);
    assert!(b.request_keyframe(1500).is_some());
    b.keyframe_sent(1500);
    assert_eq!(b.request_keyframe(1999), None);
    assert!(b.request_keyframe(2000).is_some());
}

#[test]
fn emissions_of_a_run_are_half_a_second_apart() {
    let mut b = broadcaster("video");
    let mut sent: Vec<u64> = Vec::new();
    let mut now = 0u64;
    while now < 5000 {
        if b.request_keyframe(now).is_some() {
            b.keyframe_sent(now);
            sent.push(now);
        }
        now += 37;
    }
    assert!(sent.len() > 3);
    for pair in sent.windows(2) {
        assert!(pair[1] - pair[0] >= 500);
    }
}

#[test]
fn failed_write_does_not_advance_the_clock() {
    let mut b = broadcaster("video");
    assert!(b.request_keyframe(100).is_some());
    assert_eq!(b.last_pli_time, None);
    assert!(b.request_keyframe(101).is_some());
    b.keyframe_sent(101);
    assert_eq!(b.request_keyframe(600), None);
    assert!(b.request_keyframe(601).is_some());
}

#[test]
fn last_pli_time_never_moves_back() {
    let mut b = broadcaster("video");
    b.keyframe_sent(900);
    b.keyframe_sent(400);
    assert_eq!(b.last_pli_time, Some(900));
    b.keyframe_sent(901);
    assert_eq!(b.last_pli_time, Some(901));
    assert_eq!(b.request_keyframe(0), None);
}

#[test]
fn audio_never_asks_for_keyframes() {
    let mut b = broadcaster("audio");
    assert_eq!(b.request_keyframe(0), None);
    assert_eq!(b.request_keyframe(10_000), None);
    assert!(b.request_keyframe_with_retries().is_empty());
    assert!(b.add_subscriber("track-1-player".to_string()).is_empty());
    assert!(!b.wants_keyframe(&vec![RtcpKind::PictureLossIndication]));
}

#[test]
fn new_subscriber_gets_a_burst() {
    let mut b = broadcaster("video");
    assert_eq!(b.request_keyframe_with_retries(), vec![0, 300, 600]);
    let delays = b.add_subscriber("track-1-player-a".to_string());
    assert_eq!(delays, vec![0, 300, 600]);
    assert_eq!(b.subscriber_count(), 1);
    assert!(b.has_subscriber("track-1-player-a"));
    assert!(!b.has_subscriber("track-1-player-b"));
}

#[test]
fn subscribers_are_attached_once_and_removed_once() {
    let mut b = broadcaster("video");
    b.add_subscriber("a".to_string());
    b.add_subscriber("b".to_string());
    b.add_subscriber("a".to_string());
    assert_eq!(b.subscriber_count(), 2);
    assert!(b.remove_subscriber("a"));
    assert!(!b.remove_subscriber("a"));
    assert!(!b.remove_subscriber("zzz"));
    assert_eq!(b.subscriber_count(), 1);
    assert!(b.has_subscriber("b"));
    assert!(!b.has_subscriber("a"));
}

#[test]
fn rtcp_batches_with_pli_or_fir_want_a_keyframe() {
    let b = broadcaster("video");
    assert!(!b.wants_keyframe(&vec![]));
    assert!(!b.wants_keyframe(&vec![RtcpKind::Other, RtcpKind::Other]));
    assert!(b.wants_keyframe(&vec![RtcpKind::Other, RtcpKind::PictureLossIndication]));
    assert!(b.wants_keyframe(&vec![RtcpKind::FullIntraRequest]));
}

#[test]
fn producer_steps() {
    assert_eq!(on_source_read(&TrackIo::Done), ProducerStep::Publish);
    assert_eq!(on_source_read(&TrackIo::ClosedPipe), ProducerStep::StopClosed);
    assert_eq!(on_source_read(&TrackIo::ConnectionClosed), ProducerStep::StopClosed);
    assert_eq!(on_source_read(&TrackIo::Failed("eof".to_string())), ProducerStep::StopFailed);
}

#[test]
fn consumer_steps() {
    assert_eq!(on_receive(Received::Packet), ConsumerStep::Write);
    assert_eq!(on_receive(Received::Closed), ConsumerStep::Stop);
    assert_eq!(on_receive(Received::Lagged(0)), ConsumerStep::Resume { request_keyframe: false });
    assert_eq!(on_receive(Received::Lagged(10)), ConsumerStep::Resume { request_keyframe: false });
    assert_eq!(on_receive(Received::Lagged(11)), ConsumerStep::Resume { request_keyframe: true });
    assert_eq!(
        on_receive(Received::Lagged(u64::MAX)),
        ConsumerStep::Resume { request_keyframe: true }
    );
    assert_eq!(on_write(&TrackIo::Done), ConsumerStep::Continue);
    assert_eq!(on_write(&TrackIo::ClosedPipe), ConsumerStep::Stop);
    assert_eq!(on_write(&TrackIo::ConnectionClosed), ConsumerStep::Stop);
    assert_eq!(on_write(&TrackIo::Failed("x".to_string())), ConsumerStep::StopFailed);
}

#[test]
fn consumer_forwards_in_order_until_it_stops() {
    let turns = vec![
        (Received::Packet, TrackIo::Done),
        (Received::Lagged(20), TrackIo::Done),
        (Received::Packet, TrackIo::Done),
        (Received::Packet, TrackIo::ClosedPipe),
        (Received::Packet, TrackIo::Done),
    ];
    let mut written: Vec<usize> = Vec::new();
    let mut keyframes = 0;
    for (i, (received, outcome)) in turns.iter().enumerate() {
        match on_receive(*received) {
            ConsumerStep::Write => {
                written.push(i);
                if on_write(outcome) != ConsumerStep::Continue {
                    break;
                }
            }
            ConsumerStep::Resume { request_keyframe } => {
                if request_keyframe {
                    keyframes += 1;
                }
            }
            _ => break,
        }
    }
    assert_eq!(written, vec![0, 2, 3]);
    assert_eq!(keyframes, 1);
}

#[test]
fn default_mime_by_kind() {
    assert_eq!(default_mime("video"), "video/VP8");
    assert_eq!(default_mime("audio"), "audio/opus");
    assert_eq!(default_mime("data"), "data/unknown");
    assert_eq!(default_mime(""), "/unknown");
}

#[test]
fn negotiated_codec_prefers_the_receiver() {
    let capability = CodecCapability {
        mime_type: "video/H264".to_string(),
        clock_rate: 90000,
        channels: 0,
        sdp_fmtp_line: "packetization-mode=1".to_string(),
        rtcp_feedback: vec![RtcpFeedback { typ: "nack".to_string(), parameter: "pli".to_string() }],
    };
    let (mime, codec) = negotiated_codec("video", Some(capability));
    assert_eq!(mime, "video/H264");
    assert_eq!(codec.clock_rate, 90000);
    assert_eq!(codec.sdp_fmtp_line, "packetization-mode=1");
    assert_eq!(codec.rtcp_feedback.len(), 1);
    let copy = codec.duplicate();
    assert_eq!(copy.mime_type, "video/H264");
    assert_eq!(copy.rtcp_feedback[0].typ, "nack");
    assert_eq!(copy.rtcp_feedback[0].parameter, "pli");

    let (mime, codec) = negotiated_codec("audio", None);
    assert_eq!(mime, "audio/opus");
    assert_eq!(codec.mime_type, "audio/opus");
    assert_eq!(codec.clock_rate, 0);
    assert_eq!(codec.channels, 0);
    assert_eq!(codec.sdp_fmtp_line, "");
    assert!(codec.rtcp_feedback.is_empty());
}

#[test]
fn burst_by_kind() {
    assert_eq!(keyframe_burst("video"), vec![0, 300, 600]);
    assert!(keyframe_burst("audio").is_empty());
    assert!(keyframe_burst("").is_empty());
    assert!(keyframe_burst("Video").is_empty());
}

#[test]
fn consumers_keep_the_order_of_attachment() {
    let mut b = broadcaster("video");
    b.add_subscriber("c".to_string());
    b.add_subscriber("a".to_string());
    b.add_subscriber("b".to_string());
    b.add_subscriber("a".to_string());
    assert!(b.remove_subscriber("a"));
    b.add_subscriber("a".to_string());
    assert_eq!(b.producer_stopped(), vec!["c".to_string(), "b".to_string(), "a".to_string()]);
    assert_eq!(b.subscriber_count(), 0);
    assert!(b.producer_stopped().is_empty());
    assert_eq!(b.id, "track-1");
}
