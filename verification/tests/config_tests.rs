use grabber_sfu::local::config::{
    create_default_config, default_broadcast_capacity, default_max_publishers,
    default_max_subscribers_per_publisher, default_performance, PerformanceConfig,
};

#[test]
fn default_limits() {
    assert_eq!(default_broadcast_capacity(), 1000);
    assert_eq!(default_max_publishers(), 1000);
    assert_eq!(default_max_subscribers_per_publisher(), 100);
    let performance = default_performance();
    assert_eq!(performance.broadcast_channel_capacity, 1000);
    assert_eq!(performance.max_publishers, 1000);
    assert_eq!(performance.max_subscribers_per_publisher, 100);
    let by_trait = PerformanceConfig::default();
    assert_eq!(by_trait.max_publishers, 1000);
}

#[test]
fn fallback_configuration() {
    let config = create_default_config();
    assert_eq!(config.server.bind_address, "0.0.0.0:8080");
    assert!(config.server.enable_metrics);
    assert_eq!(config.ice_servers, vec!["stun:stun.l.google.com:19302".to_string()]);
    assert_eq!(config.codecs.audio.len(), 1);
    assert_eq!(config.codecs.audio[0].mime, "audio/opus");
    assert_eq!(config.codecs.audio[0].payload_type, 111);
    assert_eq!(config.codecs.audio[0].clock_rate, 48000);
    assert_eq!(config.codecs.audio[0].channels, Some(2));
    assert_eq!(
        config.codecs.audio[0].sdp_fmtp.as_deref(),
        Some("minptime=10;useinbandfec=1")
    );
    assert_eq!(config.codecs.video.len(), 2);
    assert_eq!(config.codecs.video[0].mime, "video/VP8");
    assert_eq!(config.codecs.video[0].payload_type, 96);
    assert_eq!(config.codecs.video[1].mime, "video/H264");
    assert_eq!(config.codecs.video[1].payload_type, 102);
    assert_eq!(
        config.codecs.video[1].sdp_fmtp.as_deref(),
        Some("level-asymmetry-allowed=1;packetization-mode=1;profile-level-id=42e01f")
    );
    assert_eq!(config.performance.broadcast_channel_capacity, 1000);
    assert_eq!(config.performance.max_publishers, 1000);
    assert_eq!(config.performance.max_subscribers_per_publisher, 100);
    assert!(config.validate_credentials("test"));
    assert!(config.validate_credentials(""));
}
