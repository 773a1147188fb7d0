//! Configuration of the forwarding unit.

use vstd::prelude::*;
use crate::text::text;

verus! {

/// Everything the forwarding unit is configured with.
#[derive(Debug, Clone)]
pub struct SfuConfig {
    pub server: ServerConfig,
    pub ice_servers: Vec<String>,
    pub codecs: CodecsConfig,
    pub performance: PerformanceConfig,
}

/// Limits on sessions and on the fan-out channel.
#[derive(Debug, Clone)]
pub struct PerformanceConfig {
    pub broadcast_channel_capacity: usize,
    pub max_publishers: usize,
    pub max_subscribers_per_publisher: usize,
}

#[derive(Debug, Clone)]
pub struct ServerConfig {
    pub bind_address: String,
    pub enable_metrics: bool,
}

#[derive(Debug, Clone)]
pub struct CodecsConfig {
    pub audio: Vec<CodecItem>,
    pub video: Vec<CodecItem>,
}

/// One codec that the media engine is asked to register.
#[derive(Debug, Clone)]
pub struct CodecItem {
    pub mime: String,
    pub payload_type: u8,
    pub clock_rate: u32,
    pub channels: Option<u16>,
    pub sdp_fmtp: Option<String>,
}

impl CodecItem {
    /// Whether the item holds exactly these values.
    pub open spec fn is(
        &self,
        mime: Seq<char>,
        payload_type: u8,
        clock_rate: u32,
        channels: Option<u16>,
        sdp_fmtp: Option<Seq<char>>,
    ) -> bool {
        &&& self.mime@ == mime
        &&& self.payload_type == payload_type
        &&& self.clock_rate == clock_rate
        &&& self.channels == channels
        &&& self.sdp_fmtp.deep_view() == sdp_fmtp
    }
}

impl PerformanceConfig {
    /// The limits used when the configuration names none.
    pub open spec fn is_default(&self) -> bool {
        &&& self.broadcast_channel_capacity == 1000
        &&& self.max_publishers == 1000
        &&& self.max_subscribers_per_publisher == 100
    }
}

/// The performance section used when the configuration has none.
pub fn default_performance() -> (performance: PerformanceConfig)
    ensures
        performance.is_default(),
{
    PerformanceConfig::default()
}

/// Default capacity of a broadcaster's fan-out channel, in packets.
pub fn default_broadcast_capacity() -> (capacity: usize)
    ensures
        capacity == 1000,
{
    1000
}

/// Default cap on live publishers.
pub fn default_max_publishers() -> (limit: usize)
    ensures
        limit == 1000,
{
    1000
}

/// Default cap on the subscribers attached to one publisher.
pub fn default_max_subscribers_per_publisher() -> (limit: usize)
    ensures
        limit == 100,
{
    100
}

impl Default for PerformanceConfig {
    fn default() -> (performance: Self)
        ensures
            performance.is_default(),
    {
        PerformanceConfig {
            broadcast_channel_capacity: default_broadcast_capacity(),
            max_publishers: default_max_publishers(),
            max_subscribers_per_publisher: default_max_subscribers_per_publisher(),
        }
    }
}

impl SfuConfig {
    /// Whether `creds` is an accepted credential. Every credential is
    /// accepted: the shared secret is not part of the configuration yet.
    pub fn validate_credentials(&self, _creds: &str) -> (accepted: bool)
        ensures
            accepted,
    {
        true
    }

    /// Whether this is the configuration that the server falls back to when
    /// no configuration file can be read: it listens on every address, knows
    /// one public STUN server, Opus, VP8 and H.264, and has the default
    /// limits.
    pub open spec fn is_fallback(&self) -> bool {
        &&& self.server.bind_address@ == "0.0.0.0:8080"@
        &&& self.server.enable_metrics
        &&& self.ice_servers.deep_view() == seq!["stun:stun.l.google.com:19302"@]
        &&& self.codecs.audio.len() == 1
        &&& self.codecs.audio[0].is(
            "audio/opus"@,
            111,
            48000,
            Some(2u16),
            Some("minptime=10;useinbandfec=1"@),
        )
        &&& self.codecs.video.len() == 2
        &&& self.codecs.video[0].is("video/VP8"@, 96, 90000, None, None)
        &&& self.codecs.video[1].is(
            "video/H264"@,
            102,
            90000,
            None,
            Some("level-asymmetry-allowed=1;packetization-mode=1;profile-level-id=42e01f"@),
        )
        &&& self.performance.is_default()
    }
}

/// The configuration that the server falls back to when no configuration
/// file can be read.
pub fn create_default_config() -> (config: SfuConfig)
    ensures
        config.is_fallback(),
{
    let mut ice_servers: Vec<String> = Vec::new();
    ice_servers.push(text("stun:stun.l.google.com:19302"));
    assert(ice_servers.deep_view() =~= seq!["stun:stun.l.google.com:19302"@]);
    let mut audio: Vec<CodecItem> = Vec::new();
    audio.push(
        CodecItem {
            mime: text("audio/opus"),
            payload_type: 111,
            clock_rate: 48000,
            channels: Some(2),
            sdp_fmtp: Some(text("minptime=10;useinbandfec=1")),
        },
    );
    let mut video: Vec<CodecItem> = Vec::new();
    video.push(
        CodecItem {
            mime: text("video/VP8"),
            payload_type: 96,
            clock_rate: 90000,
            channels: None,
            sdp_fmtp: None,
        },
    );
    video.push(
        CodecItem {
            mime: text("video/H264"),
            payload_type: 102,
            clock_rate: 90000,
            channels: None,
            sdp_fmtp: Some(
                text("level-asymmetry-allowed=1;packetization-mode=1;profile-level-id=42e01f"),
            ),
        },
    );
    SfuConfig {
        server: ServerConfig { bind_address: text("0.0.0.0:8080"), enable_metrics: true },
        ice_servers,
        codecs: CodecsConfig { audio, video },
        performance: default_performance(),
    }
}

} // verus!
