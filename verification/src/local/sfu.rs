//! The forwarding unit: the session tables, the admission rules and the
//! counters behind them.

use vstd::prelude::*;
use webrtc::api::media_engine::MediaEngine;
use webrtc::rtp_transceiver::rtp_codec::{
    RTCRtpCodecCapability,
    RTCRtpCodecParameters,
    RTPCodecType,
};
use webrtc::rtp_transceiver::RTCPFeedback;
use crate::local::broadcaster::{
    holds_keyframe_request,
    negotiated_codec,
    CodecCapability,
    PictureLossIndication,
    RemoteTrack,
    RtcpKind,
    TrackBroadcaster,
};
use crate::local::config::{CodecItem, SfuConfig};
use crate::local::error::SfuError;
use crate::local::session::{PublisherSession, SubscriberSession};
use crate::table::Table;
use crate::text::{decimal, decimal_text, join2, same_text, text};

verus! {

/// Name of the counter of publishers that were admitted and not yet removed.
pub open spec fn publishers_counter() -> Seq<char> {
    "publishers"@
}

/// Name of the counter of subscribers that were admitted and not yet
/// removed.
pub open spec fn subscribers_counter() -> Seq<char> {
    "subscribers"@
}

/// One ICE server offered to a peer connection.
#[derive(Debug)]
pub struct IceServer {
    pub urls: Vec<String>,
    pub username: String,
    pub credential: String,
}

/// The configuration that every peer connection is created with.
#[derive(Debug)]
pub struct RtcConfiguration {
    pub ice_servers: Vec<IceServer>,
}

/// The media kind under which a codec is registered.
#[derive(Debug, Clone, Copy, PartialEq, Eq, Structural)]
pub enum CodecKind {
    Audio,
    Video,
}

/// One codec to register with the media engine.
#[derive(Debug)]
pub struct CodecRegistration {
    pub capability: CodecCapability,
    pub payload_type: u8,
    pub kind: CodecKind,
}

impl CodecRegistration {
    /// What a media engine tells codecs apart by: the kind, the mime type
    /// and the payload type.
    pub open spec fn key(&self) -> (CodecKind, Seq<char>, u8) {
        (self.kind, self.capability.mime_type@, self.payload_type)
    }

    /// Whether this is what the configured `item` asks to register under
    /// `kind`: audio codecs have two channels unless the item says
    /// otherwise, video codecs have none.
    pub open spec fn matches_item(&self, item: CodecItem, kind: CodecKind) -> bool {
        &&& self.kind == kind
        &&& self.payload_type == item.payload_type
        &&& self.capability.mime_type@ == item.mime@
        &&& self.capability.clock_rate == item.clock_rate
        &&& self.capability.channels == match kind {
            CodecKind::Audio => match item.channels {
                Some(channels) => channels,
                None => 2u16,
            },
            CodecKind::Video => 0u16,
        }
        &&& self.capability.sdp_fmtp_line@ == match item.sdp_fmtp {
            Some(line) => line@,
            None => Seq::<char>::empty(),
        }
        &&& self.capability.rtcp_feedback@.len() == 0
    }
}

#[verifier::external_type_specification]
#[verifier::external_body]
pub struct ExMediaEngine(MediaEngine);

/// The codecs that a media engine holds, each as the kind it is registered
/// under, its mime type and its payload type.
pub uninterp spec fn engine_codecs(engine: MediaEngine) -> Set<(CodecKind, Seq<char>, u8)>;

/// `MediaEngine::register_codec` of the `webrtc` crate, called with `codec`
/// under its kind. For the audio and the video kind the engine refuses
/// nothing: it appends the codec to the codecs of that kind unless one with
/// the same mime type and payload type stands there already. The result is
/// the text of the engine's error, which so never comes.
#[verifier::external_body]
fn register_codec(engine: &mut MediaEngine, codec: &CodecRegistration) -> (refusal: Option<String>)
    ensures
        refusal is None,
        engine_codecs(*final(engine)) == engine_codecs(*old(engine)).insert(codec.key()),
{
    let feedback = codec.capability.rtcp_feedback.iter();
    let capability = RTCRtpCodecCapability {
        mime_type: codec.capability.mime_type.clone(),
        clock_rate: codec.capability.clock_rate,
        channels: codec.capability.channels,
        sdp_fmtp_line: codec.capability.sdp_fmtp_line.clone(),
        rtcp_feedback: feedback.map(|f| RTCPFeedback { typ: f.typ.clone(), parameter: f.parameter.clone() }).collect(),
    };
    let typ = match codec.kind { CodecKind::Audio => RTPCodecType::Audio, CodecKind::Video => RTPCodecType::Video };
    let parameters = RTCRtpCodecParameters { capability, payload_type: codec.payload_type, ..Default::default() };
    engine.register_codec(parameters, typ).err().map(|e| e.to_string())
}

/// What a media engine tells the codecs of `codecs` apart by.
pub open spec fn codec_keys(codecs: Seq<CodecRegistration>) -> Set<(CodecKind, Seq<char>, u8)> {
    Set::new(
        |key: (CodecKind, Seq<char>, u8)|
            exists|i: int| 0 <= i < codecs.len() && (#[trigger] codecs[i]).key() == key,
    )
}

/// One more codec adds its key to the keys of those before it.
pub proof fn lemma_codec_keys_step(codecs: Seq<CodecRegistration>, i: int)
    requires
        0 <= i < codecs.len(),
    ensures
        codec_keys(codecs.take(i + 1)) == codec_keys(codecs.take(i)).insert(codecs[i].key()),
{
    let longer = codecs.take(i + 1);
    let shorter = codecs.take(i);
    assert forall|key: (CodecKind, Seq<char>, u8)| codec_keys(longer).contains(key) implies codec_keys(
        shorter,
    ).insert(codecs[i].key()).contains(key) by {
        let j = choose|j: int| 0 <= j < longer.len() && (#[trigger] longer[j]).key() == key;
        if j < i {
            assert(shorter[j] == longer[j]);
        }
    }
    assert forall|key: (CodecKind, Seq<char>, u8)|
        codec_keys(shorter).insert(codecs[i].key()).contains(key) implies codec_keys(
        longer,
    ).contains(key) by {
        if codec_keys(shorter).contains(key) {
            let j = choose|j: int| 0 <= j < shorter.len() && (#[trigger] shorter[j]).key() == key;
            assert(longer[j] == shorter[j]);
        } else {
            assert(longer[i] == codecs[i]);
        }
    }
    assert(codec_keys(longer) =~= codec_keys(shorter).insert(codecs[i].key()));
}

/// The text of the error of a codec of `kind` that the media engine refused
/// with `message`.
pub open spec fn codec_refusal_text(kind: CodecKind, message: Seq<char>) -> Seq<char> {
    (match kind {
        CodecKind::Audio => "Failed to register audio codec: "@,
        CodecKind::Video => "Failed to register video codec: "@,
    }) + message
}

/// Whether position `i` holds the first refusal among the first `n`
/// outcomes of `refusals`.
pub open spec fn is_first_refusal(refusals: Seq<Option<String>>, n: int, i: int) -> bool {
    &&& 0 <= i < n
    &&& refusals[i] is Some
    &&& forall|j: int| 0 <= j < i ==> (#[trigger] refusals[j]) is None
}

/// The number of codecs that have an outcome: an outcome beyond the last
/// codec speaks of no codec.
pub open spec fn answered(codecs: Seq<CodecRegistration>, refusals: Seq<Option<String>>) -> int {
    if codecs.len() <= refusals.len() {
        codecs.len() as int
    } else {
        refusals.len() as int
    }
}

/// The number of sessions among `sessions` that listen to `publisher`.
pub open spec fn listeners(sessions: Seq<SubscriberSession>, publisher: Seq<char>) -> nat
    decreases sessions.len(),
{
    if sessions.len() == 0 {
        0
    } else {
        listeners(sessions.drop_last(), publisher) + if sessions.last().publisher_id@
            == publisher {
            1nat
        } else {
            0nat
        }
    }
}

/// One more session adds one listener to its own publisher and none to
/// any other.
pub proof fn lemma_listeners_push(
    sessions: Seq<SubscriberSession>,
    session: SubscriberSession,
    publisher: Seq<char>,
)
    ensures
        listeners(sessions.push(session), publisher) == listeners(sessions, publisher) + if session.publisher_id@
            == publisher {
            1nat
        } else {
            0nat
        },
{
    assert(sessions.push(session).drop_last() =~= sessions);
}

/// There are never more listeners than sessions.
pub proof fn lemma_listeners_bound(sessions: Seq<SubscriberSession>, publisher: Seq<char>)
    ensures
        listeners(sessions, publisher) <= sessions.len(),
    decreases sessions.len(),
{
    if sessions.len() > 0 {
        lemma_listeners_bound(sessions.drop_last(), publisher);
    }
}

/// Replacing the session at position `i` moves one listener from its old
/// publisher to its new one.
pub proof fn lemma_listeners_update(
    sessions: Seq<SubscriberSession>,
    i: int,
    session: SubscriberSession,
    publisher: Seq<char>,
)
    requires
        0 <= i < sessions.len(),
    ensures
        listeners(sessions.update(i, session), publisher) + (if sessions[i].publisher_id@
            == publisher {
            1nat
        } else {
            0nat
        }) == listeners(sessions, publisher) + (if session.publisher_id@ == publisher {
            1nat
        } else {
            0nat
        }),
    decreases sessions.len(),
{
    let updated = sessions.update(i, session);
    if i == sessions.len() - 1 {
        assert(updated.drop_last() =~= sessions.drop_last());
    } else {
        assert(updated.drop_last() =~= sessions.drop_last().update(i, session));
        lemma_listeners_update(sessions.drop_last(), i, session, publisher);
    }
}

/// Removing the session at position `i` takes one listener from its
/// publisher and none from any other.
pub proof fn lemma_listeners_remove(sessions: Seq<SubscriberSession>, i: int, publisher: Seq<char>)
    requires
        0 <= i < sessions.len(),
    ensures
        listeners(sessions.remove(i), publisher) + (if sessions[i].publisher_id@ == publisher {
            1nat
        } else {
            0nat
        }) == listeners(sessions, publisher),
    decreases sessions.len(),
{
    let removed = sessions.remove(i);
    if i == sessions.len() - 1 {
        assert(removed =~= sessions.drop_last());
    } else {
        assert(removed.drop_last() =~= sessions.drop_last().remove(i));
        assert(removed.last() == sessions.last());
        lemma_listeners_remove(sessions.drop_last(), i, publisher);
    }
}

/// A counter after `delta` was applied to it: it stops at zero and at the
/// largest value it can hold.
pub open spec fn shifted(value: usize, delta: isize) -> usize {
    if value + delta < 0 {
        0usize
    } else if value + delta > usize::MAX {
        usize::MAX
    } else {
        (value + delta) as usize
    }
}

/// A count as a 32-bit metric: counts beyond the largest metric are
/// reported as the largest metric.
pub open spec fn metric(count: nat) -> i32 {
    if count > i32::MAX {
        i32::MAX
    } else {
        count as i32
    }
}

/// The number of tracks of the first `n` of `sessions`.
pub open spec fn tracks_upto(sessions: Seq<PublisherSession>, n: int) -> nat
    decreases n,
{
    if n <= 0 {
        0
    } else {
        tracks_upto(sessions, n - 1) + sessions[n - 1].track_ids().len()
    }
}

/// The text of the error that refuses a publisher at the cap `limit`.
pub open spec fn publisher_limit_text(limit: usize) -> Seq<char> {
    "Maximum publisher limit reached: "@ + decimal(limit as nat)
}

/// The text of the error that refuses a subscriber of `publisher` at the
/// cap `limit`.
pub open spec fn subscriber_limit_text(publisher: Seq<char>, limit: usize) -> Seq<char> {
    "Maximum subscriber limit reached for publisher "@ + publisher + ": "@ + decimal(limit as nat)
}

/// Whether `broadcaster` is the broadcaster made for the incoming `track`
/// with a fan-out channel of `capacity` packets: it has the track's id,
/// kind and source, carries the codec that the receiver negotiated or the
/// default for its kind, and has neither consumers nor sent an indication.
pub open spec fn made_for(
    broadcaster: TrackBroadcaster,
    capacity: usize,
    track: RemoteTrack,
    first_codec: Option<CodecCapability>,
) -> bool {
    &&& broadcaster.id == track.id
    &&& broadcaster.kind == track.kind
    &&& broadcaster.ssrc == track.ssrc
    &&& broadcaster.channel_capacity == capacity
    &&& broadcaster.consumer_ids().len() == 0
    &&& broadcaster.last_pli_time is None
    &&& match first_codec {
        Some(capability) => {
            &&& broadcaster.mime_type@ == capability.mime_type@
            &&& broadcaster.codec_capability@ == capability@
        },
        None => {
            &&& broadcaster.mime_type@ == crate::local::broadcaster::default_mime_spec(track.kind@)
            &&& broadcaster.codec_capability.is_bare(
                crate::local::broadcaster::default_mime_spec(track.kind@),
            )
        },
    }
}

/// The in-process forwarding unit.
pub struct LocalSfu {
    pub id: String,
    pub config: SfuConfig,
    pub publishers: Table<PublisherSession>,
    pub subscribers: Table<SubscriberSession>,
    pub metrics: Table<usize>,
}

impl LocalSfu {
    /// The tables are well formed and the admission limits hold: there are
    /// no more publishers than the configuration allows, and no publisher
    /// has more listeners than the configuration allows.
    pub open spec fn wf(&self) -> bool {
        &&& self.publishers.wf()
        &&& self.subscribers.wf()
        &&& self.metrics.wf()
        &&& forall|i: int|
            0 <= i < self.publishers.items().len() ==> (#[trigger] self.publishers.items()[i]).wf()
        &&& self.publisher_count() <= self.config.performance.max_publishers
        &&& forall|publisher: Seq<char>| #[trigger]
            self.subscriber_count(publisher) <= self.config.performance.max_subscribers_per_publisher
    }

    /// The number of live publishers.
    pub open spec fn publisher_count(&self) -> nat {
        self.publishers.names().len()
    }

    /// The number of subscribers attached to `publisher`.
    pub open spec fn subscriber_count(&self, publisher: Seq<char>) -> nat {
        listeners(self.subscribers.items(), publisher)
    }

    /// Whether `publisher` is live.
    pub open spec fn has_publisher(&self, publisher: Seq<char>) -> bool {
        self.publishers.has(publisher)
    }

    /// Whether `subscriber` has a session.
    pub open spec fn has_subscriber(&self, subscriber: Seq<char>) -> bool {
        self.subscribers.has(subscriber)
    }

    /// The value of the counter `name`; a counter that was never touched
    /// is zero.
    pub open spec fn counter(&self, name: Seq<char>) -> usize {
        if self.metrics.has(name) {
            self.metrics.at(name)
        } else {
            0
        }
    }

    /// A forwarding unit named `id` without sessions.
    pub fn new(id: String, config: SfuConfig) -> (sfu: Result<LocalSfu, SfuError>)
        ensures
            sfu matches Ok(s) && {
                &&& s.wf()
                &&& s.id == id
                &&& s.config == config
                &&& s.publishers.names().len() == 0
                &&& s.subscribers.names().len() == 0
                &&& s.metrics.names().len() == 0
            },
    {
        let sfu = LocalSfu {
            id,
            config,
            publishers: Table::new(),
            subscribers: Table::new(),
            metrics: Table::new(),
        };
        assert forall|publisher: Seq<char>| #[trigger]
            sfu.subscriber_count(publisher)
                <= sfu.config.performance.max_subscribers_per_publisher by {
            lemma_listeners_bound(sfu.subscribers.items(), publisher);
        }
        Ok(sfu)
    }


    /// The codecs that the configuration asks to register, audio first,
    /// each list in configured order.
    pub fn register_codecs_from_config(config: &SfuConfig) -> (codecs: Vec<CodecRegistration>)
        ensures
            codecs@.len() == config.codecs.audio@.len() + config.codecs.video@.len(),
            forall|i: int|
                0 <= i < config.codecs.audio@.len() ==> (#[trigger] codecs@[i]).matches_item(
                    config.codecs.audio@[i],
                    CodecKind::Audio,
                ),
            forall|i: int|
                0 <= i < config.codecs.video@.len() ==> (#[trigger] codecs@[config.codecs.audio@.len()
                    + i]).matches_item(config.codecs.video@[i], CodecKind::Video),
    {
        let mut codecs: Vec<CodecRegistration> = Vec::new();
        let mut i: usize = 0;
        while i < config.codecs.audio.len()
            invariant
                i <= config.codecs.audio@.len(),
                codecs@.len() == i,
                forall|j: int|
                    0 <= j < i ==> (#[trigger] codecs@[j]).matches_item(
                        config.codecs.audio@[j],
                        CodecKind::Audio,
                    ),
            decreases config.codecs.audio@.len() - i,
        {
            codecs.push(Self::registration(&config.codecs.audio[i], CodecKind::Audio));
            i += 1;
        }
        let mut k: usize = 0;
        while k < config.codecs.video.len()
            invariant
                k <= config.codecs.video@.len(),
                codecs@.len() == config.codecs.audio@.len() + k,
                forall|j: int|
                    0 <= j < config.codecs.audio@.len() ==> (#[trigger] codecs@[j]).matches_item(
                        config.codecs.audio@[j],
                        CodecKind::Audio,
                    ),
                forall|j: int|
                    0 <= j < k ==> (#[trigger] codecs@[config.codecs.audio@.len() + j]).matches_item(
                        config.codecs.video@[j],
                        CodecKind::Video,
                    ),
            decreases config.codecs.video@.len() - k,
        {
            codecs.push(Self::registration(&config.codecs.video[k], CodecKind::Video));
            k += 1;
        }
        codecs
    }

    fn registration(item: &CodecItem, kind: CodecKind) -> (codec: CodecRegistration)
        ensures
            codec.matches_item(*item, kind),
    {
        let channels = match kind {
            CodecKind::Audio => match item.channels {
                Some(channels) => channels,
                None => 2,
            },
            CodecKind::Video => 0,
        };
        let sdp_fmtp_line = match &item.sdp_fmtp {
            Some(line) => line.clone(),
            None => String::new(),
        };
        CodecRegistration {
            capability: CodecCapability {
                mime_type: item.mime.clone(),
                clock_rate: item.clock_rate,
                channels,
                sdp_fmtp_line,
                rtcp_feedback: Vec::new(),
            },
            payload_type: item.payload_type,
            kind,
        }
    }

    /// The error of a codec of `kind` that the media engine refused with
    /// `message`.
    pub fn codec_refused(kind: CodecKind, message: &str) -> (error: SfuError)
        ensures
            error matches SfuError::Configuration(m) && m@ == codec_refusal_text(kind, message@),
    {
        match kind {
            CodecKind::Audio => SfuError::Configuration(
                join2("Failed to register audio codec: ", message),
            ),
            CodecKind::Video => SfuError::Configuration(
                join2("Failed to register video codec: ", message),
            ),
        }
    }

    /// What registering `codecs` comes to, given for each codec in turn how
    /// the media engine took it: registration succeeds when the engine took
    /// every codec, and fails with the error of the first codec that it
    /// refused.
    pub fn registration_result(codecs: &Vec<CodecRegistration>, refusals: &Vec<Option<String>>) -> (registered:
        Result<(), SfuError>)
        ensures
            (forall|i: int|
                0 <= i < answered(codecs@, refusals@) ==> (#[trigger] refusals@[i]) is None)
                ==> registered is Ok,
            forall|i: int|
                is_first_refusal(refusals@, answered(codecs@, refusals@), i) ==> (
                registered matches Err(SfuError::Configuration(m)) && m@ == codec_refusal_text(
                    (#[trigger] codecs@[i]).kind,
                    refusals@[i]->0@,
                )),
    {
        let mut i: usize = 0;
        while i < codecs.len() && i < refusals.len()
            invariant
                i <= answered(codecs@, refusals@),
                forall|j: int| 0 <= j < i ==> (#[trigger] refusals@[j]) is None,
            decreases answered(codecs@, refusals@) - i,
        {
            match &refusals[i] {
                Some(message) => {
                    return Err(Self::codec_refused(codecs[i].kind, message.as_str()));
                },
                None => {},
            }
            i += 1;
        }
        Ok(())
    }

    /// Registers `codecs` with the media engine, one after the other, and
    /// would stop at the first that the engine refuses. The engine refuses
    /// no audio and no video codec, so registration succeeds, and the
    /// engine holds the codecs it held and every codec of `codecs`.
    pub fn register_codecs(engine: &mut MediaEngine, codecs: &Vec<CodecRegistration>) -> (registered:
        Result<(), SfuError>)
        ensures
            registered is Ok,
            engine_codecs(*final(engine)) == engine_codecs(*old(engine)).union(codec_keys(codecs@)),
    {
        let ghost held = engine_codecs(*engine);
        let mut refusals: Vec<Option<String>> = Vec::new();
        let mut i: usize = 0;
        assert(held.union(codec_keys(codecs@.take(0))) =~= held);
        while i < codecs.len()
            invariant
                i <= codecs@.len(),
                refusals@.len() == i,
                forall|j: int| 0 <= j < i ==> (#[trigger] refusals@[j]) is None,
                engine_codecs(*engine) == held.union(codec_keys(codecs@.take(i as int))),
            decreases codecs@.len() - i,
        {
            let refusal = register_codec(engine, &codecs[i]);
            let refused = refusal.is_some();
            refusals.push(refusal);
            if refused {
                return Self::registration_result(codecs, &refusals);
            }
            proof {
                lemma_codec_keys_step(codecs@, i as int);
                assert(held.union(codec_keys(codecs@.take(i as int))).insert(codecs@[i as int].key())
                    =~= held.union(codec_keys(codecs@.take(i + 1))));
            }
            i += 1;
        }
        assert(codecs@.take(i as int) =~= codecs@);
        Self::registration_result(codecs, &refusals)
    }

    /// The error of the default interceptors that the media engine refused
    /// with `message`.
    pub fn interceptors_refused(message: &str) -> (error: SfuError)
        ensures
            error matches SfuError::Configuration(m) && m@ == "Failed to register interceptors: "@
                + message@,
    {
        SfuError::Configuration(join2("Failed to register interceptors: ", message))
    }

    /// The configuration for a new peer connection: one ICE server per
    /// configured address, without credentials.
    pub fn build_rtc_config(&self) -> (rtc: RtcConfiguration)
        ensures
            rtc.ice_servers@.len() == self.config.ice_servers@.len(),
            forall|i: int|
                0 <= i < rtc.ice_servers@.len() ==> {
                    &&& (#[trigger] rtc.ice_servers@[i]).urls.deep_view() == seq![
                        self.config.ice_servers@[i]@,
                    ]
                    &&& rtc.ice_servers@[i].username@.len() == 0
                    &&& rtc.ice_servers@[i].credential@.len() == 0
                },
    {
        let mut ice_servers: Vec<IceServer> = Vec::new();
        let mut i: usize = 0;
        while i < self.config.ice_servers.len()
            invariant
                i <= self.config.ice_servers@.len(),
                ice_servers@.len() == i,
                forall|j: int|
                    0 <= j < i ==> {
                        &&& (#[trigger] ice_servers@[j]).urls.deep_view() == seq![
                            self.config.ice_servers@[j]@,
                        ]
                        &&& ice_servers@[j].username@.len() == 0
                        &&& ice_servers@[j].credential@.len() == 0
                    },
            decreases self.config.ice_servers@.len() - i,
        {
            let mut urls: Vec<String> = Vec::new();
            urls.push(self.config.ice_servers[i].clone());
            assert(urls.deep_view() =~= seq![self.config.ice_servers@[i as int]@]);
            ice_servers.push(IceServer { urls, username: String::new(), credential: String::new() });
            i += 1;
        }
        RtcConfiguration { ice_servers }
    }

    /// Refuses a new publisher once the cap on publishers is reached.
    pub fn check_publisher_limit(&self) -> (admitted: Result<(), SfuError>)
        ensures
            self.publisher_count() < self.config.performance.max_publishers ==> admitted is Ok,
            self.publisher_count() >= self.config.performance.max_publishers ==> (admitted matches Err(
                SfuError::Internal(m),
            ) && m@ == publisher_limit_text(self.config.performance.max_publishers)),
    {
        if self.publishers.len() >= self.config.performance.max_publishers {
            let limit = decimal_text(self.config.performance.max_publishers);
            return Err(
                SfuError::Internal(join2("Maximum publisher limit reached: ", limit.as_str())),
            );
        }
        Ok(())
    }

    /// The number of subscribers attached to `publisher_id`.
    pub fn count_subscribers(&self, publisher_id: &str) -> (count: usize)
        requires
            self.subscribers.wf(),
        ensures
            count == self.subscriber_count(publisher_id@),
    {
        let mut count: usize = 0;
        let mut i: usize = 0;
        while i < self.subscribers.len()
            invariant
                self.subscribers.wf(),
                i <= self.subscribers.names().len(),
                count == listeners(self.subscribers.items().take(i as int), publisher_id@),
                count <= i,
            decreases self.subscribers.names().len() - i,
        {
            let session = self.subscribers.value_at(i);
            proof {
                let items = self.subscribers.items();
                assert(items.take(i + 1).drop_last() =~= items.take(i as int));
            }
            if same_text(session.publisher_id.as_str(), publisher_id) {
                count += 1;
            }
            i += 1;
        }
        assert(self.subscribers.items().take(i as int) =~= self.subscribers.items());
        count
    }

    /// Refuses a new subscriber of `publisher_id` once the cap on the
    /// subscribers of one publisher is reached.
    pub fn check_subscriber_limit(&self, publisher_id: &str) -> (admitted: Result<(), SfuError>)
        requires
            self.subscribers.wf(),
        ensures
            self.subscriber_count(publisher_id@)
                < self.config.performance.max_subscribers_per_publisher ==> admitted is Ok,
            self.subscriber_count(publisher_id@)
                >= self.config.performance.max_subscribers_per_publisher ==> (admitted matches Err(
                SfuError::Internal(m),
            ) && m@ == subscriber_limit_text(
                publisher_id@,
                self.config.performance.max_subscribers_per_publisher,
            )),
    {
        let count = self.count_subscribers(publisher_id);
        if count >= self.config.performance.max_subscribers_per_publisher {
            let limit = decimal_text(self.config.performance.max_subscribers_per_publisher);
            let mut message = join2("Maximum subscriber limit reached for publisher ", publisher_id);
            message.append(": ");
            message.append(limit.as_str());
            return Err(SfuError::Internal(message));
        }
        Ok(())
    }

    /// Applies `delta` to the counter `key`. A counter stops at zero, and a
    /// counter that did not exist counts from zero.
    pub fn update_metrics(&mut self, key: &str, delta: isize)
        requires
            old(self).metrics.wf(),
        ensures
            final(self).metrics.wf(),
            final(self).metrics.entries() == old(self).metrics.entries().insert(
                key@,
                shifted(old(self).counter(key@), delta),
            ),
            final(self).id == old(self).id,
            final(self).config == old(self).config,
            final(self).publishers == old(self).publishers,
            final(self).subscribers == old(self).subscribers,
            old(self).wf() ==> final(self).wf(),
    {
        let current: usize = match self.metrics.get(key) {
            Some(value) => *value,
            None => 0,
        };
        let next: usize = if delta >= 0 {
            let up: usize = delta as usize;
            if current > usize::MAX - up {
                usize::MAX
            } else {
                current + up
            }
        } else {
            let down: usize = if delta == isize::MIN {
                (isize::MAX as usize) + 1
            } else {
                (-delta) as usize
            };
            if current < down {
                0
            } else {
                current - down
            }
        };
        self.metrics.insert(text(key), next);
        proof {
            if old(self).wf() {
                self.lemma_subscriber_limits_carry_over(&*old(self));
            }
        }
    }



    /// Whether `publisher_id` is live: the error names the publisher that
    /// is not.
    pub fn find_publisher(&self, publisher_id: &str) -> (found: Result<(), SfuError>)
        requires
            self.publishers.wf(),
        ensures
            self.has_publisher(publisher_id@) ==> found is Ok,
            !self.has_publisher(publisher_id@) ==> (found matches Err(
                SfuError::PublisherNotFound(id),
            ) && id@ == publisher_id@),
    {
        match self.publishers.position(publisher_id) {
            Some(_) => Ok(()),
            None => Err(SfuError::PublisherNotFound(text(publisher_id))),
        }
    }

    /// Whether `subscriber_id` has a session: the error names the
    /// subscriber that has none.
    pub fn find_subscriber(&self, subscriber_id: &str) -> (found: Result<(), SfuError>)
        requires
            self.subscribers.wf(),
        ensures
            self.has_subscriber(subscriber_id@) ==> found is Ok,
            !self.has_subscriber(subscriber_id@) ==> (found matches Err(
                SfuError::SubscriberNotFound(id),
            ) && id@ == subscriber_id@),
    {
        match self.subscribers.position(subscriber_id) {
            Some(_) => Ok(()),
            None => Err(SfuError::SubscriberNotFound(text(subscriber_id))),
        }
    }

    /// What adding an ICE candidate comes to, given how the peer connection
    /// took it.
    pub fn ice_candidate_added(refusal: Option<String>) -> (added: Result<(), SfuError>)
        ensures
            match refusal {
                Some(message) => added == Err::<(), SfuError>(SfuError::AddIceCandidate(message)),
                None => added is Ok,
            },
    {
        match refusal {
            Some(message) => Err(SfuError::AddIceCandidate(message)),
            None => Ok(()),
        }
    }



    /// The broadcaster made for an incoming track: it carries the codec
    /// that the receiver negotiated, or the default for its kind, and has
    /// a fan-out channel of the configured capacity.
    pub open spec fn is_broadcaster_for(
        &self,
        broadcaster: TrackBroadcaster,
        track: RemoteTrack,
        first_codec: Option<CodecCapability>,
    ) -> bool {
        made_for(
            broadcaster,
            self.config.performance.broadcast_channel_capacity,
            track,
            first_codec,
        )
    }

    /// Whether the session `after` is `before` with the broadcaster made
    /// for `track` registered under the track's id: a broadcaster that
    /// stood under that id is replaced in place, and a new id goes to the
    /// end.
    pub open spec fn session_took_track(
        &self,
        after: PublisherSession,
        before: PublisherSession,
        track: RemoteTrack,
        first_codec: Option<CodecCapability>,
    ) -> bool {
        &&& after.has_track(track.id@)
        &&& self.is_broadcaster_for(after.track(track.id@), track, first_codec)
        &&& after.broadcasters.entries() == before.broadcasters.entries().insert(
            track.id@,
            after.track(track.id@),
        )
        &&& after.track_ids() == if before.has_track(track.id@) {
            before.track_ids()
        } else {
            before.track_ids().push(track.id@)
        }
    }

    /// Whether this unit is `before` with a track of `publisher` taken:
    /// the publisher's session took the track where the publisher is live,
    /// which `registered` says, and nothing changed where it is not.
    pub open spec fn track_registered(
        &self,
        before: &LocalSfu,
        publisher: Seq<char>,
        track: RemoteTrack,
        first_codec: Option<CodecCapability>,
        registered: bool,
    ) -> bool {
        &&& registered == before.has_publisher(publisher)
        &&& !registered ==> *self == *before
        &&& registered ==> {
            let i = before.publishers.names().index_of(publisher);
            let session = self.publishers.items()[i];
            &&& self.id == before.id
            &&& self.config == before.config
            &&& self.subscribers == before.subscribers
            &&& self.metrics == before.metrics
            &&& self.publishers.names() == before.publishers.names()
            &&& self.publishers.items() == before.publishers.items().update(i, session)
            &&& self.session_took_track(session, before.publishers.items()[i], track, first_codec)
        }
    }

    /// Makes the broadcaster of `track` with a fan-out channel of
    /// `capacity` packets and registers it in `session` under the track's
    /// id.
    pub fn keep_track(
        capacity: usize,
        session: &mut PublisherSession,
        track: RemoteTrack,
        first_codec: Option<CodecCapability>,
    )
        requires
            old(session).wf(),
        ensures
            final(session).wf(),
            final(session).has_track(track.id@),
            made_for(final(session).track(track.id@), capacity, track, first_codec),
            final(session).broadcasters.entries() == old(session).broadcasters.entries().insert(
                track.id@,
                final(session).track(track.id@),
            ),
            final(session).track_ids() == if old(session).has_track(track.id@) {
                old(session).track_ids()
            } else {
                old(session).track_ids().push(track.id@)
            },
    {
        let track_id = track.id.clone();
        let (mime_type, capability) = negotiated_codec(track.kind.as_str(), first_codec);
        let broadcaster = TrackBroadcaster::new(track, mime_type, capability, capacity);
        let ghost made = broadcaster;
        session.add_broadcaster(track_id, broadcaster);
        proof {
            assert(session.broadcasters.entries().contains_key(track.id@));
            assert(session.broadcasters.entries()[track.id@] == made);
            assert(session.track(track.id@) == made);
        }
    }

    /// A track of `publisher_id` has arrived: a broadcaster is made for it
    /// and registered under the track's id. Returns whether the publisher
    /// is live; the track of a publisher that is neither live nor being
    /// admitted is dropped.
    pub fn on_track(
        &mut self,
        publisher_id: &str,
        track: RemoteTrack,
        first_codec: Option<CodecCapability>,
    ) -> (registered: bool)
        requires
            old(self).wf(),
        ensures
            final(self).wf(),
            final(self).track_registered(old(self), publisher_id@, track, first_codec, registered),
    {
        match self.publishers.position(publisher_id) {
            Some(i) => {
                proof {
                    self.publishers.lemma_at_position(i as int);
                }
                let capacity = self.config.performance.broadcast_channel_capacity;
                let ghost before = *self;
                let session = self.publishers.value_mut(i);
                Self::keep_track(capacity, session, track, first_codec);
                proof {
                    assert forall|j: int| 0 <= j < self.publishers.items().len() implies (
                    #[trigger] self.publishers.items()[j]).wf() by {
                        if j != i {
                            assert(self.publishers.items()[j] == before.publishers.items()[j]);
                        }
                    }
                    self.lemma_subscriber_limits_carry_over(&before);
                }
                true
            },
            None => false,
        }
    }

    /// Whether this unit is `before` after the removal of `publisher`,
    /// which handed back `gone`: a live publisher leaves the table and is
    /// handed back, and the counter of publishers goes down by one; the
    /// removal of a publisher that is not live hands back nothing and
    /// changes nothing.
    pub open spec fn publisher_removed(
        &self,
        before: &LocalSfu,
        publisher: Seq<char>,
        gone: Option<PublisherSession>,
    ) -> bool {
        &&& gone is Some == before.has_publisher(publisher)
        &&& gone is None ==> *self == *before
        &&& gone matches Some(session) ==> {
            &&& session == before.publishers.at(publisher)
            &&& self.publishers.entries() == before.publishers.entries().remove(publisher)
            &&& self.publisher_count() == before.publisher_count() - 1
            &&& !self.has_publisher(publisher)
            &&& self.id == before.id
            &&& self.config == before.config
            &&& self.subscribers == before.subscribers
            &&& self.metrics.entries() == before.metrics.entries().insert(
                publishers_counter(),
                shifted(before.counter(publishers_counter()), -1isize),
            )
        }
    }


    /// Whether the publisher table is that of `before` with the consumers
    /// of `session`'s local tracks detached from the broadcasters of the
    /// publisher it listened to.
    pub open spec fn released(&self, before: &LocalSfu, session: SubscriberSession) -> bool {
        &&& self.publishers.names() == before.publishers.names()
        &&& self.publishers.items().len() == before.publishers.items().len()
        &&& forall|i: int|
            0 <= i < self.publishers.items().len() ==> {
                let now = #[trigger] self.publishers.items()[i];
                let was = before.publishers.items()[i];
                if before.publishers.names()[i] == session.publisher_id@ {
                    now.detached_from(&was, session.track_mapping@)
                } else {
                    now == was
                }
            }
    }

    /// Whether this unit is `before` after the removal of `subscriber`,
    /// which handed back `gone`: a subscriber with a session leaves the
    /// table and is handed back, its consumers are detached, and the
    /// counter of subscribers goes down by one; the removal of a subscriber
    /// without a session hands back nothing and changes nothing.
    pub open spec fn subscriber_removed(
        &self,
        before: &LocalSfu,
        subscriber: Seq<char>,
        gone: Option<SubscriberSession>,
    ) -> bool {
        &&& gone is Some == before.has_subscriber(subscriber)
        &&& gone is None ==> *self == *before
        &&& gone matches Some(session) ==> {
            &&& session == before.subscribers.at(subscriber)
            &&& self.subscribers.entries() == before.subscribers.entries().remove(subscriber)
            &&& !self.has_subscriber(subscriber)
            &&& self.released(before, session)
            &&& self.id == before.id
            &&& self.config == before.config
            &&& self.metrics.entries() == before.metrics.entries().insert(
                subscribers_counter(),
                shifted(before.counter(subscribers_counter()), -1isize),
            )
        }
    }


    /// The number of tracks over all publishers, stopping at the largest
    /// number that fits.
    pub(crate) fn count_tracks(&self) -> (total: usize)
        requires
            self.publishers.wf(),
        ensures
            total == if tracks_upto(self.publishers.items(), self.publishers.items().len() as int)
                > usize::MAX {
                usize::MAX as nat
            } else {
                tracks_upto(self.publishers.items(), self.publishers.items().len() as int)
            },
    {
        let mut total: usize = 0;
        let mut i: usize = 0;
        while i < self.publishers.len()
            invariant
                self.publishers.wf(),
                i <= self.publishers.names().len(),
                total == if tracks_upto(self.publishers.items(), i as int) > usize::MAX {
                    usize::MAX as nat
                } else {
                    tracks_upto(self.publishers.items(), i as int)
                },
            decreases self.publishers.names().len() - i,
        {
            let tracks = self.publishers.value_at(i).broadcasters.len();
            total = if total > usize::MAX - tracks {
                usize::MAX
            } else {
                total + tracks
            };
            i += 1;
        }
        total
    }

    pub(crate) fn as_metric(count: usize) -> (value: i32)
        ensures
            value == metric(count as nat),
    {
        if count > 0x7fff_ffff {
            0x7fff_ffff
        } else {
            count as i32
        }
    }


    /// Whether the publisher `publisher` is live and has a broadcaster for
    /// the source track `track`.
    pub open spec fn has_track(&self, publisher: Seq<char>, track: Seq<char>) -> bool {
        self.has_publisher(publisher) && self.publishers.at(publisher).has_track(track)
    }

    /// The broadcaster of the source track `track` of `publisher`.
    pub open spec fn track(&self, publisher: Seq<char>, track: Seq<char>) -> TrackBroadcaster {
        self.publishers.at(publisher).track(track)
    }

    /// Serves one keyframe request for the track `track_id` of
    /// `publisher_id` at time `now_ms`: the indication to write to the
    /// publisher, or nothing when the track has no broadcaster, is not
    /// video, or had an indication less than the minimum interval ago.
    pub fn request_keyframe(&self, publisher_id: &str, track_id: &str, now_ms: u64) -> (pli: Option<
        PictureLossIndication,
    >)
        requires
            self.wf(),
        ensures
            pli == if self.has_track(publisher_id@, track_id@) {
                self.track(publisher_id@, track_id@).indication(now_ms)
            } else {
                None
            },
    {
        match self.publishers.get(publisher_id) {
            Some(session) => {
                proof {
                    assert(self.publishers.names().contains(publisher_id@));
                    assert(session.wf());
                }
                match session.get_broadcaster(track_id) {
                    Some(broadcaster) => broadcaster.request_keyframe(now_ms),
                    None => None,
                }
            },
            None => None,
        }
    }

    /// Whether a batch of RTCP packets read from a subscriber of the track
    /// `track_id` of `publisher_id` asks the track's source for a keyframe:
    /// it does when the track has a broadcaster, is video, and the batch
    /// holds a picture loss indication or a full intra request.
    pub fn wants_keyframe(&self, publisher_id: &str, track_id: &str, packets: &Vec<RtcpKind>) -> (wanted:
        bool)
        requires
            self.wf(),
        ensures
            wanted == (self.has_track(publisher_id@, track_id@) && self.track(
                publisher_id@,
                track_id@,
            ).is_video() && holds_keyframe_request(packets@)),
    {
        match self.publishers.get(publisher_id) {
            Some(session) => {
                proof {
                    assert(self.publishers.names().contains(publisher_id@));
                    assert(session.wf());
                }
                match session.get_broadcaster(track_id) {
                    Some(broadcaster) => broadcaster.wants_keyframe(packets),
                    None => false,
                }
            },
            None => false,
        }
    }

    /// Whether this unit is `before` with an indication recorded at `now`
    /// for the track `track` of `publisher`: the time of the track's last
    /// indication moved to `now`, unless it was later already, and nothing
    /// else changed. A track without a broadcaster changes nothing.
    pub open spec fn keyframe_recorded(
        &self,
        before: &LocalSfu,
        publisher: Seq<char>,
        track: Seq<char>,
        now: u64,
    ) -> bool {
        &&& self.id == before.id
        &&& self.config == before.config
        &&& self.subscribers == before.subscribers
        &&& self.metrics == before.metrics
        &&& self.publishers.names() == before.publishers.names()
        &&& self.publishers.items().len() == before.publishers.items().len()
        &&& forall|i: int|
            0 <= i < self.publishers.items().len() ==> {
                let now_session = #[trigger] self.publishers.items()[i];
                let was_session = before.publishers.items()[i];
                if before.publishers.names()[i] == publisher {
                    now_session.stamped_from(&was_session, track, now)
                } else {
                    now_session == was_session
                }
            }
    }

    /// Records that an indication for the track `track_id` of
    /// `publisher_id` was written to the publisher at `now_ms`.
    pub fn keyframe_sent(&mut self, publisher_id: &str, track_id: &str, now_ms: u64)
        requires
            old(self).wf(),
        ensures
            final(self).wf(),
            final(self).keyframe_recorded(old(self), publisher_id@, track_id@, now_ms),
    {
        let ghost before = *self;
        match self.publishers.position(publisher_id) {
            Some(i) => {
                let session = self.publishers.value_mut(i);
                session.stamp(track_id, now_ms);
                proof {
                    assert forall|j: int| 0 <= j < self.publishers.items().len() implies {
                        let now_session = #[trigger] self.publishers.items()[j];
                        let was_session = before.publishers.items()[j];
                        &&& now_session.wf()
                        &&& if before.publishers.names()[j] == publisher_id@ {
                            now_session.stamped_from(&was_session, track_id@, now_ms)
                        } else {
                            now_session == was_session
                        }
                    } by {
                        if j != i {
                            assert(before.publishers.names()[j] != before.publishers.names()[i as int]);
                            assert(self.publishers.items()[j] == before.publishers.items()[j]);
                        }
                    }
                    self.lemma_subscriber_limits_carry_over(&before);
                }
            },
            None => {},
        }
    }

    /// Whether this unit is `before` with every consumer detached from
    /// the broadcaster of the track `track` of `publisher`, and nothing
    /// else changed. A track without a broadcaster changes nothing.
    pub open spec fn track_silenced(
        &self,
        before: &LocalSfu,
        publisher: Seq<char>,
        track: Seq<char>,
    ) -> bool {
        &&& self.id == before.id
        &&& self.config == before.config
        &&& self.subscribers == before.subscribers
        &&& self.metrics == before.metrics
        &&& self.publishers.names() == before.publishers.names()
        &&& self.publishers.items().len() == before.publishers.items().len()
        &&& forall|i: int|
            0 <= i < self.publishers.items().len() ==> {
                let now_session = #[trigger] self.publishers.items()[i];
                let was_session = before.publishers.items()[i];
                if before.publishers.names()[i] == publisher {
                    now_session.silenced_from(&was_session, track)
                } else {
                    now_session == was_session
                }
            }
    }

    /// The producer of the track `track_id` of `publisher_id` has stopped,
    /// because its source is gone or a read has failed: every consumer of
    /// the track is detached, and the local tracks whose consumer tasks the
    /// caller ends are handed back, in the order in which they were
    /// attached. A track without a broadcaster has none.
    pub fn producer_stopped(&mut self, publisher_id: &str, track_id: &str) -> (stopped: Vec<String>)
        requires
            old(self).wf(),
        ensures
            final(self).wf(),
            final(self).track_silenced(old(self), publisher_id@, track_id@),
            stopped.deep_view() == if old(self).has_track(publisher_id@, track_id@) {
                old(self).track(publisher_id@, track_id@).consumer_ids()
            } else {
                Seq::<Seq<char>>::empty()
            },
    {
        let ghost before = *self;
        match self.publishers.position(publisher_id) {
            Some(i) => {
                proof {
                    before.publishers.lemma_at_position(i as int);
                }
                let session = self.publishers.value_mut(i);
                let stopped = session.producer_stopped(track_id);
                proof {
                    assert forall|j: int| 0 <= j < self.publishers.items().len() implies {
                        let now_session = #[trigger] self.publishers.items()[j];
                        let was_session = before.publishers.items()[j];
                        &&& now_session.wf()
                        &&& if before.publishers.names()[j] == publisher_id@ {
                            now_session.silenced_from(&was_session, track_id@)
                        } else {
                            now_session == was_session
                        }
                    } by {
                        if j != i {
                            assert(before.publishers.names()[j] != before.publishers.names()[i as int]);
                            assert(self.publishers.items()[j] == before.publishers.items()[j]);
                        }
                    }
                    self.lemma_subscriber_limits_carry_over(&before);
                }
                stopped
            },
            None => {
                let stopped: Vec<String> = Vec::new();
                assert(stopped.deep_view() =~= Seq::<Seq<char>>::empty());
                stopped
            },
        }
    }

    /// Once the producer of a track has stopped, the track has no consumer
    /// left: whatever was attached to its broadcaster is detached, so that
    /// nothing is written to any of its local tracks from then on.
    pub proof fn lemma_stopped_producer_has_no_consumer(
        after: LocalSfu,
        before: LocalSfu,
        publisher: Seq<char>,
        track: Seq<char>,
        local: Seq<char>,
    )
        requires
            before.wf(),
            after.wf(),
            after.track_silenced(&before, publisher, track),
            before.has_track(publisher, track),
        ensures
            after.has_track(publisher, track),
            after.track(publisher, track).consumer_ids().len() == 0,
            !after.track(publisher, track).consumers().contains(local),
    {
        let i = before.publishers.names().index_of(publisher);
        assert(0 <= i < before.publishers.names().len() && before.publishers.names()[i]
            == publisher);
        let now = after.publishers.items()[i];
        let was = before.publishers.items()[i];
        assert(now.silenced_from(&was, track));
        let t = was.track_ids().index_of(track);
        assert(0 <= t < was.track_ids().len() && was.track_ids()[t] == track);
        assert(was.wf());
        assert(now.wf());
        let broadcaster = now.broadcasters.items()[t];
        assert(broadcaster.consumer_ids() == Seq::<Seq<char>>::empty());
    }

    /// The limit on the subscribers of one publisher carries over from
    /// `before` to a unit that has the same subscribers and the same
    /// configuration.
    pub proof fn lemma_subscriber_limits_carry_over(&self, before: &LocalSfu)
        requires
            self.subscribers.items() == before.subscribers.items(),
            self.config == before.config,
            forall|publisher: Seq<char>| #[trigger]
                before.subscriber_count(publisher)
                    <= before.config.performance.max_subscribers_per_publisher,
        ensures
            forall|publisher: Seq<char>| #[trigger]
                self.subscriber_count(publisher)
                    <= self.config.performance.max_subscribers_per_publisher,
    {
        assert forall|publisher: Seq<char>| #[trigger]
            self.subscriber_count(publisher)
                <= self.config.performance.max_subscribers_per_publisher by {
            assert(self.subscriber_count(publisher) == before.subscriber_count(publisher));
        }
    }

    /// The admission limits hold in every well-formed unit: there are no
    /// more publishers than the cap on publishers, and no publisher has
    /// more subscribers than the cap on the subscribers of one publisher.
    /// Every operation leaves the unit well formed.
    pub proof fn lemma_limits_hold(&self, publisher: Seq<char>)
        requires
            self.wf(),
        ensures
            0 <= self.publisher_count() <= self.config.performance.max_publishers,
            0 <= self.subscriber_count(publisher)
                <= self.config.performance.max_subscribers_per_publisher,
    {
    }

    /// Removing a publisher twice: the first removal of a publisher that
    /// was just recorded hands back its session, the second hands back
    /// nothing and leaves the unit, its counters included, as it was.
    pub proof fn lemma_second_removal_is_idle(
        recorded: LocalSfu,
        once: LocalSfu,
        twice: LocalSfu,
        before: LocalSfu,
        publisher: Seq<char>,
        session: PublisherSession,
        first: Option<PublisherSession>,
        second: Option<PublisherSession>,
    )
        requires
            recorded.publisher_recorded(&before, publisher, session),
            once.publisher_removed(&recorded, publisher, first),
            twice.publisher_removed(&once, publisher, second),
        ensures
            first is Some,
            second is None,
            twice == once,
            twice.counter(publishers_counter()) == once.counter(publishers_counter()),
    {
    }

    /// Once a subscriber is removed, none of its local tracks has a
    /// consumer left: for every pair of its track mapping, the broadcaster
    /// of the source track, where the publisher still has it, no longer
    /// writes to the local track.
    pub proof fn lemma_removed_subscriber_is_detached(
        after: LocalSfu,
        before: LocalSfu,
        subscriber: Seq<char>,
        gone: SubscriberSession,
        pair: int,
    )
        requires
            before.wf(),
            after.wf(),
            after.subscriber_removed(&before, subscriber, Some(gone)),
            0 <= pair < gone.track_mapping@.len(),
            after.has_publisher(gone.publisher_id@),
            after.publishers.at(gone.publisher_id@).has_track(gone.track_mapping@[pair].0@),
        ensures
            !after.publishers.at(gone.publisher_id@).track(
                gone.track_mapping@[pair].0@,
            ).consumers().contains(gone.track_mapping@[pair].1@),
    {
        let publisher = gone.publisher_id@;
        let source = gone.track_mapping@[pair].0@;
        let local = gone.track_mapping@[pair].1@;
        let i = after.publishers.names().index_of(publisher);
        assert(0 <= i < after.publishers.names().len() && after.publishers.names()[i] == publisher);
        let now = after.publishers.items()[i];
        let was = before.publishers.items()[i];
        assert(now.detached_from(&was, gone.track_mapping@));
        let t = now.track_ids().index_of(source);
        assert(0 <= t < now.track_ids().len() && now.track_ids()[t] == source);
        assert(now.wf());
        let broadcaster = now.broadcasters.items()[t];
        assert(broadcaster.consumers() == was.broadcasters.items()[t].consumers().difference(
            crate::local::session::locals_of(gone.track_mapping@, was.track_ids()[t]),
        ));
        assert(crate::local::session::locals_of(gone.track_mapping@, source).contains(local)) by {
            assert(gone.track_mapping@[pair].0@ == source && gone.track_mapping@[pair].1@
                == local);
        }
    }
}

} // verus!
