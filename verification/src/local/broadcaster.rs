//! The per-track fan-out engine.
//!
//! A broadcaster stands for one remote track. It knows which local tracks
//! consume it, decides what the producer and each consumer do with the
//! outcome of their last read or write, and rate-limits the keyframe
//! requests that go back to the source.

use vstd::prelude::*;
use crate::table::Table;
use crate::text::{join2, same_text, text};

verus! {

/// Minimum distance between two keyframe requests sent upstream.
pub const PLI_MIN_INTERVAL_MS: u64 = 500;

/// A consumer that has skipped more packets than this asks for a keyframe.
pub const LAG_KEYFRAME_THRESHOLD: u64 = 10;

/// Number of keyframe requests raised for a new subscriber.
pub const KEYFRAME_BURST_LEN: usize = 3;

/// Distance between the requests of one burst.
pub const KEYFRAME_BURST_SPACING_MS: u64 = 300;

/// One RTCP feedback capability of a codec.
#[derive(Debug, Clone)]
pub struct RtcpFeedback {
    pub typ: String,
    pub parameter: String,
}

/// The codec parameters negotiated for a track.
#[derive(Debug, Clone)]
pub struct CodecCapability {
    pub mime_type: String,
    pub clock_rate: u32,
    pub channels: u16,
    pub sdp_fmtp_line: String,
    pub rtcp_feedback: Vec<RtcpFeedback>,
}

/// A codec capability as plain sequences.
pub ghost struct CodecCapabilityView {
    pub mime_type: Seq<char>,
    pub clock_rate: u32,
    pub channels: u16,
    pub sdp_fmtp_line: Seq<char>,
    pub rtcp_feedback: Seq<(Seq<char>, Seq<char>)>,
}

impl View for RtcpFeedback {
    type V = (Seq<char>, Seq<char>);

    open spec fn view(&self) -> (Seq<char>, Seq<char>) {
        (self.typ@, self.parameter@)
    }
}

impl View for CodecCapability {
    type V = CodecCapabilityView;

    open spec fn view(&self) -> CodecCapabilityView {
        CodecCapabilityView {
            mime_type: self.mime_type@,
            clock_rate: self.clock_rate,
            channels: self.channels,
            sdp_fmtp_line: self.sdp_fmtp_line@,
            rtcp_feedback: Seq::new(
                self.rtcp_feedback@.len(),
                |i: int| self.rtcp_feedback@[i]@,
            ),
        }
    }
}

impl CodecCapability {
    /// Whether the capability names `mime` and leaves everything else at
    /// its zero value.
    pub open spec fn is_bare(&self, mime: Seq<char>) -> bool {
        self@ == (CodecCapabilityView {
            mime_type: mime,
            clock_rate: 0,
            channels: 0,
            sdp_fmtp_line: Seq::empty(),
            rtcp_feedback: Seq::empty(),
        })
    }

    /// A capability that names `mime` and nothing else.
    pub fn bare(mime: String) -> (capability: CodecCapability)
        ensures
            capability.is_bare(mime@),
    {
        let capability = CodecCapability {
            mime_type: mime,
            clock_rate: 0,
            channels: 0,
            sdp_fmtp_line: String::new(),
            rtcp_feedback: Vec::new(),
        };
        assert(capability@.rtcp_feedback =~= Seq::empty());
        capability
    }

    /// A copy of the capability.
    pub fn duplicate(&self) -> (copy: CodecCapability)
        ensures
            copy@ == self@,
    {
        let mut feedback: Vec<RtcpFeedback> = Vec::new();
        let mut i: usize = 0;
        while i < self.rtcp_feedback.len()
            invariant
                i <= self.rtcp_feedback@.len(),
                feedback@.len() == i,
                forall|j: int| 0 <= j < i ==> feedback@[j]@ == self.rtcp_feedback@[j]@,
            decreases self.rtcp_feedback@.len() - i,
        {
            let item = &self.rtcp_feedback[i];
            feedback.push(RtcpFeedback { typ: item.typ.clone(), parameter: item.parameter.clone() });
            i += 1;
        }
        let copy = CodecCapability {
            mime_type: self.mime_type.clone(),
            clock_rate: self.clock_rate,
            channels: self.channels,
            sdp_fmtp_line: self.sdp_fmtp_line.clone(),
            rtcp_feedback: feedback,
        };
        assert(copy@.rtcp_feedback =~= self@.rtcp_feedback);
        copy
    }
}

/// What the broadcaster reads from the remote track it is built on.
#[derive(Debug, Clone)]
pub struct RemoteTrack {
    pub id: String,
    pub kind: String,
    pub ssrc: u32,
}

/// A Picture Loss Indication addressed to a media source.
#[derive(Debug, Clone, Copy, PartialEq, Eq, Structural)]
pub struct PictureLossIndication {
    pub sender_ssrc: u32,
    pub media_ssrc: u32,
}

/// How a read from the remote track or a write to a local track ended.
#[derive(Debug)]
pub enum TrackIo {
    Done,
    ClosedPipe,
    ConnectionClosed,
    Failed(String),
}

/// What the producer does after a read.
#[derive(Debug, Clone, Copy, PartialEq, Eq, Structural)]
pub enum ProducerStep {
    /// Publish the packet on the fan-out channel and read again.
    Publish,
    /// The source is gone: end the task quietly, and its consumers with
    /// it.
    StopClosed,
    /// The read failed: report it and end the task, and its consumers with
    /// it.
    StopFailed,
}

/// What a consumer got from the fan-out channel.
#[derive(Debug, Clone, Copy, PartialEq, Eq, Structural)]
pub enum Received {
    Packet,
    Lagged(u64),
    Closed,
}

/// What a consumer does next.
#[derive(Debug, Clone, Copy, PartialEq, Eq, Structural)]
pub enum ConsumerStep {
    /// Write the packet to the local track.
    Write,
    /// Packets were skipped: go on at the head of the channel, and ask for
    /// a keyframe if the flag is set.
    Resume { request_keyframe: bool },
    /// End the task quietly.
    Stop,
    /// Report the failure and end the task.
    StopFailed,
    /// Take the next packet from the channel.
    Continue,
}

/// The kinds of RTCP packet that the subscriber side tells apart.
#[derive(Debug, Clone, Copy, PartialEq, Eq, Structural)]
pub enum RtcpKind {
    PictureLossIndication,
    FullIntraRequest,
    Other,
}

/// The mime type assumed for a track whose receiver reports no codec.
pub open spec fn default_mime_spec(kind: Seq<char>) -> Seq<char> {
    if kind == "video"@ {
        "video/VP8"@
    } else if kind == "audio"@ {
        "audio/opus"@
    } else {
        kind + "/unknown"@
    }
}

/// The mime type assumed for a track of `kind` whose receiver reports no
/// codec.
pub fn default_mime(kind: &str) -> (mime: String)
    ensures
        mime@ == default_mime_spec(kind@),
{
    if same_text(kind, "video") {
        text("video/VP8")
    } else if same_text(kind, "audio") {
        text("audio/opus")
    } else {
        join2(kind, "/unknown")
    }
}

/// The mime type and codec capability of an incoming track: those of the
/// first codec that the receiver negotiated, or a default by media kind.
pub fn negotiated_codec(kind: &str, first: Option<CodecCapability>) -> (codec: (
    String,
    CodecCapability,
))
    ensures
        match first {
            Some(capability) => codec.0@ == capability.mime_type@ && codec.1@ == capability@,
            None => codec.0@ == default_mime_spec(kind@) && codec.1.is_bare(
                default_mime_spec(kind@),
            ),
        },
{
    match first {
        Some(capability) => (capability.mime_type.clone(), capability),
        None => {
            let mime = default_mime(kind);
            (mime.clone(), CodecCapability::bare(mime))
        },
    }
}

/// What the producer does after a read from the remote track.
pub fn on_source_read(outcome: &TrackIo) -> (step: ProducerStep)
    ensures
        step == match outcome {
            TrackIo::Done => ProducerStep::Publish,
            TrackIo::ClosedPipe => ProducerStep::StopClosed,
            TrackIo::ConnectionClosed => ProducerStep::StopClosed,
            TrackIo::Failed(_) => ProducerStep::StopFailed,
        },
{
    match outcome {
        TrackIo::Done => ProducerStep::Publish,
        TrackIo::ClosedPipe => ProducerStep::StopClosed,
        TrackIo::ConnectionClosed => ProducerStep::StopClosed,
        TrackIo::Failed(_) => ProducerStep::StopFailed,
    }
}

/// What a consumer does with what it got from the fan-out channel.
pub fn on_receive(received: Received) -> (step: ConsumerStep)
    ensures
        step == receive_step(received),
{
    match received {
        Received::Packet => ConsumerStep::Write,
        Received::Lagged(skipped) => ConsumerStep::Resume {
            request_keyframe: skipped > LAG_KEYFRAME_THRESHOLD,
        },
        Received::Closed => ConsumerStep::Stop,
    }
}

/// What a consumer does after a write to its local track.
pub fn on_write(outcome: &TrackIo) -> (step: ConsumerStep)
    ensures
        step == write_step(*outcome),
{
    match outcome {
        TrackIo::Done => ConsumerStep::Continue,
        TrackIo::ClosedPipe => ConsumerStep::Stop,
        TrackIo::ConnectionClosed => ConsumerStep::Stop,
        TrackIo::Failed(_) => ConsumerStep::StopFailed,
    }
}

/// Whether a keyframe request may go upstream at `now`, given the time of
/// the last one that was sent.
pub open spec fn pli_due(last: Option<u64>, now: u64) -> bool {
    match last {
        Some(sent) => now - sent >= PLI_MIN_INTERVAL_MS,
        None => true,
    }
}

/// The time of the last indication after one was written at `now`: the
/// recorded time never moves back.
pub open spec fn after_sent(last: Option<u64>, now: u64) -> Option<u64> {
    match last {
        Some(sent) => Some(if sent <= now { now } else { sent }),
        None => Some(now),
    }
}

/// The times at which an indication reaches the publisher of a video track
/// when `requests` are served one after the other, starting from the time
/// `last` of the last indication. A request is the time at which it is
/// served and whether the write to the publisher succeeds.
pub open spec fn emissions(last: Option<u64>, requests: Seq<(u64, bool)>) -> Seq<u64>
    decreases requests.len(),
{
    if requests.len() == 0 {
        Seq::empty()
    } else if pli_due(last, requests[0].0) && requests[0].1 {
        seq![requests[0].0] + emissions(after_sent(last, requests[0].0), requests.skip(1))
    } else {
        emissions(last, requests.skip(1))
    }
}

/// Indications are at least the minimum interval apart: whatever requests
/// are served and in whatever order, any two indications that reach the
/// publisher are that far apart, and the first is that far from the last
/// one before.
pub proof fn lemma_pli_spacing(last: Option<u64>, requests: Seq<(u64, bool)>)
    ensures
        forall|i: int, j: int|
            0 <= i < j < emissions(last, requests).len() ==> emissions(last, requests)[j]
                - emissions(last, requests)[i] >= PLI_MIN_INTERVAL_MS,
        forall|i: int|
            0 <= i < emissions(last, requests).len() ==> pli_due(
                last,
                #[trigger] emissions(last, requests)[i],
            ),
    decreases requests.len(),
{
    if requests.len() == 0 {
        assert(emissions(last, requests).len() == 0);
    } else if pli_due(last, requests[0].0) && requests[0].1 {
        let now = requests[0].0;
        let rest = emissions(after_sent(last, now), requests.skip(1));
        lemma_pli_spacing(after_sent(last, now), requests.skip(1));
        assert(after_sent(last, now) == Some(now));
        assert(emissions(last, requests) =~= seq![now] + rest);
        assert forall|i: int, j: int| 0 <= i < j < emissions(last, requests).len() implies emissions(
            last,
            requests,
        )[j] - emissions(last, requests)[i] >= PLI_MIN_INTERVAL_MS by {
            assert(pli_due(Some(now), rest[j - 1]));
            if i > 0 {
                assert(rest[j - 1] - rest[i - 1] >= PLI_MIN_INTERVAL_MS);
            }
        }
        assert forall|i: int| 0 <= i < emissions(last, requests).len() implies pli_due(
            last,
            #[trigger] emissions(last, requests)[i],
        ) by {
            if i > 0 {
                assert(pli_due(Some(now), rest[i - 1]));
            }
        }
    } else {
        lemma_pli_spacing(last, requests.skip(1));
        assert(emissions(last, requests) == emissions(last, requests.skip(1)));
    }
}

/// What a consumer does with what it got from the fan-out channel.
pub open spec fn receive_step(received: Received) -> ConsumerStep {
    match received {
        Received::Packet => ConsumerStep::Write,
        Received::Lagged(skipped) => ConsumerStep::Resume {
            request_keyframe: skipped > LAG_KEYFRAME_THRESHOLD,
        },
        Received::Closed => ConsumerStep::Stop,
    }
}

/// What a consumer does after a write to its local track.
pub open spec fn write_step(outcome: TrackIo) -> ConsumerStep {
    match outcome {
        TrackIo::Done => ConsumerStep::Continue,
        TrackIo::ClosedPipe => ConsumerStep::Stop,
        TrackIo::ConnectionClosed => ConsumerStep::Stop,
        TrackIo::Failed(_) => ConsumerStep::StopFailed,
    }
}

/// The turns, from turn `from` on, at which a consumer writes a packet to
/// its local track. A turn is what the consumer got from the fan-out
/// channel and, for a packet, how the write went. The consumer writes
/// every packet it gets, goes on after a gap, and stops when the channel
/// is closed or a write fails.
pub open spec fn written(turns: Seq<(Received, TrackIo)>, from: int) -> Seq<int>
    decreases turns.len() - from,
{
    if from < 0 || from >= turns.len() {
        Seq::empty()
    } else {
        match receive_step(turns[from].0) {
            ConsumerStep::Write => if write_step(turns[from].1) == ConsumerStep::Continue {
                seq![from] + written(turns, from + 1)
            } else {
                seq![from]
            },
            ConsumerStep::Stop => Seq::empty(),
            _ => written(turns, from + 1),
        }
    }
}

/// A consumer forwards what it gets in the order in which it gets it: the
/// turns at which it writes are in increasing order, each of them holds a
/// packet, and no packet that arrived before a packet it wrote was left
/// out. What the consumer delivers is so a run of the channel's packets in
/// the channel's order, broken only where the channel reports a gap.
pub proof fn lemma_consumer_keeps_order(turns: Seq<(Received, TrackIo)>, from: int)
    requires
        0 <= from,
    ensures
        forall|i: int|
            0 <= i < written(turns, from).len() ==> from <= (#[trigger] written(turns, from)[i])
                < turns.len() && turns[written(turns, from)[i]].0 == Received::Packet,
        forall|i: int, j: int|
            0 <= i < j < written(turns, from).len() ==> written(turns, from)[i] < written(
                turns,
                from,
            )[j],
        forall|k: int, j: int|
            0 <= j < written(turns, from).len() && from <= k < (#[trigger] written(turns, from)[j])
                && (#[trigger] turns[k]).0 == Received::Packet ==> written(turns, from).contains(k),
    decreases turns.len() - from,
{
    if from >= turns.len() {
    } else {
        let here = written(turns, from);
        match receive_step(turns[from].0) {
            ConsumerStep::Write => {
                if write_step(turns[from].1) == ConsumerStep::Continue {
                    let rest = written(turns, from + 1);
                    lemma_consumer_keeps_order(turns, from + 1);
                    assert(here =~= seq![from] + rest);
                    assert forall|i: int| 0 <= i < here.len() implies from <= (#[trigger] here[i])
                        < turns.len() && turns[here[i]].0 == Received::Packet by {
                        if i > 0 {
                            assert(here[i] == rest[i - 1]);
                        }
                    }
                    assert forall|i: int, j: int| 0 <= i < j < here.len() implies here[i]
                        < here[j] by {
                        assert(here[j] == rest[j - 1]);
                        if i > 0 {
                            assert(here[i] == rest[i - 1]);
                        }
                    }
                    assert forall|k: int, j: int|
                        0 <= j < here.len() && from <= k < (#[trigger] here[j]) && (
                        #[trigger] turns[k]).0 == Received::Packet implies here.contains(k) by {
                        if k == from {
                            assert(here[0] == k);
                        } else {
                            assert(here[j] == rest[j - 1]);
                            assert(rest.contains(k));
                            let at = rest.index_of(k);
                            assert(here[at + 1] == k);
                        }
                    }
                } else {
                    assert(here =~= seq![from]);
                }
            },
            ConsumerStep::Stop => {},
            _ => {
                lemma_consumer_keeps_order(turns, from + 1);
                assert(here == written(turns, from + 1));
                assert forall|k: int, j: int|
                    0 <= j < here.len() && from <= k < (#[trigger] here[j]) && (
                    #[trigger] turns[k]).0 == Received::Packet implies here.contains(k) by {
                    assert(k != from);
                }
            },
        }
    }
}

/// Whether a batch of RTCP packets holds a keyframe request.
pub open spec fn holds_keyframe_request(packets: Seq<RtcpKind>) -> bool {
    exists|i: int|
        0 <= i < packets.len() && (packets[i] == RtcpKind::PictureLossIndication || packets[i]
            == RtcpKind::FullIntraRequest)
}

/// The delays, from now, after which keyframe requests are raised for a new
/// subscriber of a track of `kind`: a burst for video, nothing for any
/// other kind.
pub open spec fn burst_spec(kind: Seq<char>) -> Seq<u64> {
    if kind == "video"@ {
        seq![0u64, KEYFRAME_BURST_SPACING_MS, (2 * KEYFRAME_BURST_SPACING_MS) as u64]
    } else {
        Seq::empty()
    }
}

/// The delays, from now, after which keyframe requests are raised for a new
/// subscriber of a track of `kind`.
pub fn keyframe_burst(kind: &str) -> (delays: Vec<u64>)
    ensures
        delays@ == burst_spec(kind@),
{
    let mut delays: Vec<u64> = Vec::new();
    if !same_text(kind, "video") {
        return delays;
    }
    let mut i: usize = 0;
    while i < KEYFRAME_BURST_LEN
        invariant
            i <= KEYFRAME_BURST_LEN,
            delays@.len() == i,
            forall|j: int| 0 <= j < i ==> delays@[j] == j * KEYFRAME_BURST_SPACING_MS,
        decreases KEYFRAME_BURST_LEN - i,
    {
        delays.push((i as u64) * KEYFRAME_BURST_SPACING_MS);
        i += 1;
    }
    assert(delays@ =~= seq![
        0u64,
        KEYFRAME_BURST_SPACING_MS,
        (2 * KEYFRAME_BURST_SPACING_MS) as u64,
    ]);
    delays
}

/// The fan-out state of one remote track.
#[derive(Debug)]
pub struct TrackBroadcaster {
    pub id: String,
    pub kind: String,
    pub mime_type: String,
    pub ssrc: u32,
    pub codec_capability: CodecCapability,
    pub channel_capacity: usize,
    pub subscribers: Table<()>,
    pub last_pli_time: Option<u64>,
}

impl TrackBroadcaster {
    /// The ids of the local tracks that a consumer task writes to.
    pub open spec fn consumers(&self) -> Set<Seq<char>> {
        self.subscribers.entries().dom()
    }

    /// The local track ids in the order in which they were attached.
    pub open spec fn consumer_ids(&self) -> Seq<Seq<char>> {
        self.subscribers.names()
    }

    /// No local track is attached twice.
    pub open spec fn wf(&self) -> bool {
        self.subscribers.wf()
    }

    /// Whether the track carries video.
    pub open spec fn is_video(&self) -> bool {
        self.kind@ == "video"@
    }

    /// Whether `other` is this broadcaster but for its consumers and the
    /// time of its last keyframe request.
    pub open spec fn same_track(&self, other: &TrackBroadcaster) -> bool {
        &&& self.id == other.id
        &&& self.kind == other.kind
        &&& self.mime_type == other.mime_type
        &&& self.ssrc == other.ssrc
        &&& self.codec_capability@ == other.codec_capability@
        &&& self.channel_capacity == other.channel_capacity
    }

    /// A broadcaster for `source_track` with no consumer attached.
    pub fn new(
        source_track: RemoteTrack,
        mime_type: String,
        codec_capability: CodecCapability,
        channel_capacity: usize,
    ) -> (broadcaster: Self)
        ensures
            broadcaster.wf(),
            broadcaster.id == source_track.id,
            broadcaster.kind == source_track.kind,
            broadcaster.ssrc == source_track.ssrc,
            broadcaster.mime_type == mime_type,
            broadcaster.codec_capability@ == codec_capability@,
            broadcaster.channel_capacity == channel_capacity,
            broadcaster.consumer_ids() == Seq::<Seq<char>>::empty(),
            broadcaster.last_pli_time == None::<u64>,
    {
        TrackBroadcaster {
            id: source_track.id,
            kind: source_track.kind,
            mime_type,
            ssrc: source_track.ssrc,
            codec_capability,
            channel_capacity,
            subscribers: Table::new(),
            last_pli_time: None,
        }
    }

    /// The indication that a keyframe request served at `now` sends to the
    /// publisher: one for the track's source, provided the track is video
    /// and the last indication is at least the minimum interval old.
    pub open spec fn indication(&self, now: u64) -> Option<PictureLossIndication> {
        if self.is_video() && pli_due(self.last_pli_time, now) {
            Some(PictureLossIndication { sender_ssrc: 0, media_ssrc: self.ssrc })
        } else {
            None
        }
    }

    /// Serves one keyframe request at time `now_ms`: the indication to write
    /// to the publisher, or nothing when the track is not video or the last
    /// indication is less than the minimum interval old.
    pub fn request_keyframe(&self, now_ms: u64) -> (pli: Option<PictureLossIndication>)
        ensures
            pli == self.indication(now_ms),
    {
        if !same_text(self.kind.as_str(), "video") {
            return None;
        }
        let due = match self.last_pli_time {
            Some(sent) => now_ms >= sent && now_ms - sent >= PLI_MIN_INTERVAL_MS,
            None => true,
        };
        if due {
            Some(PictureLossIndication { sender_ssrc: 0, media_ssrc: self.ssrc })
        } else {
            None
        }
    }

    /// Records that an indication was written to the publisher at `now_ms`.
    /// The recorded time never moves back.
    pub fn keyframe_sent(&mut self, now_ms: u64)
        ensures
            final(self).same_track(old(self)),
            final(self).consumers() == old(self).consumers(),
            final(self).consumer_ids() == old(self).consumer_ids(),
            final(self).wf() == old(self).wf(),
            final(self).last_pli_time == after_sent(old(self).last_pli_time, now_ms),
    {
        let later = match self.last_pli_time {
            Some(sent) => if sent <= now_ms { now_ms } else { sent },
            None => now_ms,
        };
        self.last_pli_time = Some(later);
    }

    /// The delays, from now, after which a keyframe request is raised for a
    /// subscriber that has just been attached: a burst for video, nothing
    /// for any other kind.
    pub fn request_keyframe_with_retries(&self) -> (delays: Vec<u64>)
        ensures
            delays@ == burst_spec(self.kind@),
    {
        keyframe_burst(self.kind.as_str())
    }

    /// Whether a batch of RTCP packets read from a subscriber makes this
    /// broadcaster ask its source for a keyframe.
    pub fn wants_keyframe(&self, packets: &Vec<RtcpKind>) -> (wanted: bool)
        ensures
            wanted == (self.is_video() && holds_keyframe_request(packets@)),
    {
        if !same_text(self.kind.as_str(), "video") {
            return false;
        }
        let mut i: usize = 0;
        while i < packets.len()
            invariant
                i <= packets.len(),
                self.is_video(),
                forall|j: int|
                    0 <= j < i ==> packets@[j] != RtcpKind::PictureLossIndication && packets@[j]
                        != RtcpKind::FullIntraRequest,
            decreases packets.len() - i,
        {
            match packets[i] {
                RtcpKind::PictureLossIndication => {
                    assert(packets@[i as int] == RtcpKind::PictureLossIndication);
                    return true;
                },
                RtcpKind::FullIntraRequest => {
                    assert(packets@[i as int] == RtcpKind::FullIntraRequest);
                    return true;
                },
                RtcpKind::Other => {},
            }
            i += 1;
        }
        false
    }

    /// The number of consumers attached.
    pub fn subscriber_count(&self) -> (count: usize)
        ensures
            count == self.consumer_ids().len(),
    {
        self.subscribers.len()
    }

    /// Whether a consumer writes to the local track `track_id`.
    pub fn has_subscriber(&self, track_id: &str) -> (attached: bool)
        requires
            self.wf(),
        ensures
            attached == self.consumers().contains(track_id@),
    {
        self.subscribers.position(track_id).is_some()
    }

    /// Attaches a consumer that writes to the local track `track_id`, and
    /// hands back the delays of the keyframe burst to raise for it. A new
    /// local track goes to the end of the consumers; one that is attached
    /// already keeps its place.
    pub fn add_subscriber(&mut self, track_id: String) -> (delays: Vec<u64>)
        requires
            old(self).wf(),
        ensures
            final(self).wf(),
            final(self).same_track(old(self)),
            final(self).last_pli_time == old(self).last_pli_time,
            final(self).consumers() == old(self).consumers().insert(track_id@),
            final(self).consumer_ids() == if old(self).consumers().contains(track_id@) {
                old(self).consumer_ids()
            } else {
                old(self).consumer_ids().push(track_id@)
            },
            delays@ == burst_spec(old(self).kind@),
    {
        self.subscribers.insert(track_id, ());
        self.request_keyframe_with_retries()
    }

    /// Detaches the consumer of the local track `track_id`, whose task the
    /// caller aborts, and says whether there was one. Nothing changes when
    /// no such consumer is attached.
    pub fn remove_subscriber(&mut self, track_id: &str) -> (detached: bool)
        requires
            old(self).wf(),
        ensures
            final(self).wf(),
            final(self).same_track(old(self)),
            final(self).last_pli_time == old(self).last_pli_time,
            final(self).consumers() == old(self).consumers().remove(track_id@),
            detached == old(self).consumers().contains(track_id@),
            final(self).consumer_ids() == if detached {
                old(self).consumer_ids().remove(old(self).consumer_ids().index_of(track_id@))
            } else {
                old(self).consumer_ids()
            },
    {
        self.subscribers.remove(track_id).is_some()
    }

    /// The producer has stopped: every consumer is detached, and the local
    /// tracks whose consumer tasks the caller ends are handed back, in the
    /// order in which they were attached. Nothing is written to a local
    /// track of this broadcaster afterwards.
    pub fn producer_stopped(&mut self) -> (stopped: Vec<String>)
        requires
            old(self).wf(),
        ensures
            final(self).wf(),
            final(self).same_track(old(self)),
            final(self).last_pli_time == old(self).last_pli_time,
            final(self).consumer_ids() == Seq::<Seq<char>>::empty(),
            final(self).consumers() == Set::<Seq<char>>::empty(),
            stopped.deep_view() == old(self).consumer_ids(),
    {
        let mut emptied: Table<()> = Table::new();
        std::mem::swap(&mut emptied, &mut self.subscribers);
        assert(self.consumers() =~= Set::<Seq<char>>::empty());
        emptied.into_names()
    }
}

} // verus!
