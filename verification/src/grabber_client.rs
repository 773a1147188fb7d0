//! The decisions of the native capture client.
//!
//! The client authenticates on the grabber channel, waits to be told how to
//! set up its peer connection, sends one offer and waits for the answer.
//! It also describes the capture pipeline that feeds the video track.

use vstd::prelude::*;
use crate::local::broadcaster::CodecCapability;
use crate::local::sfu::{CodecKind, CodecRegistration};
use crate::sfu_core::IceCandidateInit;
use crate::text::{decimal, decimal_text, same_text, text};

verus! {

/// Payload type under which the client registers H.264.
pub const H264_PAYLOAD_TYPE: u8 = 102;

/// Clock rate of the video track.
pub const VIDEO_CLOCK_RATE: u32 = 90000;

/// Duration given to every captured frame, in microseconds.
pub const FRAME_DURATION_MICROS: u64 = 33_333;

/// Number of device indices that are probed when cameras are listed.
pub const CAMERA_PROBE_COUNT: usize = 10;

/// The credential part of a client message.
#[derive(Debug)]
pub struct GrabberAuth {
    pub credential: String,
}

/// The offer or answer part of a client message.
#[derive(Debug)]
pub struct ClientOffer {
    pub type_: String,
    pub sdp: String,
}

/// The ICE part of a client message.
#[derive(Debug)]
pub struct ClientIce {
    pub candidate: IceCandidateInit,
}

/// The envelope that the client exchanges with the server.
#[derive(Debug)]
pub struct ClientMessage {
    pub event: String,
    pub grabber_auth: Option<GrabberAuth>,
    pub offer: Option<ClientOffer>,
    pub answer: Option<ClientOffer>,
    pub ice: Option<ClientIce>,
}

/// Where the client stands.
#[derive(Debug, Clone, Copy, PartialEq, Eq, Structural)]
pub enum ClientPhase {
    /// Nothing was sent yet.
    Idle,
    /// The credential was sent; the configuration is awaited.
    AwaitingInit,
    /// The configuration has arrived; the offer is being made.
    Offering,
    /// The offer was sent; the answer is awaited.
    AwaitingAnswer,
    /// The answer has arrived: frames are published.
    Publishing,
    /// The server has refused the offer, or the connection ended too early.
    Failed,
}

/// What the client does after a message of the server.
#[derive(Debug)]
pub enum ClientStep {
    /// Read the next message.
    Wait,
    /// Set up the peer connection with its video track, create the offer and
    /// set it as the local description.
    MakeOffer,
    /// Hand the candidate to the peer connection and read the next message.
    AddIce(IceCandidateInit),
    /// Set the answer with this SDP as the remote description and start
    /// publishing.
    Publish(String),
    /// Give up with this error.
    Fail(String),
}

/// The operating systems for which a capture pipeline is known.
#[derive(Debug, Clone, Copy, PartialEq, Eq, Structural)]
pub enum Platform {
    MacOs,
    Linux,
    Windows,
}

/// The devices that the client can list.
#[derive(Debug, Clone, Copy, PartialEq, Eq, Structural)]
pub enum DeviceType {
    Screen,
    Webcam,
    All,
}

/// What the capture pipeline reports on its bus.
#[derive(Debug, Clone, Copy, PartialEq, Eq, Structural)]
pub enum BusMessage {
    EndOfStream,
    Error,
    Other,
}

/// The format parameters that the client registers for H.264.
pub open spec fn h264_fmtp() -> Seq<char> {
    "level-asymmetry-allowed=1;packetization-mode=1;profile-level-id=42e01f;x-google-max-bitrate=15000;x-google-min-bitrate=1000;x-google-start-bitrate=5000"@
}

/// The error of an offer that the server refused.
pub open spec fn rejected_text() -> Seq<char> {
    "Server rejected offer: OFFER_FAILED"@
}

/// The error of a connection that ended before the answer.
pub open spec fn closed_early_text() -> Seq<char> {
    "Connection closed before receiving answer"@
}

impl ClientMessage {
    /// Whether the envelope names `event` and carries no part.
    pub open spec fn is_bare(&self, event: Seq<char>) -> bool {
        &&& self.event@ == event
        &&& self.grabber_auth is None
        &&& self.offer is None
        &&& self.answer is None
        &&& self.ice is None
    }

    /// An envelope that names `event` and carries no part.
    pub fn bare(event: &str) -> (message: ClientMessage)
        ensures
            message.is_bare(event@),
    {
        ClientMessage { event: text(event), grabber_auth: None, offer: None, answer: None, ice: None }
    }
}

/// The client of one grabber channel.
#[derive(Debug)]
pub struct WebRTCPublisher {
    pub ws_url: String,
    pub credential: String,
    pub phase: ClientPhase,
}

impl WebRTCPublisher {
    /// A client for the server at `ws_url` that has done nothing yet.
    pub fn new(ws_url: String, credential: String) -> (publisher: Self)
        ensures
            publisher.ws_url == ws_url,
            publisher.credential == credential,
            publisher.phase == ClientPhase::Idle,
    {
        WebRTCPublisher { ws_url, credential, phase: ClientPhase::Idle }
    }

    /// The codec that the client registers with its media engine: H.264
    /// video.
    pub fn video_codec() -> (codec: CodecRegistration)
        ensures
            codec.kind == CodecKind::Video,
            codec.payload_type == H264_PAYLOAD_TYPE,
            codec.capability.mime_type@ == "video/H264"@,
            codec.capability.clock_rate == VIDEO_CLOCK_RATE,
            codec.capability.channels == 0,
            codec.capability.sdp_fmtp_line@ == h264_fmtp(),
            codec.capability.rtcp_feedback@.len() == 0,
    {
        CodecRegistration {
            capability: CodecCapability {
                mime_type: text("video/H264"),
                clock_rate: VIDEO_CLOCK_RATE,
                channels: 0,
                sdp_fmtp_line: text(
                    "level-asymmetry-allowed=1;packetization-mode=1;profile-level-id=42e01f;x-google-max-bitrate=15000;x-google-min-bitrate=1000;x-google-start-bitrate=5000",
                ),
                rtcp_feedback: Vec::new(),
            },
            payload_type: H264_PAYLOAD_TYPE,
            kind: CodecKind::Video,
        }
    }

    /// Starts the exchange: the message that presents the credential.
    pub fn connect_and_publish(&mut self) -> (auth: ClientMessage)
        ensures
            final(self).phase == ClientPhase::AwaitingInit,
            final(self).ws_url == old(self).ws_url,
            final(self).credential == old(self).credential,
            auth.event@ == "AUTH"@,
            auth.grabber_auth matches Some(part) && part.credential@ == old(self).credential@,
            auth.offer is None,
            auth.answer is None,
            auth.ice is None,
    {
        self.phase = ClientPhase::AwaitingInit;
        let mut auth = ClientMessage::bare("AUTH");
        auth.grabber_auth = Some(GrabberAuth { credential: self.credential.clone() });
        auth
    }

    /// The message that carries the client's offer, sent once the offer is
    /// the local description. The answer is awaited from then on.
    pub fn offer_made(&mut self, sdp: String) -> (offer: ClientMessage)
        ensures
            final(self).phase == ClientPhase::AwaitingAnswer,
            final(self).ws_url == old(self).ws_url,
            final(self).credential == old(self).credential,
            offer.event@ == "OFFER"@,
            offer.offer matches Some(part) && part.type_@ == "offer"@ && part.sdp == sdp,
            offer.grabber_auth is None,
            offer.answer is None,
            offer.ice is None,
    {
        self.phase = ClientPhase::AwaitingAnswer;
        let mut offer = ClientMessage::bare("OFFER");
        offer.offer = Some(ClientOffer { type_: text("offer"), sdp });
        offer
    }

    /// The message that carries a local ICE candidate to the server.
    pub fn ice_message(candidate: IceCandidateInit) -> (message: ClientMessage)
        ensures
            message.event@ == "GRABBER_ICE"@,
            message.ice matches Some(part) && part.candidate == candidate,
            message.grabber_auth is None,
            message.offer is None,
            message.answer is None,
    {
        let mut message = ClientMessage::bare("GRABBER_ICE");
        message.ice = Some(ClientIce { candidate });
        message
    }

    /// What the message `msg` of the server makes the client do in the
    /// phase `phase`, and the phase that follows.
    ///
    /// While the configuration is awaited, `INIT_PEER` starts the offer and
    /// everything else is passed over. While the answer is awaited, an
    /// `ANSWER` with an answer part starts publishing, a `SERVER_ICE` with
    /// an ICE part hands on its candidate, `OFFER_FAILED` gives up, and
    /// everything else is passed over. In any other phase the client reads
    /// on.
    pub open spec fn reaction(phase: ClientPhase, msg: ClientMessage, next: ClientPhase, step: ClientStep) -> bool {
        match phase {
            ClientPhase::AwaitingInit => if msg.event@ == "INIT_PEER"@ {
                next == ClientPhase::Offering && step is MakeOffer
            } else {
                next == phase && step is Wait
            },
            ClientPhase::AwaitingAnswer => if msg.event@ == "ANSWER"@ {
                match msg.answer {
                    Some(answer) => next == ClientPhase::Publishing && step == ClientStep::Publish(
                        answer.sdp,
                    ),
                    None => next == phase && step is Wait,
                }
            } else if msg.event@ == "SERVER_ICE"@ {
                next == phase && match msg.ice {
                    Some(ice) => step == ClientStep::AddIce(ice.candidate),
                    None => step is Wait,
                }
            } else if msg.event@ == "OFFER_FAILED"@ {
                next == ClientPhase::Failed && (step matches ClientStep::Fail(m) && m@
                    == rejected_text())
            } else {
                next == phase && step is Wait
            },
            _ => next == phase && step is Wait,
        }
    }

    /// Takes one message of the server. See [`WebRTCPublisher::reaction`].
    pub fn on_message(&mut self, msg: ClientMessage) -> (step: ClientStep)
        ensures
            Self::reaction(old(self).phase, msg, final(self).phase, step),
            final(self).ws_url == old(self).ws_url,
            final(self).credential == old(self).credential,
    {
        match self.phase {
            ClientPhase::AwaitingInit => {
                if same_text(msg.event.as_str(), "INIT_PEER") {
                    self.phase = ClientPhase::Offering;
                    ClientStep::MakeOffer
                } else {
                    ClientStep::Wait
                }
            },
            ClientPhase::AwaitingAnswer => {
                if same_text(msg.event.as_str(), "ANSWER") {
                    match msg.answer {
                        Some(answer) => {
                            self.phase = ClientPhase::Publishing;
                            ClientStep::Publish(answer.sdp)
                        },
                        None => ClientStep::Wait,
                    }
                } else if same_text(msg.event.as_str(), "SERVER_ICE") {
                    match msg.ice {
                        Some(ice) => ClientStep::AddIce(ice.candidate),
                        None => ClientStep::Wait,
                    }
                } else if same_text(msg.event.as_str(), "OFFER_FAILED") {
                    self.phase = ClientPhase::Failed;
                    ClientStep::Fail(text("Server rejected offer: OFFER_FAILED"))
                } else {
                    ClientStep::Wait
                }
            },
            _ => ClientStep::Wait,
        }
    }

    /// The stream of server messages has ended: that is an error unless the
    /// answer has arrived.
    pub fn on_stream_end(&mut self) -> (ended: Result<(), String>)
        ensures
            final(self).ws_url == old(self).ws_url,
            final(self).credential == old(self).credential,
            old(self).phase == ClientPhase::Publishing ==> ended is Ok && final(self).phase
                == ClientPhase::Publishing,
            old(self).phase != ClientPhase::Publishing ==> final(self).phase == ClientPhase::Failed
                && (ended matches Err(m) && m@ == closed_early_text()),
    {
        match self.phase {
            ClientPhase::Publishing => Ok(()),
            _ => {
                self.phase = ClientPhase::Failed;
                Err(text("Connection closed before receiving answer"))
            },
        }
    }
}

/// The description of the pipeline that captures camera `camera_index` at
/// `width` by `height` and `fps` frames per second and encodes it as an
/// H.264 byte stream for the sink named `sink`.
pub open spec fn pipeline_spec(
    platform: Platform,
    camera_index: usize,
    width: u32,
    height: u32,
    fps: u32,
) -> Seq<char> {
    let index = decimal(camera_index as nat);
    let w = decimal(width as nat);
    let h = decimal(height as nat);
    let rate = decimal(fps as nat);
    let gop = decimal((fps * 2) as nat);
    match platform {
        Platform::MacOs => "avfvideosrc device-index="@ + index
            + " ! video/x-raw,format=NV12,width="@ + w + ",height="@ + h + ",framerate="@ + rate
            + "/1 ! vtenc_h264 realtime=true allow-frame-reordering=false max-keyframe-interval=30 quality=0.7 ! h264parse config-interval=1 ! video/x-h264,stream-format=byte-stream,alignment=au ! appsink name=sink sync=false emit-signals=true"@,
        Platform::Linux => "v4l2src device=/dev/video"@ + index + " ! video/x-raw,width="@ + w
            + ",height="@ + h + ",framerate="@ + rate
            + "/1 ! videoconvert ! vaapih264enc bitrate=3000 keyframe-period="@ + gop
            + " ! h264parse ! video/x-h264,stream-format=byte-stream,alignment=au ! appsink name=sink sync=false"@,
        Platform::Windows => "mfvideosrc device-index="@ + index + " ! video/x-raw,width="@ + w
            + ",height="@ + h + ",framerate="@ + rate
            + "/1 ! videoconvert ! mfh264enc bitrate=15000 gop-size="@ + gop
            + " ! h264parse config-interval=1 ! video/x-h264,stream-format=byte-stream,alignment=au ! appsink name=sink sync=false emit-signals=true"@,
    }
}

/// The capture pipeline of a webcam.
#[derive(Debug)]
pub struct GStreamerWebcam {
    /// The description from which the pipeline is launched.
    pub pipeline: String,
}

impl GStreamerWebcam {
    /// Whether a pipeline for `fps` frames per second can be described on
    /// `platform`: where the encoder is told its keyframe distance, which
    /// is two seconds of frames, that distance has to fit in 32 bits.
    pub open spec fn describable(platform: Platform, fps: u32) -> bool {
        platform == Platform::MacOs || fps * 2 <= u32::MAX
    }

    /// The pipeline for camera `camera_index` on `platform`, or nothing
    /// where the frame rate is too high to describe one.
    pub fn new(platform: Platform, camera_index: usize, width: u32, height: u32, fps: u32) -> (webcam:
        Option<Self>)
        ensures
            Self::describable(platform, fps) ==> (webcam matches Some(w) && w.pipeline@
                == pipeline_spec(platform, camera_index, width, height, fps)),
            !Self::describable(platform, fps) ==> webcam is None,
    {
        let index = decimal_text(camera_index);
        let w = decimal_text(width as usize);
        let h = decimal_text(height as usize);
        let rate = decimal_text(fps as usize);
        let mut pipeline = match platform {
            Platform::MacOs => text("avfvideosrc device-index="),
            Platform::Linux => text("v4l2src device=/dev/video"),
            Platform::Windows => text("mfvideosrc device-index="),
        };
        pipeline.append(index.as_str());
        match platform {
            Platform::MacOs => {
                pipeline.append(" ! video/x-raw,format=NV12,width=");
            },
            _ => {
                pipeline.append(" ! video/x-raw,width=");
            },
        }
        pipeline.append(w.as_str());
        pipeline.append(",height=");
        pipeline.append(h.as_str());
        pipeline.append(",framerate=");
        pipeline.append(rate.as_str());
        match platform {
            Platform::MacOs => {
                pipeline.append(
                    "/1 ! vtenc_h264 realtime=true allow-frame-reordering=false max-keyframe-interval=30 quality=0.7 ! h264parse config-interval=1 ! video/x-h264,stream-format=byte-stream,alignment=au ! appsink name=sink sync=false emit-signals=true",
                );
            },
            Platform::Linux => {
                if fps > u32::MAX / 2 {
                    return None;
                }
                let gop = decimal_text((fps * 2) as usize);
                pipeline.append("/1 ! videoconvert ! vaapih264enc bitrate=3000 keyframe-period=");
                pipeline.append(gop.as_str());
                pipeline.append(
                    " ! h264parse ! video/x-h264,stream-format=byte-stream,alignment=au ! appsink name=sink sync=false",
                );
            },
            Platform::Windows => {
                if fps > u32::MAX / 2 {
                    return None;
                }
                let gop = decimal_text((fps * 2) as usize);
                pipeline.append("/1 ! videoconvert ! mfh264enc bitrate=15000 gop-size=");
                pipeline.append(gop.as_str());
                pipeline.append(
                    " ! h264parse config-interval=1 ! video/x-h264,stream-format=byte-stream,alignment=au ! appsink name=sink sync=false emit-signals=true",
                );
            },
        }
        Some(GStreamerWebcam { pipeline })
    }

    /// Whether capturing goes on after `message` on the pipeline's bus: the
    /// end of the stream and an error end it.
    pub fn start_capture(message: BusMessage) -> (goes_on: bool)
        ensures
            goes_on == (message == BusMessage::Other),
    {
        match message {
            BusMessage::Other => true,
            _ => false,
        }
    }
}

/// The description of the pipeline that probes camera `index`.
pub fn camera_probe(index: usize) -> (pipeline: String)
    ensures
        pipeline@ == "avfvideosrc device-index="@ + decimal(index as nat) + " ! fakesink"@,
{
    let number = decimal_text(index);
    let mut pipeline = text("avfvideosrc device-index=");
    pipeline.append(number.as_str());
    pipeline.append(" ! fakesink");
    pipeline
}

/// The line that lists camera `index`.
pub open spec fn camera_line(index: nat) -> Seq<char> {
    "Camera "@ + decimal(index) + ": AVFoundation device"@
}

/// The cameras to list. Where cameras can be probed, `ready` says for each
/// probed device index whether the device answered, and every device that
/// did is listed; elsewhere the list says that it cannot be made.
pub fn list_cameras(platform: Platform, ready: &Vec<bool>) -> (cameras: Vec<String>)
    ensures
        platform != Platform::MacOs ==> cameras.deep_view() == seq![
            "Camera listing not implemented for this platform"@,
        ],
        platform == Platform::MacOs ==> cameras.deep_view() == listed(ready@, ready@.len() as int),
{
    let mut cameras: Vec<String> = Vec::new();
    match platform {
        Platform::MacOs => {},
        _ => {
            cameras.push(text("Camera listing not implemented for this platform"));
            assert(cameras.deep_view() =~= seq![
                "Camera listing not implemented for this platform"@,
            ]);
            return cameras;
        },
    }
    let mut i: usize = 0;
    assert(cameras.deep_view() =~= listed(ready@, 0));
    while i < ready.len()
        invariant
            i <= ready@.len(),
            cameras.deep_view() == listed(ready@, i as int),
        decreases ready@.len() - i,
    {
        if ready[i] {
            let number = decimal_text(i);
            let mut line = text("Camera ");
            line.append(number.as_str());
            line.append(": AVFoundation device");
            let ghost before = cameras.deep_view();
            cameras.push(line);
            assert(cameras.deep_view() =~= before.push(camera_line(i as nat)));
        }
        i += 1;
    }
    cameras
}

/// The lines for the devices that answered among the first `n` probed.
pub open spec fn listed(ready: Seq<bool>, n: int) -> Seq<Seq<char>>
    decreases n,
{
    if n <= 0 {
        Seq::empty()
    } else if ready[n - 1] {
        listed(ready, n - 1).push(camera_line((n - 1) as nat))
    } else {
        listed(ready, n - 1)
    }
}

/// Which devices the listing of `device_type` covers: displays and cameras.
pub fn handle_list(device_type: DeviceType) -> (sections: (bool, bool))
    ensures
        sections.0 == (device_type == DeviceType::Screen || device_type == DeviceType::All),
        sections.1 == (device_type == DeviceType::Webcam || device_type == DeviceType::All),
{
    match device_type {
        DeviceType::Screen => (true, false),
        DeviceType::Webcam => (false, true),
        DeviceType::All => (true, true),
    }
}

} // verus!
