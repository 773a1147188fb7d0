//! Session set-up as a sequence of steps.
//!
//! Admitting a publisher or a subscriber takes work that only the media
//! stack can do: a peer connection is created, local tracks are added, and
//! an offer is answered. The forwarding unit decides what is done and in
//! which order. It hands out one command at a time, is told how the command
//! went, and records the session once the last step has succeeded.

use vstd::prelude::*;
use crate::local::broadcaster::{CodecCapability, RemoteTrack};
use crate::local::error::SfuError;
use crate::local::session::{PublisherSession, SubscriberSession};
use crate::local::sfu::{
    lemma_listeners_push,
    lemma_listeners_update,
    publisher_limit_text,
    publishers_counter,
    shifted,
    subscriber_limit_text,
    subscribers_counter,
    LocalSfu,
};
use crate::sfu_core::{
    PublisherResponse,
    PublisherUpdateResponse,
    SessionDescription,
    SubscriberResponse,
};
use crate::text::{join2, join3, text};

verus! {

/// What a negotiation sets up.
#[derive(Debug, Clone, Copy, PartialEq, Eq, Structural)]
pub enum Flow {
    AddPublisher,
    UpdatePublisher,
    AddSubscriber,
}

/// The step whose outcome a negotiation waits for.
#[derive(Debug, Clone, Copy, PartialEq, Eq, Structural)]
pub enum Stage {
    /// The peer connection is being created.
    PeerConnection,
    /// A local track is being added to the peer connection.
    Tracks,
    /// The offer is being set as the remote description.
    RemoteDescription,
    /// The answer is being created.
    Answer,
    /// The answer is being set as the local description.
    LocalDescription,
    /// Nothing is awaited: the negotiation has succeeded or failed.
    Finished,
}

/// A local track that carries one source track to one subscriber.
#[derive(Debug)]
pub struct LocalTrack {
    pub source_track_id: String,
    pub local_track_id: String,
    pub stream_id: String,
    pub kind: String,
    pub capability: CodecCapability,
}

/// What the caller does next.
#[derive(Debug)]
pub enum Command {
    /// Create a peer connection and register its callbacks.
    CreatePeerConnection,
    /// Create the local track at this position of the negotiation's tracks,
    /// add it to the peer connection, and start its consumer and its RTCP
    /// reader.
    AddTrack(usize),
    /// Set the negotiation's offer as the remote description.
    SetRemoteDescription,
    /// Create the answer.
    CreateAnswer,
    /// Set the negotiation's answer as the local description.
    SetLocalDescription,
    /// The session is set up; the negotiation holds the answer.
    Complete,
    /// The negotiation has failed.
    Fail(SfuError),
}

/// One session being set up.
#[derive(Debug)]
pub struct Negotiation {
    pub flow: Flow,
    /// The publisher or subscriber that is being set up.
    pub session_id: String,
    /// The publisher that is set up or listened to.
    pub publisher_id: String,
    pub offer: SessionDescription,
    pub forward_ice: bool,
    pub stage: Stage,
    /// The local tracks of a subscriber, one per source track.
    pub tracks: Vec<LocalTrack>,
    /// How many of the tracks have been added.
    pub attached: usize,
    /// The SDP of the answer, once it has been created.
    pub answer: String,
    /// The session of a publisher that is being admitted: it keeps the
    /// tracks that arrive before the publisher is recorded.
    pub session: PublisherSession,
}

/// The id of the local track that carries `source` to `subscriber`.
pub open spec fn local_track_name(source: Seq<char>, subscriber: Seq<char>) -> Seq<char> {
    source + "-"@ + subscriber
}

/// The id of the stream that the local tracks of `publisher` belong to.
pub open spec fn stream_name(publisher: Seq<char>) -> Seq<char> {
    "stream-"@ + publisher
}

/// A track mapping as pairs of plain ids.
pub open spec fn pairs(mapping: Seq<(String, String)>) -> Seq<(Seq<char>, Seq<char>)> {
    Seq::new(mapping.len(), |i: int| (mapping[i].0@, mapping[i].1@))
}

/// Whether `tracks` holds one local track for each broadcaster of
/// `session`, in the broadcasters' order, named after its source track and
/// `subscriber`, on the stream of `publisher`, with the broadcaster's kind
/// and codec capability.
pub open spec fn is_plan(
    tracks: Seq<LocalTrack>,
    session: PublisherSession,
    subscriber: Seq<char>,
    publisher: Seq<char>,
) -> bool {
    &&& tracks.len() == session.track_ids().len()
    &&& forall|i: int|
        0 <= i < tracks.len() ==> {
            let track = #[trigger] tracks[i];
            let broadcaster = session.broadcasters.items()[i];
            &&& track.source_track_id@ == session.track_ids()[i]
            &&& track.local_track_id@ == local_track_name(session.track_ids()[i], subscriber)
            &&& track.stream_id@ == stream_name(publisher)
            &&& track.kind@ == broadcaster.kind@
            &&& track.capability@ == broadcaster.codec_capability@
        }
}

/// Whether `error` reports that the step awaited at `stage` failed with
/// `message`.
pub open spec fn is_step_failure(error: SfuError, stage: Stage, message: Seq<char>) -> bool {
    match stage {
        Stage::PeerConnection => error matches SfuError::PeerConnectionCreation(m) && m@
            == message,
        Stage::Tracks => error matches SfuError::AddTrack(m) && m@ == message,
        Stage::RemoteDescription => error matches SfuError::SetRemoteDescription(m) && m@
            == message,
        Stage::Answer => error matches SfuError::CreateAnswer(m) && m@ == message,
        Stage::LocalDescription => error matches SfuError::SetLocalDescription(m) && m@
            == message,
        Stage::Finished => error matches SfuError::Internal(m) && m@ == "Negotiation is over"@,
    }
}

impl Negotiation {
    /// No more tracks are attached than there are, one is left to attach
    /// while tracks are being added, only a subscriber has local tracks,
    /// and the session in waiting is well formed.
    pub open spec fn wf(&self) -> bool {
        &&& self.attached <= self.tracks@.len()
        &&& self.stage == Stage::Tracks ==> self.attached < self.tracks@.len()
        &&& self.flow != Flow::AddSubscriber ==> self.tracks@.len() == 0
        &&& self.session.wf()
    }

    /// Whether the negotiation keeps the tracks that arrive: it admits a
    /// publisher and has not come to its end.
    pub open spec fn keeps_tracks(&self) -> bool {
        self.flow == Flow::AddPublisher && self.stage != Stage::Finished
    }

    /// The pairs of source track and local track of the subscriber.
    pub open spec fn mapping(&self) -> Seq<(Seq<char>, Seq<char>)> {
        Seq::new(
            self.tracks@.len(),
            |i: int| (self.tracks@[i].source_track_id@, self.tracks@[i].local_track_id@),
        )
    }

    /// Whether `other` was started by the same request.
    pub open spec fn same_request(&self, other: &Negotiation) -> bool {
        &&& self.flow == other.flow
        &&& self.session_id == other.session_id
        &&& self.publisher_id == other.publisher_id
        &&& self.offer == other.offer
        &&& self.forward_ice == other.forward_ice
    }

    /// Whether `other` differs from this negotiation in its stage only.
    pub open spec fn moved_from(&self, other: &Negotiation) -> bool {
        &&& self.same_request(other)
        &&& self.tracks == other.tracks
        &&& self.attached == other.attached
        &&& self.answer == other.answer
        &&& self.session == other.session
    }

    /// Whether this is a negotiation fresh from the request for `flow`.
    pub open spec fn is_fresh(
        &self,
        flow: Flow,
        session_id: String,
        publisher_id: Seq<char>,
        offer: SessionDescription,
        forward_ice: bool,
    ) -> bool {
        &&& self.flow == flow
        &&& self.session_id == session_id
        &&& self.publisher_id@ == publisher_id
        &&& self.offer == offer
        &&& self.forward_ice == forward_ice
        &&& self.tracks@.len() == 0
        &&& self.attached == 0
        &&& self.answer@.len() == 0
        &&& self.session.track_ids().len() == 0
    }

    /// What the caller of a publisher negotiation gets once it is complete.
    pub fn publisher_response(&self) -> (response: PublisherResponse)
        ensures
            response.answer.sdp_type == crate::sfu_core::SdpType::Answer,
            response.answer.sdp@ == self.answer@,
            response.publisher_id@ == self.session_id@,
    {
        PublisherResponse { answer: self.answer(), publisher_id: self.session_id.clone() }
    }

    /// What the caller of a publisher renegotiation gets once it is
    /// complete.
    pub fn publisher_update_response(&self) -> (response: PublisherUpdateResponse)
        ensures
            response.answer.sdp_type == crate::sfu_core::SdpType::Answer,
            response.answer.sdp@ == self.answer@,
    {
        PublisherUpdateResponse { answer: self.answer() }
    }

    /// What the caller of a subscriber negotiation gets once it is
    /// complete.
    pub fn subscriber_response(&self) -> (response: SubscriberResponse)
        ensures
            response.answer.sdp_type == crate::sfu_core::SdpType::Answer,
            response.answer.sdp@ == self.answer@,
    {
        SubscriberResponse { answer: self.answer() }
    }

    /// The answer of a completed negotiation.
    pub fn answer(&self) -> (answer: SessionDescription)
        ensures
            answer.sdp_type == crate::sfu_core::SdpType::Answer,
            answer.sdp@ == self.answer@,
    {
        SessionDescription::answer(self.answer.clone())
    }
}

impl LocalSfu {



    /// The local tracks for a subscriber of `publisher_id`: one per
    /// broadcaster of the publisher as it stands now.
    pub fn plan_tracks(&self, publisher_id: &str, subscriber_id: &str) -> (plan: Option<
        Vec<LocalTrack>,
    >)
        requires
            self.wf(),
        ensures
            plan is Some == self.has_publisher(publisher_id@),
            plan matches Some(tracks) ==> is_plan(
                tracks@,
                self.publishers.at(publisher_id@),
                subscriber_id@,
                publisher_id@,
            ),
    {
        let session = match self.publishers.get(publisher_id) {
            Some(session) => session,
            None => {
                return None;
            },
        };
        proof {
            assert(self.publishers.names().contains(publisher_id@));
            assert(session.wf());
        }
        let broadcasters = session.get_all_broadcasters();
        let mut tracks: Vec<LocalTrack> = Vec::new();
        let mut i: usize = 0;
        while i < broadcasters.len()
            invariant
                session.wf(),
                i <= broadcasters@.len(),
                broadcasters@.len() == session.track_ids().len(),
                forall|j: int|
                    0 <= j < broadcasters@.len() ==> {
                        &&& (#[trigger] broadcasters@[j]).0@ == session.track_ids()[j]
                        &&& *broadcasters@[j].1 == session.broadcasters.items()[j]
                    },
                tracks@.len() == i,
                forall|j: int|
                    0 <= j < i ==> {
                        let track = #[trigger] tracks@[j];
                        let broadcaster = session.broadcasters.items()[j];
                        &&& track.source_track_id@ == session.track_ids()[j]
                        &&& track.local_track_id@ == local_track_name(
                            session.track_ids()[j],
                            subscriber_id@,
                        )
                        &&& track.stream_id@ == stream_name(publisher_id@)
                        &&& track.kind@ == broadcaster.kind@
                        &&& track.capability@ == broadcaster.codec_capability@
                    },
            decreases broadcasters@.len() - i,
        {
            let source = broadcasters[i].0;
            let broadcaster = broadcasters[i].1;
            assert(broadcasters@[i as int].0@ == session.track_ids()[i as int]);
            tracks.push(
                LocalTrack {
                    source_track_id: source.clone(),
                    local_track_id: join3(source.as_str(), "-", subscriber_id),
                    stream_id: join2("stream-", publisher_id),
                    kind: broadcaster.kind.clone(),
                    capability: broadcaster.codec_capability.duplicate(),
                },
            );
            i += 1;
        }
        Some(tracks)
    }

    /// Whether this unit is `before` with the publisher of a finished
    /// negotiation recorded: `session`, with the tracks that arrived while
    /// the publisher was being admitted, stands under the publisher's id,
    /// and the counter of publishers went up by one.
    pub open spec fn publisher_recorded(
        &self,
        before: &LocalSfu,
        publisher: Seq<char>,
        session: PublisherSession,
    ) -> bool {
        &&& self.id == before.id
        &&& self.config == before.config
        &&& self.subscribers == before.subscribers
        &&& self.has_publisher(publisher)
        &&& self.publishers.at(publisher) == session
        &&& self.publishers.entries() == before.publishers.entries().insert(
            publisher,
            self.publishers.at(publisher),
        )
        &&& self.publishers.names() == if before.has_publisher(publisher) {
            before.publishers.names()
        } else {
            before.publishers.names().push(publisher)
        }
        &&& self.metrics.entries() == before.metrics.entries().insert(
            publishers_counter(),
            shifted(before.counter(publishers_counter()), 1isize),
        )
    }

    /// Whether this unit is `before` with the subscriber of a finished
    /// negotiation recorded: a session that listens to `publisher` through
    /// the local tracks of `mapping` stands under the subscriber's id, and
    /// the counter of subscribers went up by one.
    pub open spec fn subscriber_recorded(
        &self,
        before: &LocalSfu,
        subscriber: Seq<char>,
        publisher: Seq<char>,
        mapping: Seq<(Seq<char>, Seq<char>)>,
    ) -> bool {
        &&& self.id == before.id
        &&& self.config == before.config
        &&& self.publishers == before.publishers
        &&& self.has_subscriber(subscriber)
        &&& self.subscribers.at(subscriber).publisher_id@ == publisher
        &&& pairs(self.subscribers.at(subscriber).track_mapping@) == mapping
        &&& self.subscribers.entries() == before.subscribers.entries().insert(
            subscriber,
            self.subscribers.at(subscriber),
        )
        &&& self.subscribers.names() == if before.has_subscriber(subscriber) {
            before.subscribers.names()
        } else {
            before.subscribers.names().push(subscriber)
        }
        &&& self.metrics.entries() == before.metrics.entries().insert(
            subscribers_counter(),
            shifted(before.counter(subscribers_counter()), 1isize),
        )
    }

    /// Whether a publisher `publisher` can be recorded without breaking the
    /// cap on publishers: it replaces a live session or there is room.
    pub open spec fn publisher_fits(&self, publisher: Seq<char>) -> bool {
        self.has_publisher(publisher) || self.publisher_count()
            < self.config.performance.max_publishers
    }

    /// Whether a subscriber `subscriber` of `publisher` can be recorded
    /// without breaking the cap on the subscribers of one publisher: it
    /// replaces a session that listens to the same publisher or there is
    /// room.
    pub open spec fn subscriber_fits(&self, subscriber: Seq<char>, publisher: Seq<char>) -> bool {
        ||| self.subscriber_count(publisher)
            < self.config.performance.max_subscribers_per_publisher
        ||| self.has_subscriber(subscriber) && self.subscribers.at(subscriber).publisher_id@
            == publisher
    }

    /// Whether this unit is `before` with the local track `local` attached
    /// to the broadcaster of `source` of `publisher`, where there is one.
    pub open spec fn track_attached(
        &self,
        before: &LocalSfu,
        publisher: Seq<char>,
        source: Seq<char>,
        local: Seq<char>,
    ) -> bool {
        &&& self.id == before.id
        &&& self.config == before.config
        &&& self.subscribers == before.subscribers
        &&& self.metrics == before.metrics
        &&& self.publishers.names() == before.publishers.names()
        &&& self.publishers.items().len() == before.publishers.items().len()
        &&& forall|i: int|
            0 <= i < self.publishers.items().len() ==> {
                let now = #[trigger] self.publishers.items()[i];
                let was = before.publishers.items()[i];
                if before.publishers.names()[i] == publisher {
                    now.attached_to(&was, source, local)
                } else {
                    now == was
                }
            }
    }

    pub(crate) fn publisher_refusal(&self, publisher_id: &str) -> (refusal: Option<SfuError>)
        requires
            self.wf(),
        ensures
            refusal is None == self.publisher_fits(publisher_id@),
            refusal matches Some(e) ==> (e matches SfuError::Internal(m) && m@
                == publisher_limit_text(self.config.performance.max_publishers)),
    {
        if self.publishers.position(publisher_id).is_some() {
            return None;
        }
        match self.check_publisher_limit() {
            Ok(()) => None,
            Err(e) => Some(e),
        }
    }

    pub(crate) fn record_publisher(&mut self, publisher_id: &str, session: PublisherSession)
        requires
            old(self).wf(),
            old(self).publisher_fits(publisher_id@),
            session.wf(),
        ensures
            final(self).wf(),
            final(self).publisher_recorded(old(self), publisher_id@, session),
    {
        let ghost before = *self;
        let live = self.publishers.position(publisher_id);
        self.publishers.insert(text(publisher_id), session);
        proof {
            assert(self.publishers.entries().contains_key(publisher_id@));
            assert(self.publishers.entries()[publisher_id@] == self.publishers.at(publisher_id@));
            assert forall|i: int| 0 <= i < self.publishers.items().len() implies (
            #[trigger] self.publishers.items()[i]).wf() by {
                if live is Some {
                    if i != live->0 {
                        assert(self.publishers.items()[i] == before.publishers.items()[i]);
                    }
                } else {
                    if i < before.publishers.items().len() {
                        assert(self.publishers.items()[i] == before.publishers.items()[i]);
                    }
                }
            }
            self.lemma_subscriber_limits_carry_over(&before);
        }
        self.update_metrics("publishers", 1);
    }

    pub(crate) fn record_subscriber(
        &mut self,
        subscriber_id: &str,
        publisher_id: &str,
        tracks: &Vec<LocalTrack>,
    ) -> (command: Command)
        requires
            old(self).wf(),
        ensures
            final(self).wf(),
            old(self).subscriber_fits(subscriber_id@, publisher_id@) ==> command is Complete
                && final(self).subscriber_recorded(
                old(self),
                subscriber_id@,
                publisher_id@,
                Seq::new(
                    tracks@.len(),
                    |i: int| (tracks@[i].source_track_id@, tracks@[i].local_track_id@),
                ),
            ),
            !old(self).subscriber_fits(subscriber_id@, publisher_id@) ==> *final(self) == *old(self) && (command matches Command::Fail(SfuError::Internal(m)) && m@
                == subscriber_limit_text(
                publisher_id@,
                old(self).config.performance.max_subscribers_per_publisher,
            )),
    {
        let ghost before = *self;
        let live = self.subscribers.position(subscriber_id);
        let replaces = match live {
            Some(i) => {
                proof {
                    self.subscribers.lemma_at_position(i as int);
                }
                crate::text::same_text(
                    self.subscribers.value_at(i).publisher_id.as_str(),
                    publisher_id,
                )
            },
            None => false,
        };
        if !replaces {
            match self.check_subscriber_limit(publisher_id) {
                Ok(()) => {},
                Err(e) => {
                    return Command::Fail(e);
                },
            }
        }
        let mut mapping: Vec<(String, String)> = Vec::new();
        let mut k: usize = 0;
        while k < tracks.len()
            invariant
                k <= tracks@.len(),
                mapping@.len() == k,
                forall|j: int|
                    0 <= j < k ==> (#[trigger] mapping@[j]).0@ == tracks@[j].source_track_id@
                        && mapping@[j].1@ == tracks@[j].local_track_id@,
            decreases tracks@.len() - k,
        {
            mapping.push((tracks[k].source_track_id.clone(), tracks[k].local_track_id.clone()));
            k += 1;
        }
        let session = SubscriberSession::new(text(publisher_id), mapping);
        proof {
            assert(pairs(session.track_mapping@) =~= Seq::new(
                tracks@.len(),
                |i: int| (tracks@[i].source_track_id@, tracks@[i].local_track_id@),
            ));
        }
        self.subscribers.insert(text(subscriber_id), session);
        proof {
            assert(self.subscribers.entries().contains_key(subscriber_id@));
            assert(self.subscribers.entries()[subscriber_id@] == self.subscribers.at(
                subscriber_id@,
            ));
            assert forall|publisher: Seq<char>| #[trigger]
                self.subscriber_count(publisher)
                    <= self.config.performance.max_subscribers_per_publisher by {
                assert(before.subscriber_count(publisher)
                    <= before.config.performance.max_subscribers_per_publisher);
                if live is Some {
                    lemma_listeners_update(
                        before.subscribers.items(),
                        live->0 as int,
                        session,
                        publisher,
                    );
                } else {
                    lemma_listeners_push(before.subscribers.items(), session, publisher);
                }
            }
        }
        self.update_metrics("subscribers", 1);
        Command::Complete
    }

    pub(crate) fn attach_track(&mut self, publisher_id: &str, source: &str, local: &str)
        requires
            old(self).wf(),
        ensures
            final(self).wf(),
            final(self).track_attached(old(self), publisher_id@, source@, local@),
    {
        let ghost before = *self;
        match self.publishers.position(publisher_id) {
            Some(i) => {
                let session = self.publishers.value_mut(i);
                session.attach(source, text(local));
                proof {
                    assert forall|j: int| 0 <= j < self.publishers.items().len() implies {
                        let now = #[trigger] self.publishers.items()[j];
                        let was = before.publishers.items()[j];
                        &&& now.wf()
                        &&& if before.publishers.names()[j] == publisher_id@ {
                            now.attached_to(&was, source@, local@)
                        } else {
                            now == was
                        }
                    } by {
                        if j != i {
                            assert(before.publishers.names()[j] != before.publishers.names()[i as int]);
                            assert(self.publishers.items()[j] == before.publishers.items()[j]);
                        }
                    }
                    self.lemma_subscriber_limits_carry_over(&before);
                }
            },
            None => {},
        }
    }

    /// Whether `after` is `before` with the track kept in its session in
    /// waiting, and nothing else changed.
    pub open spec fn track_kept(
        &self,
        after: Negotiation,
        before: Negotiation,
        track: RemoteTrack,
        first_codec: Option<CodecCapability>,
    ) -> bool {
        &&& after.same_request(&before)
        &&& after.stage == before.stage
        &&& after.tracks == before.tracks
        &&& after.attached == before.attached
        &&& after.answer == before.answer
        &&& self.session_took_track(after.session, before.session, track, first_codec)
    }

    /// A track of the publisher of `negotiation` has arrived. While the
    /// publisher is being admitted, the track is kept with the negotiation,
    /// and the publisher is recorded with it. Once the negotiation is over,
    /// the track goes to the publisher's session, if the publisher is live,
    /// and is dropped otherwise. Returns whether the track was taken.
    pub fn route_track(
        &mut self,
        negotiation: &mut Negotiation,
        track: RemoteTrack,
        first_codec: Option<CodecCapability>,
    ) -> (taken: bool)
        requires
            old(self).wf(),
            old(negotiation).wf(),
        ensures
            final(self).wf(),
            final(negotiation).wf(),
            old(negotiation).keeps_tracks() ==> {
                &&& taken
                &&& *final(self) == *old(self)
                &&& final(self).track_kept(*final(negotiation), *old(negotiation), track, first_codec)
            },
            !old(negotiation).keeps_tracks() ==> {
                &&& *final(negotiation) == *old(negotiation)
                &&& final(self).track_registered(
                    old(self),
                    old(negotiation).session_id@,
                    track,
                    first_codec,
                    taken,
                )
            },
    {
        let waiting = match negotiation.flow {
            Flow::AddPublisher => match negotiation.stage {
                Stage::Finished => false,
                _ => true,
            },
            _ => false,
        };
        if waiting {
            Self::keep_track(
                self.config.performance.broadcast_channel_capacity,
                &mut negotiation.session,
                track,
                first_codec,
            );
            true
        } else {
            self.on_track(negotiation.session_id.as_str(), track, first_codec)
        }
    }


    /// The local tracks planned for a subscriber pair every source track of
    /// the publisher with exactly one local track: the mapping has one pair
    /// per source track, in the order of the source tracks, and no source
    /// track occurs in two pairs.
    pub proof fn lemma_plan_maps_each_track_once(
        negotiation: Negotiation,
        session: PublisherSession,
        subscriber: Seq<char>,
        publisher: Seq<char>,
    )
        requires
            session.wf(),
            is_plan(negotiation.tracks@, session, subscriber, publisher),
        ensures
            negotiation.mapping().len() == session.track_ids().len(),
            forall|i: int|
                0 <= i < session.track_ids().len() ==> (#[trigger] negotiation.mapping()[i])
                    == (session.track_ids()[i], local_track_name(session.track_ids()[i], subscriber)),
            forall|i: int, j: int|
                0 <= i < j < negotiation.mapping().len() ==> (#[trigger] negotiation.mapping()[i]).0
                    != (#[trigger] negotiation.mapping()[j]).0,
    {
        assert forall|i: int| 0 <= i < session.track_ids().len() implies (
        #[trigger] negotiation.mapping()[i]) == (
            session.track_ids()[i],
            local_track_name(session.track_ids()[i], subscriber),
        ) by {
            let track = negotiation.tracks@[i];
            assert(track.source_track_id@ == session.track_ids()[i]);
        }
    }

    /// Once a local track is attached, the broadcaster of its source track
    /// writes to it: where the publisher has a broadcaster for the source
    /// track, the local track is among that broadcaster's consumers.
    pub proof fn lemma_attached_track_is_consumed(
        after: LocalSfu,
        before: LocalSfu,
        publisher: Seq<char>,
        source: Seq<char>,
        local: Seq<char>,
    )
        requires
            before.wf(),
            after.wf(),
            after.track_attached(&before, publisher, source, local),
            before.has_publisher(publisher),
            before.publishers.at(publisher).has_track(source),
        ensures
            after.has_publisher(publisher),
            after.publishers.at(publisher).has_track(source),
            after.publishers.at(publisher).track(source).consumers().contains(local),
    {
        let i = before.publishers.names().index_of(publisher);
        assert(0 <= i < before.publishers.names().len() && before.publishers.names()[i]
            == publisher);
        let now = after.publishers.items()[i];
        let was = before.publishers.items()[i];
        assert(now.attached_to(&was, source, local));
        let t = was.track_ids().index_of(source);
        assert(0 <= t < was.track_ids().len() && was.track_ids()[t] == source);
        assert(was.wf());
        assert(now.wf());
        let broadcaster = now.broadcasters.items()[t];
        assert(broadcaster.consumers() == was.broadcasters.items()[t].consumers().insert(local));
    }

    /// After the first `m` local tracks of a plan were attached, one after
    /// the other, the publisher has the source tracks it had, each of the
    /// first `m` broadcasters has its local track as one more consumer, and
    /// the broadcasters behind them are as they were.
    pub proof fn lemma_attached_in_turn(
        states: Seq<LocalSfu>,
        tracks: Seq<LocalTrack>,
        subscriber: Seq<char>,
        publisher: Seq<char>,
        m: int,
    )
        requires
            0 <= m <= tracks.len(),
            states.len() == tracks.len() + 1,
            forall|i: int| 0 <= i < states.len() ==> (#[trigger] states[i]).wf(),
            states[0].has_publisher(publisher),
            is_plan(tracks, states[0].publishers.at(publisher), subscriber, publisher),
            forall|i: int|
                0 <= i < tracks.len() ==> (#[trigger] states[i + 1]).track_attached(
                    &states[i],
                    publisher,
                    tracks[i].source_track_id@,
                    tracks[i].local_track_id@,
                ),
        ensures
            states[m].has_publisher(publisher),
            states[m].publishers.names() == states[0].publishers.names(),
            states[m].publishers.at(publisher).track_ids() == states[0].publishers.at(
                publisher,
            ).track_ids(),
            forall|i: int|
                0 <= i < tracks.len() ==> (#[trigger] states[m].publishers.at(
                    publisher,
                ).broadcasters.items()[i]).consumers() == if i < m {
                    states[0].publishers.at(publisher).broadcasters.items()[i].consumers().insert(
                        tracks[i].local_track_id@,
                    )
                } else {
                    states[0].publishers.at(publisher).broadcasters.items()[i].consumers()
                },
        decreases m,
    {
        if m > 0 {
            Self::lemma_attached_in_turn(states, tracks, subscriber, publisher, m - 1);
            let before = states[m - 1];
            let after = states[(m - 1) + 1];
            assert(after.track_attached(
                &before,
                publisher,
                tracks[m - 1].source_track_id@,
                tracks[m - 1].local_track_id@,
            ));
            let p = states[0].publishers.names().index_of(publisher);
            assert(0 <= p < states[0].publishers.names().len() && states[0].publishers.names()[p]
                == publisher);
            let first = states[0].publishers.items()[p];
            let was = before.publishers.items()[p];
            let now = after.publishers.items()[p];
            assert(first.wf() && was.wf() && now.wf());
            assert(now.attached_to(
                &was,
                tracks[m - 1].source_track_id@,
                tracks[m - 1].local_track_id@,
            ));
            assert(tracks[m - 1].source_track_id@ == first.track_ids()[m - 1]);
            assert forall|i: int| 0 <= i < tracks.len() implies (#[trigger] now.broadcasters.items()[i]).consumers()
                == if i < m {
                first.broadcasters.items()[i].consumers().insert(tracks[i].local_track_id@)
            } else {
                first.broadcasters.items()[i].consumers()
            } by {
                assert(was.broadcasters.items()[i].consumers() == if i < m - 1 {
                    first.broadcasters.items()[i].consumers().insert(tracks[i].local_track_id@)
                } else {
                    first.broadcasters.items()[i].consumers()
                });
                if i != m - 1 {
                    assert(first.track_ids()[i] != first.track_ids()[m - 1]);
                }
            }
        }
    }

    /// A subscriber that was admitted without a failed step listens
    /// through exactly one local track per source track that its publisher
    /// had when the tracks were planned: its track mapping pairs every such
    /// source track, in order and once, with the local track named after
    /// it, and the broadcaster of every such source track has that local
    /// track, and no other new one, among its consumers.
    pub proof fn lemma_subscriber_hears_every_track(
        states: Seq<LocalSfu>,
        recorded: LocalSfu,
        negotiation: Negotiation,
        subscriber: Seq<char>,
        publisher: Seq<char>,
    )
        requires
            states.len() == negotiation.tracks@.len() + 1,
            forall|i: int| 0 <= i < states.len() ==> (#[trigger] states[i]).wf(),
            states[0].has_publisher(publisher),
            is_plan(negotiation.tracks@, states[0].publishers.at(publisher), subscriber, publisher),
            forall|i: int|
                0 <= i < negotiation.tracks@.len() ==> (#[trigger] states[i + 1]).track_attached(
                    &states[i],
                    publisher,
                    negotiation.tracks@[i].source_track_id@,
                    negotiation.tracks@[i].local_track_id@,
                ),
            recorded.subscriber_recorded(
                &states[negotiation.tracks@.len() as int],
                subscriber,
                publisher,
                negotiation.mapping(),
            ),
        ensures
            recorded.has_subscriber(subscriber),
            recorded.has_publisher(publisher),
            pairs(recorded.subscribers.at(subscriber).track_mapping@).len()
                == states[0].publishers.at(publisher).track_ids().len(),
            forall|i: int|
                0 <= i < states[0].publishers.at(publisher).track_ids().len() ==> {
                    let source = #[trigger] states[0].publishers.at(publisher).track_ids()[i];
                    let local = local_track_name(source, subscriber);
                    &&& pairs(recorded.subscribers.at(subscriber).track_mapping@)[i] == (
                        source,
                        local,
                    )
                    &&& recorded.publishers.at(publisher).track_ids()[i] == source
                    &&& recorded.publishers.at(publisher).broadcasters.items()[i].consumers()
                        == states[0].publishers.at(publisher).broadcasters.items()[i].consumers().insert(
                        local,
                    )
                },
    {
        let tracks = negotiation.tracks@;
        let n = tracks.len() as int;
        Self::lemma_attached_in_turn(states, tracks, subscriber, publisher, n);
        let p = states[0].publishers.names().index_of(publisher);
        assert(0 <= p < states[0].publishers.names().len() && states[0].publishers.names()[p]
            == publisher);
        assert(states[0].publishers.items()[p].wf());
        Self::lemma_plan_maps_each_track_once(
            negotiation,
            states[0].publishers.at(publisher),
            subscriber,
            publisher,
        );
        assert(recorded.publishers == states[n].publishers);
        assert forall|i: int| 0 <= i < states[0].publishers.at(publisher).track_ids().len() implies {
            let source = #[trigger] states[0].publishers.at(publisher).track_ids()[i];
            let local = local_track_name(source, subscriber);
            &&& pairs(recorded.subscribers.at(subscriber).track_mapping@)[i] == (source, local)
            &&& recorded.publishers.at(publisher).track_ids()[i] == source
            &&& recorded.publishers.at(publisher).broadcasters.items()[i].consumers()
                == states[0].publishers.at(publisher).broadcasters.items()[i].consumers().insert(
                local,
            )
        } by {
            assert(negotiation.mapping()[i] == (
                states[0].publishers.at(publisher).track_ids()[i],
                local_track_name(states[0].publishers.at(publisher).track_ids()[i], subscriber),
            ));
            assert(tracks[i].local_track_id@ == local_track_name(
                states[0].publishers.at(publisher).track_ids()[i],
                subscriber,
            ));
        }
    }
}

} // verus!
