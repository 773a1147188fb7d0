//! The in-process forwarding unit as a forwarding unit: the operations that
//! the signalling layer calls.

use vstd::prelude::*;
use crate::local::error::SfuError;
use crate::local::negotiation::{is_plan, is_step_failure, Command, Flow, Negotiation, Stage};
use crate::local::session::{PublisherSession, SubscriberSession};
use crate::local::sfu::{
    lemma_listeners_remove,
    metric,
    publisher_limit_text,
    subscriber_limit_text,
    tracks_upto,
    LocalSfu,
};
use crate::sfu_core::{
    PublisherRequest,
    PublisherUpdateRequest,
    Sfu,
    SfuMetrics,
    SubscriberRequest,
    SubscriberUpdateRequest,
    SubscriberUpdateResponse,
};
use crate::text::text;

verus! {

impl Sfu for LocalSfu {
    /// A local unit is valid when its tables are well formed and its
    /// admission limits hold.
    open spec fn valid(&self) -> bool {
        self.wf()
    }

    /// The name of this instance.
    fn id(&self) -> (id: &str)
        ensures
            id@ == self.id@,
    {
        self.id.as_str()
    }

    /// Starts admitting the publisher of `req`. At the cap on publishers
    /// the request fails at once, before anything is created.
    fn add_publisher(&self, req: PublisherRequest) -> (started: (Negotiation, Command))
        ensures
            started.0.wf(),
            started.0.is_fresh(
                Flow::AddPublisher,
                req.publisher_id,
                req.publisher_id@,
                req.offer,
                req.forward_ice,
            ),
            self.publisher_count() < self.config.performance.max_publishers ==> started.0.stage
                == Stage::PeerConnection && started.1 is CreatePeerConnection,
            self.publisher_count() >= self.config.performance.max_publishers ==> started.0.stage
                == Stage::Finished && (started.1 matches Command::Fail(SfuError::Internal(m))
                && m@ == publisher_limit_text(self.config.performance.max_publishers)),
    {
        let (stage, command) = match self.check_publisher_limit() {
            Ok(()) => (Stage::PeerConnection, Command::CreatePeerConnection),
            Err(e) => (Stage::Finished, Command::Fail(e)),
        };
        let publisher_id = req.publisher_id.clone();
        (
            Negotiation {
                flow: Flow::AddPublisher,
                session_id: req.publisher_id,
                publisher_id,
                offer: req.offer,
                forward_ice: req.forward_ice,
                stage,
                tracks: Vec::new(),
                attached: 0,
                answer: String::new(),
                session: PublisherSession::new(),
            },
            command,
        )
    }

    /// Starts renegotiating the publisher of `req`, which must be live.
    fn update_publisher(&self, req: PublisherUpdateRequest) -> (started: (
        Negotiation,
        Command,
    ))
        ensures
            started.0.wf(),
            started.0.is_fresh(
                Flow::UpdatePublisher,
                req.publisher_id,
                req.publisher_id@,
                req.offer,
                false,
            ),
            self.has_publisher(req.publisher_id@) ==> started.0.stage == Stage::RemoteDescription
                && started.1 is SetRemoteDescription,
            !self.has_publisher(req.publisher_id@) ==> started.0.stage == Stage::Finished && (
            started.1 matches Command::Fail(SfuError::PublisherNotFound(id)) && id@
                == req.publisher_id@),
    {
        let (stage, command) = match self.find_publisher(req.publisher_id.as_str()) {
            Ok(()) => (Stage::RemoteDescription, Command::SetRemoteDescription),
            Err(e) => (Stage::Finished, Command::Fail(e)),
        };
        let publisher_id = req.publisher_id.clone();
        (
            Negotiation {
                flow: Flow::UpdatePublisher,
                session_id: req.publisher_id,
                publisher_id,
                offer: req.offer,
                forward_ice: false,
                stage,
                tracks: Vec::new(),
                attached: 0,
                answer: String::new(),
                session: PublisherSession::new(),
            },
            command,
        )
    }

    /// Removes the publisher `publisher_id` and hands back its session,
    /// whose broadcasters and consumers the caller stops. Removing a
    /// publisher that is not live changes nothing and succeeds.
    fn remove_publisher(&mut self, publisher_id: &str) -> (removed: Result<
        Option<PublisherSession>,
        SfuError,
    >)
        ensures
            final(self).wf(),
            removed matches Ok(gone) && final(self).publisher_removed(
                old(self),
                publisher_id@,
                gone,
            ),
    {
        if self.publishers.position(publisher_id).is_none() {
            return Ok(None);
        }
        let ghost before = *self;
        let removed = self.publishers.remove(publisher_id);
        assert forall|i: int| 0 <= i < self.publishers.items().len() implies (
        #[trigger] self.publishers.items()[i]).wf() by {
            let at = before.publishers.names().index_of(publisher_id@);
            if i < at {
                assert(self.publishers.items()[i] == before.publishers.items()[i]);
            } else {
                assert(self.publishers.items()[i] == before.publishers.items()[i + 1]);
            }
        }
        assert(!self.has_publisher(publisher_id@)) by {
            assert(!self.publishers.entries().contains_key(publisher_id@));
        }
        self.update_metrics("publishers", -1);
        proof {
            self.lemma_subscriber_limits_carry_over(&before);
        }
        Ok(removed)
    }

    /// Whether an ICE candidate for `publisher_id` has a peer connection to
    /// go to: it has one exactly when the publisher is live.
    fn add_publisher_ice(&self, publisher_id: &str) -> (target: Result<(), SfuError>)
        ensures
            self.has_publisher(publisher_id@) ==> target is Ok,
            !self.has_publisher(publisher_id@) ==> (target matches Err(
                SfuError::PublisherNotFound(id),
            ) && id@ == publisher_id@),
    {
        match self.publishers.position(publisher_id) {
            Some(_) => Ok(()),
            None => Err(SfuError::PublisherNotFound(text(publisher_id))),
        }
    }

    /// Starts admitting the subscriber of `req`. The request fails at once,
    /// before anything is created, at the cap on the subscribers of its
    /// publisher, and otherwise when its publisher is not live.
    fn add_subscriber(&self, req: SubscriberRequest) -> (started: (Negotiation, Command))
        ensures
            started.0.wf(),
            started.0.is_fresh(
                Flow::AddSubscriber,
                req.subscriber_id,
                req.publisher_id@,
                req.offer,
                req.forward_ice,
            ),
            started.0.publisher_id == req.publisher_id,
            self.subscriber_count(req.publisher_id@)
                >= self.config.performance.max_subscribers_per_publisher ==> started.0.stage
                == Stage::Finished && (started.1 matches Command::Fail(SfuError::Internal(m))
                && m@ == subscriber_limit_text(
                req.publisher_id@,
                self.config.performance.max_subscribers_per_publisher,
            )),
            self.subscriber_count(req.publisher_id@)
                < self.config.performance.max_subscribers_per_publisher && !self.has_publisher(
                req.publisher_id@,
            ) ==> started.0.stage == Stage::Finished && (started.1 matches Command::Fail(
                SfuError::PublisherNotFound(id),
            ) && id@ == req.publisher_id@),
            self.subscriber_count(req.publisher_id@)
                < self.config.performance.max_subscribers_per_publisher && self.has_publisher(
                req.publisher_id@,
            ) ==> started.0.stage == Stage::PeerConnection && started.1 is CreatePeerConnection,
    {
        let (stage, command) = match self.check_subscriber_limit(req.publisher_id.as_str()) {
            Err(e) => (Stage::Finished, Command::Fail(e)),
            Ok(()) => match self.find_publisher(req.publisher_id.as_str()) {
                Err(e) => (Stage::Finished, Command::Fail(e)),
                Ok(()) => (Stage::PeerConnection, Command::CreatePeerConnection),
            },
        };
        (
            Negotiation {
                flow: Flow::AddSubscriber,
                session_id: req.subscriber_id,
                publisher_id: req.publisher_id,
                offer: req.offer,
                forward_ice: req.forward_ice,
                stage,
                tracks: Vec::new(),
                attached: 0,
                answer: String::new(),
                session: PublisherSession::new(),
            },
            command,
        )
    }

    /// Renegotiating a subscriber is accepted and does nothing.
    fn update_subscriber(&self, req: SubscriberUpdateRequest) -> (updated: Result<
        SubscriberUpdateResponse,
        SfuError,
    >)
        ensures
            updated matches Ok(response) && response.success,
    {
        Ok(SubscriberUpdateResponse { success: true })
    }

    /// Removes the subscriber `subscriber_id`, detaches the consumers of
    /// its local tracks from the broadcasters they read from, and hands
    /// back its session, whose peer connection the caller closes. Removing
    /// a subscriber that has no session changes nothing and succeeds.
    fn remove_subscriber(&mut self, subscriber_id: &str) -> (removed: Result<
        Option<SubscriberSession>,
        SfuError,
    >)
        ensures
            final(self).wf(),
            removed matches Ok(gone) && final(self).subscriber_removed(
                old(self),
                subscriber_id@,
                gone,
            ),
    {
        if self.subscribers.position(subscriber_id).is_none() {
            return Ok(None);
        }
        let ghost before = *self;
        let ghost at = before.subscribers.names().index_of(subscriber_id@);
        let removed = self.subscribers.remove(subscriber_id);
        let session = removed.unwrap();
        assert(!self.has_subscriber(subscriber_id@)) by {
            assert(!self.subscribers.entries().contains_key(subscriber_id@));
        }
        match self.publishers.position(session.publisher_id.as_str()) {
            Some(i) => {
                let publisher = self.publishers.value_mut(i);
                publisher.detach(&session.track_mapping);
                assert(self.released(&before, session)) by {
                    assert forall|j: int| 0 <= j < self.publishers.items().len() implies {
                        let now = #[trigger] self.publishers.items()[j];
                        let was = before.publishers.items()[j];
                        if before.publishers.names()[j] == session.publisher_id@ {
                            now.detached_from(&was, session.track_mapping@)
                        } else {
                            now == was
                        }
                    } by {
                        if j != i {
                            assert(before.publishers.names()[j] != before.publishers.names()[i as int]);
                        }
                    }
                }
            },
            None => {
                assert(self.released(&before, session));
            },
        }
        self.update_metrics("subscribers", -1);
        assert forall|publisher: Seq<char>| #[trigger]
            self.subscriber_count(publisher)
                <= self.config.performance.max_subscribers_per_publisher by {
            lemma_listeners_remove(before.subscribers.items(), at, publisher);
            assert(before.subscriber_count(publisher)
                <= before.config.performance.max_subscribers_per_publisher);
        }
        Ok(Some(session))
    }

    /// Whether an ICE candidate for `subscriber_id` has a peer connection to
    /// go to: it has one exactly when the subscriber has a session.
    fn add_subscriber_ice(&self, subscriber_id: &str) -> (target: Result<(), SfuError>)
        ensures
            self.has_subscriber(subscriber_id@) ==> target is Ok,
            !self.has_subscriber(subscriber_id@) ==> (target matches Err(
                SfuError::SubscriberNotFound(id),
            ) && id@ == subscriber_id@),
    {
        match self.subscribers.position(subscriber_id) {
            Some(_) => Ok(()),
            None => Err(SfuError::SubscriberNotFound(text(subscriber_id))),
        }
    }

    /// A snapshot of the unit taken at `timestamp_ms`: its name, the number
    /// of publishers, of subscribers and of tracks, and zero for every
    /// counter that nothing feeds.
    fn get_metrics(&self, timestamp_ms: i64) -> (metrics: Result<SfuMetrics, SfuError>)
        ensures
            metrics matches Ok(m) && {
                &&& m.instance_id@ == self.id@
                &&& m.timestamp_ms == timestamp_ms
                &&& m.publisher_count == metric(self.publisher_count())
                &&& m.subscriber_count == metric(self.subscribers.names().len())
                &&& m.track_count == metric(
                    tracks_upto(self.publishers.items(), self.publishers.items().len() as int),
                )
                &&& m.memory_usage == 0
                &&& m.memory_total == 0
                &&& m.go_routines == 0
                &&& m.uptime_seconds == 0
                &&& m.total_bitrate_bps == 0
                &&& m.bytes_received == 0
                &&& m.bytes_sent == 0
                &&& m.packets_received == 0
                &&& m.packets_sent == 0
                &&& m.packets_lost == 0
                &&& m.rtt_ms == 0
                &&& m.nack_count == 0
                &&& m.pli_count == 0
                &&& m.fir_count == 0
            },
    {
        let total_tracks = self.count_tracks();
        Ok(
            SfuMetrics {
                instance_id: self.id.clone(),
                timestamp_ms,
                memory_usage: 0,
                memory_total: 0,
                go_routines: 0,
                uptime_seconds: 0,
                publisher_count: LocalSfu::as_metric(self.publishers.len()),
                subscriber_count: LocalSfu::as_metric(self.subscribers.len()),
                track_count: LocalSfu::as_metric(total_tracks),
                total_bitrate_bps: 0,
                bytes_received: 0,
                bytes_sent: 0,
                packets_received: 0,
                packets_sent: 0,
                packets_lost: 0,
                rtt_ms: 0,
                nack_count: 0,
                pli_count: 0,
                fir_count: 0,
            },
        )
    }

    /// The in-process unit is always healthy.
    fn health_check(&self) -> (health: Result<(), SfuError>)
        ensures
            health is Ok,
    {
        Ok(())
    }

    /// Takes the outcome of the command that `negotiation` waits for and
    /// says what to do next. `Ok` carries the SDP of the answer where the
    /// command was to create it, and is not read otherwise; `Err` carries
    /// the failure of the media stack.
    ///
    /// A failure ends the negotiation with the error of the failed step and
    /// leaves the sessions as they are. The steps run in a fixed order:
    /// peer connection, one local track after the other, remote
    /// description, answer, local description. The session is recorded when
    /// the last step has succeeded, provided the admission limits still
    /// hold then; a publisher is recorded with the tracks that arrived
    /// while it was being admitted.
    fn advance(&mut self, negotiation: &mut Negotiation, outcome: Result<String, String>) -> (command: Command)
        ensures
            final(self).wf(),
            final(negotiation).wf(),
            final(negotiation).same_request(old(negotiation)),
            old(negotiation).stage == Stage::Finished ==> {
                &&& *final(self) == *old(self)
                &&& *final(negotiation) == *old(negotiation)
                &&& command matches Command::Fail(e) && is_step_failure(e, Stage::Finished, Seq::empty())
            },
            old(negotiation).stage != Stage::Finished && outcome is Err ==> {
                &&& *final(self) == *old(self)
                &&& final(negotiation).stage == Stage::Finished
                &&& final(negotiation).moved_from(old(negotiation))
                &&& command matches Command::Fail(e) && is_step_failure(
                    e,
                    old(negotiation).stage,
                    outcome->Err_0@,
                )
            },
            old(negotiation).stage == Stage::PeerConnection && outcome is Ok && old(negotiation).flow != Flow::AddSubscriber ==> {
                &&& *final(self) == *old(self)
                &&& final(negotiation).stage == Stage::RemoteDescription
                &&& final(negotiation).moved_from(old(negotiation))
                &&& command is SetRemoteDescription
            },
            old(negotiation).stage == Stage::PeerConnection && outcome is Ok && old(negotiation).flow == Flow::AddSubscriber ==> {
                &&& *final(self) == *old(self)
                &&& final(negotiation).answer == old(negotiation).answer
                &&& final(negotiation).session == old(negotiation).session
                &&& final(negotiation).attached == 0
                &&& if !old(self).has_publisher(old(negotiation).publisher_id@) {
                    &&& final(negotiation).stage == Stage::Finished
                    &&& final(negotiation).tracks == old(negotiation).tracks
                    &&& command matches Command::Fail(SfuError::PublisherNotFound(id)) && id@
                        == old(negotiation).publisher_id@
                } else {
                    &&& is_plan(
                        final(negotiation).tracks@,
                        old(self).publishers.at(old(negotiation).publisher_id@),
                        old(negotiation).session_id@,
                        old(negotiation).publisher_id@,
                    )
                    &&& if final(negotiation).tracks@.len() == 0 {
                        final(negotiation).stage == Stage::RemoteDescription
                            && command is SetRemoteDescription
                    } else {
                        final(negotiation).stage == Stage::Tracks && command == Command::AddTrack(
                            0,
                        )
                    }
                }
            },
            old(negotiation).stage == Stage::Tracks && outcome is Ok ==> {
                let track = old(negotiation).tracks@[old(negotiation).attached as int];
                &&& final(self).track_attached(
                    old(self),
                    old(negotiation).publisher_id@,
                    track.source_track_id@,
                    track.local_track_id@,
                )
                &&& final(negotiation).tracks == old(negotiation).tracks
                &&& final(negotiation).answer == old(negotiation).answer
                &&& final(negotiation).session == old(negotiation).session
                &&& final(negotiation).attached == old(negotiation).attached + 1
                &&& if final(negotiation).attached < final(negotiation).tracks@.len() {
                    final(negotiation).stage == Stage::Tracks && command == Command::AddTrack(
                        final(negotiation).attached,
                    )
                } else {
                    final(negotiation).stage == Stage::RemoteDescription
                        && command is SetRemoteDescription
                }
            },
            old(negotiation).stage == Stage::RemoteDescription && outcome is Ok ==> {
                &&& *final(self) == *old(self)
                &&& final(negotiation).stage == Stage::Answer
                &&& final(negotiation).moved_from(old(negotiation))
                &&& command is CreateAnswer
            },
            old(negotiation).stage == Stage::Answer && outcome is Ok ==> {
                &&& *final(self) == *old(self)
                &&& final(negotiation).stage == Stage::LocalDescription
                &&& final(negotiation).tracks == old(negotiation).tracks
                &&& final(negotiation).attached == old(negotiation).attached
                &&& final(negotiation).session == old(negotiation).session
                &&& final(negotiation).answer == outcome->Ok_0
                &&& command is SetLocalDescription
            },
            old(negotiation).stage == Stage::LocalDescription && outcome is Ok ==> {
                let subject = old(negotiation).session_id@;
                let publisher = old(negotiation).publisher_id@;
                &&& final(negotiation).stage == Stage::Finished
                &&& final(negotiation).tracks == old(negotiation).tracks
                &&& final(negotiation).attached == old(negotiation).attached
                &&& final(negotiation).answer == old(negotiation).answer
                &&& if old(negotiation).flow == Flow::AddPublisher && old(self).publisher_fits(
                    subject,
                ) {
                    final(negotiation).session.track_ids().len() == 0
                } else {
                    final(negotiation).session == old(negotiation).session
                }
                &&& match old(negotiation).flow {
                    Flow::UpdatePublisher => *final(self) == *old(self) && command is Complete,
                    Flow::AddPublisher => if old(self).publisher_fits(subject) {
                        command is Complete && final(self).publisher_recorded(
                            old(self),
                            subject,
                            old(negotiation).session,
                        )
                    } else {
                        *final(self) == *old(self) && (command matches Command::Fail(
                            SfuError::Internal(m),
                        ) && m@ == publisher_limit_text(
                            old(self).config.performance.max_publishers,
                        ))
                    },
                    Flow::AddSubscriber => if old(self).subscriber_fits(subject, publisher) {
                        command is Complete && final(self).subscriber_recorded(
                            old(self),
                            subject,
                            publisher,
                            old(negotiation).mapping(),
                        )
                    } else {
                        *final(self) == *old(self) && (command matches Command::Fail(
                            SfuError::Internal(m),
                        ) && m@ == subscriber_limit_text(
                            publisher,
                            old(self).config.performance.max_subscribers_per_publisher,
                        ))
                    },
                }
            },
    {
        let stage = negotiation.stage;
        if let Stage::Finished = stage {
            return Command::Fail(SfuError::Internal(text("Negotiation is over")));
        }
        let payload = match outcome {
            Ok(payload) => payload,
            Err(message) => {
                negotiation.stage = Stage::Finished;
                return Command::Fail(
                    match stage {
                        Stage::PeerConnection => SfuError::PeerConnectionCreation(message),
                        Stage::Tracks => SfuError::AddTrack(message),
                        Stage::RemoteDescription => SfuError::SetRemoteDescription(message),
                        Stage::Answer => SfuError::CreateAnswer(message),
                        _ => SfuError::SetLocalDescription(message),
                    },
                );
            },
        };
        match stage {
            Stage::PeerConnection => match negotiation.flow {
                Flow::AddSubscriber => {
                    match self.plan_tracks(
                        negotiation.publisher_id.as_str(),
                        negotiation.session_id.as_str(),
                    ) {
                        Some(tracks) => {
                            negotiation.tracks = tracks;
                            negotiation.attached = 0;
                            if negotiation.tracks.len() == 0 {
                                negotiation.stage = Stage::RemoteDescription;
                                Command::SetRemoteDescription
                            } else {
                                negotiation.stage = Stage::Tracks;
                                Command::AddTrack(0)
                            }
                        },
                        None => {
                            negotiation.stage = Stage::Finished;
                            negotiation.attached = 0;
                            Command::Fail(
                                SfuError::PublisherNotFound(negotiation.publisher_id.clone()),
                            )
                        },
                    }
                },
                _ => {
                    negotiation.stage = Stage::RemoteDescription;
                    Command::SetRemoteDescription
                },
            },
            Stage::Tracks => {
                let total = negotiation.tracks.len();
                let track = &negotiation.tracks[negotiation.attached];
                self.attach_track(
                    negotiation.publisher_id.as_str(),
                    track.source_track_id.as_str(),
                    track.local_track_id.as_str(),
                );
                assert(negotiation.attached < total);
                negotiation.attached = negotiation.attached + 1;
                if negotiation.attached < total {
                    Command::AddTrack(negotiation.attached)
                } else {
                    negotiation.stage = Stage::RemoteDescription;
                    Command::SetRemoteDescription
                }
            },
            Stage::RemoteDescription => {
                negotiation.stage = Stage::Answer;
                Command::CreateAnswer
            },
            Stage::Answer => {
                negotiation.answer = payload;
                negotiation.stage = Stage::LocalDescription;
                Command::SetLocalDescription
            },
            _ => {
                negotiation.stage = Stage::Finished;
                match negotiation.flow {
                    Flow::UpdatePublisher => Command::Complete,
                    Flow::AddPublisher => match self.publisher_refusal(
                        negotiation.session_id.as_str(),
                    ) {
                        Some(e) => Command::Fail(e),
                        None => {
                            let mut session = PublisherSession::new();
                            std::mem::swap(&mut session, &mut negotiation.session);
                            self.record_publisher(negotiation.session_id.as_str(), session);
                            Command::Complete
                        },
                    },
                    Flow::AddSubscriber => self.record_subscriber(
                        negotiation.session_id.as_str(),
                        negotiation.publisher_id.as_str(),
                        &negotiation.tracks,
                    ),
                }
            },
        }
    }
}

} // verus!
