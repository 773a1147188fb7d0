//! Publisher and subscriber sessions.

use vstd::prelude::*;
use crate::local::broadcaster::TrackBroadcaster;
use crate::table::Table;

verus! {

/// The local tracks that `mapping` pairs with the source track `source`.
pub open spec fn locals_of(mapping: Seq<(String, String)>, source: Seq<char>) -> Set<Seq<char>> {
    Set::new(
        |local: Seq<char>|
            exists|j: int|
                0 <= j < mapping.len() && (#[trigger] mapping[j]).0@ == source && mapping[j].1@
                    == local,
    )
}

/// One more pair adds its local track to the local tracks of its own source
/// track and to those of no other.
pub proof fn lemma_locals_step(mapping: Seq<(String, String)>, k: int, source: Seq<char>)
    requires
        0 <= k < mapping.len(),
    ensures
        locals_of(mapping.take(k + 1), source) == if mapping[k].0@ == source {
            locals_of(mapping.take(k), source).insert(mapping[k].1@)
        } else {
            locals_of(mapping.take(k), source)
        },
{
    let longer = mapping.take(k + 1);
    let shorter = mapping.take(k);
    let expected = if mapping[k].0@ == source {
        locals_of(shorter, source).insert(mapping[k].1@)
    } else {
        locals_of(shorter, source)
    };
    assert forall|local: Seq<char>| locals_of(longer, source).contains(local) implies expected.contains(
        local,
    ) by {
        let j = choose|j: int|
            0 <= j < longer.len() && (#[trigger] longer[j]).0@ == source && longer[j].1@ == local;
        if j < k {
            assert(shorter[j] == longer[j]);
        }
    }
    assert forall|local: Seq<char>| expected.contains(local) implies locals_of(
        longer,
        source,
    ).contains(local) by {
        if locals_of(shorter, source).contains(local) {
            let j = choose|j: int|
                0 <= j < shorter.len() && (#[trigger] shorter[j]).0@ == source && shorter[j].1@
                    == local;
            assert(longer[j] == shorter[j]);
        } else {
            assert(longer[k] == mapping[k]);
        }
    }
    assert(locals_of(longer, source) =~= expected);
}

/// One publisher: the broadcasters made from its incoming tracks, keyed by
/// the id of the source track.
#[derive(Debug)]
pub struct PublisherSession {
    pub broadcasters: Table<TrackBroadcaster>,
}

impl PublisherSession {
    /// The broadcaster table and every broadcaster in it are well formed.
    pub open spec fn wf(&self) -> bool {
        &&& self.broadcasters.wf()
        &&& forall|i: int|
            0 <= i < self.broadcasters.items().len() ==> (#[trigger] self.broadcasters.items()[i]).wf()
    }

    /// The ids of the source tracks, in the order in which they arrived.
    pub open spec fn track_ids(&self) -> Seq<Seq<char>> {
        self.broadcasters.names()
    }

    /// Whether a broadcaster exists for the source track `track_id`.
    pub open spec fn has_track(&self, track_id: Seq<char>) -> bool {
        self.broadcasters.has(track_id)
    }

    /// The broadcaster of the source track `track_id`.
    pub open spec fn track(&self, track_id: Seq<char>) -> TrackBroadcaster {
        self.broadcasters.at(track_id)
    }

    /// A session without tracks.
    pub fn new() -> (session: Self)
        ensures
            session.wf(),
            session.track_ids() == Seq::<Seq<char>>::empty(),
    {
        PublisherSession { broadcasters: Table::new() }
    }

    /// The broadcaster of the source track `track_id`, if there is one.
    pub fn get_broadcaster(&self, track_id: &str) -> (broadcaster: Option<&TrackBroadcaster>)
        requires
            self.wf(),
        ensures
            match broadcaster {
                Some(b) => self.has_track(track_id@) && *b == self.track(track_id@) && b.wf(),
                None => !self.has_track(track_id@),
            },
    {
        match self.broadcasters.position(track_id) {
            Some(i) => {
                proof {
                    self.broadcasters.lemma_at_position(i as int);
                }
                Some(self.broadcasters.value_at(i))
            },
            None => None,
        }
    }

    /// Registers `broadcaster` under `track_id`, replacing the broadcaster
    /// that was registered under that id before.
    pub fn add_broadcaster(&mut self, track_id: String, broadcaster: TrackBroadcaster)
        requires
            old(self).wf(),
            broadcaster.wf(),
        ensures
            final(self).wf(),
            final(self).broadcasters.entries() == old(self).broadcasters.entries().insert(
                track_id@,
                broadcaster,
            ),
            old(self).has_track(track_id@) ==> final(self).track_ids() == old(self).track_ids(),
            !old(self).has_track(track_id@) ==> final(self).track_ids() == old(self).track_ids().push(track_id@),
    {
        self.broadcasters.insert(track_id, broadcaster);
    }

    /// Every source track id with its broadcaster, in arrival order.
    pub fn get_all_broadcasters(&self) -> (all: Vec<(&String, &TrackBroadcaster)>)
        requires
            self.wf(),
        ensures
            all@.len() == self.track_ids().len(),
            forall|i: int|
                0 <= i < all@.len() ==> {
                    &&& (#[trigger] all@[i]).0@ == self.track_ids()[i]
                    &&& *all@[i].1 == self.broadcasters.items()[i]
                },
    {
        let mut all: Vec<(&String, &TrackBroadcaster)> = Vec::new();
        let mut i: usize = 0;
        while i < self.broadcasters.len()
            invariant
                self.wf(),
                i <= self.broadcasters.names().len(),
                all@.len() == i,
                forall|j: int|
                    0 <= j < i ==> {
                        &&& (#[trigger] all@[j]).0@ == self.broadcasters.names()[j]
                        &&& *all@[j].1 == self.broadcasters.items()[j]
                    },
            decreases self.broadcasters.names().len() - i,
        {
            all.push((self.broadcasters.name_at(i), self.broadcasters.value_at(i)));
            i += 1;
        }
        all
    }

    /// Whether this session is `before` with the local track `local`
    /// attached to the broadcaster of `source`, if there is one, and nothing
    /// else changed.
    pub open spec fn attached_to(
        &self,
        before: &PublisherSession,
        source: Seq<char>,
        local: Seq<char>,
    ) -> bool {
        &&& self.track_ids() == before.track_ids()
        &&& self.broadcasters.items().len() == before.broadcasters.items().len()
        &&& forall|i: int|
            0 <= i < self.broadcasters.items().len() ==> {
                let now = #[trigger] self.broadcasters.items()[i];
                let was = before.broadcasters.items()[i];
                &&& now.same_track(&was)
                &&& now.last_pli_time == was.last_pli_time
                &&& now.consumers() == if before.track_ids()[i] == source {
                    was.consumers().insert(local)
                } else {
                    was.consumers()
                }
                &&& before.track_ids()[i] != source ==> now == was
            }
    }

    /// Whether this session is `before` without the consumers of the local
    /// tracks of `mapping`, each taken from the broadcaster of its own
    /// source track, and nothing else changed.
    pub open spec fn detached_from(
        &self,
        before: &PublisherSession,
        mapping: Seq<(String, String)>,
    ) -> bool {
        &&& self.track_ids() == before.track_ids()
        &&& self.broadcasters.items().len() == before.broadcasters.items().len()
        &&& forall|i: int|
            0 <= i < self.broadcasters.items().len() ==> {
                let now = #[trigger] self.broadcasters.items()[i];
                let was = before.broadcasters.items()[i];
                &&& now.same_track(&was)
                &&& now.last_pli_time == was.last_pli_time
                &&& now.consumers() == was.consumers().difference(
                    locals_of(mapping, before.track_ids()[i]),
                )
            }
    }

    /// Whether this session is `before` with an indication recorded at
    /// `now` for the broadcaster of `track`, if there is one, and nothing
    /// else changed.
    pub open spec fn stamped_from(&self, before: &PublisherSession, track: Seq<char>, now: u64) -> bool {
        &&& self.track_ids() == before.track_ids()
        &&& self.broadcasters.items().len() == before.broadcasters.items().len()
        &&& forall|i: int|
            0 <= i < self.broadcasters.items().len() ==> {
                let now_b = #[trigger] self.broadcasters.items()[i];
                let was_b = before.broadcasters.items()[i];
                if before.track_ids()[i] == track {
                    &&& now_b.same_track(&was_b)
                    &&& now_b.consumers() == was_b.consumers()
                    &&& now_b.consumer_ids() == was_b.consumer_ids()
                    &&& now_b.last_pli_time == crate::local::broadcaster::after_sent(
                        was_b.last_pli_time,
                        now,
                    )
                } else {
                    now_b == was_b
                }
            }
    }

    /// Records that an indication for the source track `track` was written
    /// to the publisher at `now_ms`.
    pub fn stamp(&mut self, track: &str, now_ms: u64)
        requires
            old(self).wf(),
        ensures
            final(self).wf(),
            final(self).stamped_from(old(self), track@, now_ms),
    {
        let ghost before = *self;
        match self.broadcasters.position(track) {
            Some(i) => {
                let broadcaster = self.broadcasters.value_mut(i);
                broadcaster.keyframe_sent(now_ms);
                proof {
                    assert forall|j: int| 0 <= j < self.broadcasters.items().len() implies {
                        let now_b = #[trigger] self.broadcasters.items()[j];
                        let was_b = before.broadcasters.items()[j];
                        &&& now_b.wf()
                        &&& if before.track_ids()[j] == track@ {
                            &&& now_b.same_track(&was_b)
                            &&& now_b.consumers() == was_b.consumers()
                            &&& now_b.consumer_ids() == was_b.consumer_ids()
                            &&& now_b.last_pli_time == crate::local::broadcaster::after_sent(
                                was_b.last_pli_time,
                                now_ms,
                            )
                        } else {
                            now_b == was_b
                        }
                    } by {
                        if j != i {
                            assert(before.track_ids()[j] != before.track_ids()[i as int]);
                            assert(self.broadcasters.items()[j] == before.broadcasters.items()[j]);
                        }
                    }
                }
            },
            None => {},
        }
    }

    /// Whether this session is `before` with every consumer detached from
    /// the broadcaster of `track`, if there is one, and nothing else
    /// changed.
    pub open spec fn silenced_from(&self, before: &PublisherSession, track: Seq<char>) -> bool {
        &&& self.track_ids() == before.track_ids()
        &&& self.broadcasters.items().len() == before.broadcasters.items().len()
        &&& forall|i: int|
            0 <= i < self.broadcasters.items().len() ==> {
                let now_b = #[trigger] self.broadcasters.items()[i];
                let was_b = before.broadcasters.items()[i];
                if before.track_ids()[i] == track {
                    &&& now_b.same_track(&was_b)
                    &&& now_b.last_pli_time == was_b.last_pli_time
                    &&& now_b.consumer_ids() == Seq::<Seq<char>>::empty()
                    &&& now_b.consumers() == Set::<Seq<char>>::empty()
                } else {
                    now_b == was_b
                }
            }
    }

    /// The producer of the source track `track` has stopped: every consumer
    /// of its broadcaster is detached, and the local tracks whose consumer
    /// tasks the caller ends are handed back. A track without a broadcaster
    /// has none.
    pub fn producer_stopped(&mut self, track: &str) -> (stopped: Vec<String>)
        requires
            old(self).wf(),
        ensures
            final(self).wf(),
            final(self).silenced_from(old(self), track@),
            stopped.deep_view() == if old(self).has_track(track@) {
                old(self).track(track@).consumer_ids()
            } else {
                Seq::<Seq<char>>::empty()
            },
    {
        let ghost before = *self;
        match self.broadcasters.position(track) {
            Some(i) => {
                proof {
                    before.broadcasters.lemma_at_position(i as int);
                }
                let broadcaster = self.broadcasters.value_mut(i);
                let stopped = broadcaster.producer_stopped();
                proof {
                    assert forall|j: int| 0 <= j < self.broadcasters.items().len() implies {
                        let now_b = #[trigger] self.broadcasters.items()[j];
                        let was_b = before.broadcasters.items()[j];
                        &&& now_b.wf()
                        &&& if before.track_ids()[j] == track@ {
                            &&& now_b.same_track(&was_b)
                            &&& now_b.last_pli_time == was_b.last_pli_time
                            &&& now_b.consumer_ids() == Seq::<Seq<char>>::empty()
                            &&& now_b.consumers() == Set::<Seq<char>>::empty()
                        } else {
                            now_b == was_b
                        }
                    } by {
                        if j != i {
                            assert(before.track_ids()[j] != before.track_ids()[i as int]);
                            assert(self.broadcasters.items()[j] == before.broadcasters.items()[j]);
                        }
                    }
                }
                stopped
            },
            None => {
                let stopped: Vec<String> = Vec::new();
                assert(stopped.deep_view() =~= Seq::<Seq<char>>::empty());
                stopped
            },
        }
    }

    /// Attaches a consumer for the local track `local` to the broadcaster
    /// of the source track `source`. Returns the delays of the keyframe
    /// burst to raise, or nothing when the source track has no broadcaster.
    pub fn attach(&mut self, source: &str, local: String) -> (burst: Option<Vec<u64>>)
        requires
            old(self).wf(),
        ensures
            final(self).wf(),
            final(self).attached_to(old(self), source@, local@),
            burst is Some == old(self).has_track(source@),
            burst matches Some(delays) ==> delays@ == crate::local::broadcaster::burst_spec(
                old(self).track(source@).kind@,
            ),
            !old(self).has_track(source@) ==> final(self).broadcasters.items() == old(self).broadcasters.items(),
    {
        let ghost before = *self;
        match self.broadcasters.position(source) {
            Some(i) => {
                let broadcaster = self.broadcasters.value_mut(i);
                let delays = broadcaster.add_subscriber(local);
                assert(self.attached_to(&before, source@, local@)) by {
                    assert forall|j: int| 0 <= j < self.broadcasters.items().len() implies {
                        let now = #[trigger] self.broadcasters.items()[j];
                        let was = before.broadcasters.items()[j];
                        &&& now.same_track(&was)
                        &&& now.last_pli_time == was.last_pli_time
                        &&& now.consumers() == if before.track_ids()[j] == source@ {
                            was.consumers().insert(local@)
                        } else {
                            was.consumers()
                        }
                        &&& before.track_ids()[j] != source@ ==> now == was
                    } by {
                        if j != i {
                            assert(before.track_ids()[j] != before.track_ids()[i as int]);
                        }
                    }
                }
                Some(delays)
            },
            None => {
                assert(self.attached_to(&before, source@, local@));
                None
            },
        }
    }

    /// Detaches the consumers of the local tracks of `mapping`, each from
    /// the broadcaster of its source track. Pairs whose source track has no
    /// broadcaster, or whose local track has no consumer, are passed over.
    pub fn detach(&mut self, mapping: &Vec<(String, String)>)
        requires
            old(self).wf(),
        ensures
            final(self).wf(),
            final(self).detached_from(old(self), mapping@),
    {
        let ghost before = *self;
        let mut k: usize = 0;
        assert(self.detached_from(&before, mapping@.take(0))) by {
            assert forall|i: int| 0 <= i < self.broadcasters.items().len() implies {
                let was = #[trigger] before.broadcasters.items()[i];
                was.consumers() == was.consumers().difference(
                    locals_of(mapping@.take(0), before.track_ids()[i]),
                )
            } by {
                let was = before.broadcasters.items()[i];
                assert(was.consumers() =~= was.consumers().difference(
                    locals_of(mapping@.take(0), before.track_ids()[i]),
                ));
            }
        }
        while k < mapping.len()
            invariant
                k <= mapping@.len(),
                before.wf(),
                self.wf(),
                self.detached_from(&before, mapping@.take(k as int)),
            decreases mapping@.len() - k,
        {
            let ghost during = *self;
            let source = mapping[k].0.as_str();
            let local = mapping[k].1.as_str();
            match self.broadcasters.position(source) {
                Some(i) => {
                    let broadcaster = self.broadcasters.value_mut(i);
                    broadcaster.remove_subscriber(local);
                },
                None => {},
            }
            assert(self.detached_from(&before, mapping@.take(k + 1))) by {
                assert forall|j: int| 0 <= j < self.broadcasters.items().len() implies {
                    let now = #[trigger] self.broadcasters.items()[j];
                    let was = before.broadcasters.items()[j];
                    &&& now.same_track(&was)
                    &&& now.last_pli_time == was.last_pli_time
                    &&& now.consumers() == was.consumers().difference(
                        locals_of(mapping@.take(k + 1), before.track_ids()[j]),
                    )
                } by {
                    let was = before.broadcasters.items()[j];
                    let mid = during.broadcasters.items()[j];
                    let now = self.broadcasters.items()[j];
                    lemma_locals_step(mapping@, k as int, before.track_ids()[j]);
                    assert(mid.consumers() == was.consumers().difference(
                        locals_of(mapping@.take(k as int), before.track_ids()[j]),
                    ));
                    if before.track_ids()[j] == mapping@[k as int].0@ {
                        assert(during.broadcasters.has(source@));
                        assert(now.consumers() =~= was.consumers().difference(
                            locals_of(mapping@.take(k + 1), before.track_ids()[j]),
                        ));
                    } else {
                        assert(now == mid);
                    }
                }
            }
            k += 1;
        }
        assert(mapping@.take(k as int) =~= mapping@);
    }
}

/// One subscriber: the publisher it listens to, and for each source track
/// of that publisher the local track that carries it.
#[derive(Debug)]
pub struct SubscriberSession {
    pub publisher_id: String,
    pub track_mapping: Vec<(String, String)>,
}

impl SubscriberSession {
    /// A session that listens to `publisher_id` through the local tracks
    /// of `track_mapping`.
    pub fn new(publisher_id: String, track_mapping: Vec<(String, String)>) -> (session: Self)
        ensures
            session.publisher_id == publisher_id,
            session.track_mapping == track_mapping,
    {
        SubscriberSession { publisher_id, track_mapping }
    }
}

} // verus!
