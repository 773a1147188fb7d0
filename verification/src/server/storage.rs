//! The peer registry: which grabber is registered under which name.
//!
//! The registry keeps one status per name. A new registration under a name
//! replaces the status that stood there. Names keep the order in which they
//! were first registered.

use vstd::prelude::*;
use crate::server::protocol::{PeerStatus, PeerStatusView};
use crate::table::Table;
use crate::text::same_text;

verus! {

/// `chrono::Utc::now().timestamp()`: the wall clock in seconds since the
/// Unix epoch. Nothing is promised about the value.
#[verifier::external_body]
fn unix_now() -> (seconds: i64) {
    chrono::Utc::now().timestamp()
}

/// The status of a grabber that has just registered under `name` from the
/// socket `socket_id` at time `now`.
pub open spec fn registered(name: Seq<char>, socket_id: Seq<char>, now: i64) -> PeerStatusView {
    PeerStatusView {
        name,
        socket_id,
        online: true,
        connections: 0,
        stream_types: Seq::empty(),
        last_ping: now,
    }
}

/// `status` after a ping at time `now` that reports `connections`
/// connections and the stream types `streams`.
pub open spec fn pinged(
    status: PeerStatusView,
    connections: u32,
    streams: Seq<Seq<char>>,
    now: i64,
) -> PeerStatusView {
    PeerStatusView {
        name: status.name,
        socket_id: status.socket_id,
        online: true,
        connections,
        stream_types: streams,
        last_ping: now,
    }
}

/// `entries` without the statuses of the socket `socket_id`.
pub open spec fn without_socket(
    entries: Map<Seq<char>, PeerStatusView>,
    socket_id: Seq<char>,
) -> Map<Seq<char>, PeerStatusView> {
    Map::new(
        |name: Seq<char>| entries.contains_key(name) && entries[name].socket_id != socket_id,
        |name: Seq<char>| entries[name],
    )
}

/// The test that a name passes when its status in `entries` does not
/// belong to the socket `socket_id`.
pub open spec fn of_other_socket(
    entries: Map<Seq<char>, PeerStatusView>,
    socket_id: Seq<char>,
) -> spec_fn(Seq<char>) -> bool {
    |name: Seq<char>| entries[name].socket_id != socket_id
}

/// Whether some status in `entries` belongs to the socket `socket_id`.
pub open spec fn knows_socket(entries: Map<Seq<char>, PeerStatusView>, socket_id: Seq<char>) -> bool {
    exists|name: Seq<char>| entries.contains_key(name) && (#[trigger] entries[name]).socket_id == socket_id
}

/// Whether position `i` of `order` holds the first name whose status in
/// `entries` belongs to the socket `socket_id`.
pub open spec fn is_first_of_socket(
    order: Seq<Seq<char>>,
    entries: Map<Seq<char>, PeerStatusView>,
    socket_id: Seq<char>,
    i: int,
) -> bool {
    &&& 0 <= i < order.len()
    &&& entries.contains_key(order[i])
    &&& entries[order[i]].socket_id == socket_id
    &&& forall|j: int| 0 <= j < i ==> entries[#[trigger] order[j]].socket_id != socket_id
}

/// Whether `after` is `before` with a ping from the socket `socket_id`
/// recorded: the first name in `order` whose status belongs to that socket
/// took the reported connections and stream types and is online, and
/// nothing else changed. A socket that `before` does not know changes
/// nothing.
pub open spec fn ping_recorded(
    order: Seq<Seq<char>>,
    before: Map<Seq<char>, PeerStatusView>,
    after: Map<Seq<char>, PeerStatusView>,
    socket_id: Seq<char>,
    connections: u32,
    streams: Seq<Seq<char>>,
) -> bool {
    if knows_socket(before, socket_id) {
        exists|i: int|
            {
                &&& is_first_of_socket(order, before, socket_id, i)
                &&& after == before.insert(
                    #[trigger] order[i],
                    pinged(before[order[i]], connections, streams, after[order[i]].last_ping),
                )
            }
    } else {
        after == before
    }
}

/// A grabber that has registered is found under its name: the status under
/// the name holds the socket it registered from.
pub proof fn lemma_registered_peer_is_found(
    before: Map<Seq<char>, PeerStatusView>,
    name: Seq<char>,
    socket_id: Seq<char>,
    now: i64,
)
    ensures
        before.insert(name, registered(name, socket_id, now)).contains_key(name),
        before.insert(name, registered(name, socket_id, now))[name].socket_id == socket_id,
        before.insert(name, registered(name, socket_id, now))[name].name == name,
{
}

/// A registered grabber stays found under its name, with the socket it
/// registered from, for as long as no grabber registers under the same
/// name and its socket is not removed: across the ping of any socket,
/// across a registration under another name, and across the removal of
/// another socket.
pub proof fn lemma_registration_holds(
    order: Seq<Seq<char>>,
    before: Map<Seq<char>, PeerStatusView>,
    after: Map<Seq<char>, PeerStatusView>,
    name: Seq<char>,
    socket_id: Seq<char>,
    other_name: Seq<char>,
    other_socket: Seq<char>,
    connections: u32,
    streams: Seq<Seq<char>>,
    now: i64,
)
    requires
        before.contains_key(name),
        before[name].socket_id == socket_id,
        ({
            ||| ping_recorded(order, before, after, other_socket, connections, streams)
            ||| other_name != name && after == before.insert(
                other_name,
                registered(other_name, other_socket, now),
            )
            ||| other_socket != socket_id && after == without_socket(before, other_socket)
        }),
    ensures
        after.contains_key(name),
        after[name].socket_id == socket_id,
{
    if ping_recorded(order, before, after, other_socket, connections, streams) {
        if knows_socket(before, other_socket) {
            let i = choose|i: int|
                {
                    &&& is_first_of_socket(order, before, other_socket, i)
                    &&& after == before.insert(
                        #[trigger] order[i],
                        pinged(before[order[i]], connections, streams, after[order[i]].last_ping),
                    )
                };
            assert(after.contains_key(name));
        }
    }
}

/// Removing a socket unregisters every grabber that registered from it.
pub proof fn lemma_removal_unregisters(
    before: Map<Seq<char>, PeerStatusView>,
    name: Seq<char>,
    socket_id: Seq<char>,
)
    requires
        before.contains_key(name),
        before[name].socket_id == socket_id,
    ensures
        !without_socket(before, socket_id).contains_key(name),
{
}

/// The registry of grabbers.
pub struct Storage {
    peers: Table<PeerStatus>,
}

impl View for Storage {
    type V = Map<Seq<char>, PeerStatusView>;

    closed spec fn view(&self) -> Map<Seq<char>, PeerStatusView> {
        Map::new(|name: Seq<char>| self.peers.has(name), |name: Seq<char>| self.peers.at(name)@)
    }
}

impl Storage {
    /// The registered names, in the order in which they were first
    /// registered.
    pub closed spec fn order(&self) -> Seq<Seq<char>> {
        self.peers.names()
    }

    /// The table behind the registry is well formed.
    pub closed spec fn table_wf(&self) -> bool {
        self.peers.wf()
    }

    /// The registered names are distinct and are the names that have a
    /// status, and every status stands under its own name.
    pub open spec fn wf(&self) -> bool {
        &&& self.table_wf()
        &&& self.order().no_duplicates()
        &&& forall|name: Seq<char>| self@.contains_key(name) <==> self.order().contains(name)
        &&& forall|name: Seq<char>| self@.contains_key(name) ==> (#[trigger] self@[name]).name == name
    }

    /// An empty registry.
    pub fn new() -> (storage: Self)
        ensures
            storage.wf(),
            storage@ == Map::<Seq<char>, PeerStatusView>::empty(),
            storage.order() == Seq::<Seq<char>>::empty(),
    {
        let storage = Storage { peers: Table::new() };
        assert(storage@ =~= Map::<Seq<char>, PeerStatusView>::empty());
        storage
    }

    /// Registers the grabber `name`, connected through the socket
    /// `socket_id`, at time `now`. A status that stood under `name` is
    /// replaced; a new name goes to the end of the order.
    pub fn add_peer_at(&mut self, name: String, socket_id: String, now: i64)
        requires
            old(self).wf(),
        ensures
            final(self).wf(),
            final(self)@ == old(self)@.insert(name@, registered(name@, socket_id@, now)),
            final(self).order() == if old(self)@.contains_key(name@) {
                old(self).order()
            } else {
                old(self).order().push(name@)
            },
    {
        let status = PeerStatus {
            name: name.clone(),
            socket_id,
            online: true,
            connections: 0,
            stream_types: Vec::new(),
            last_ping: now,
        };
        assert(status@ == registered(name@, socket_id@, now)) by {
            assert(status.stream_types.deep_view() =~= Seq::<Seq<char>>::empty());
        }
        let ghost before = *self;
        self.peers.insert(name, status);
        proof {
            assert(self.peers.entries().contains_key(name@));
            assert(self@ =~= before@.insert(name@, registered(name@, socket_id@, now))) by {
                assert forall|other: Seq<char>| self@.contains_key(other) implies #[trigger] self@[other]
                    == before@.insert(name@, registered(name@, socket_id@, now))[other] by {
                    assert(self.peers.entries().contains_key(other));
                    assert(self.peers.entries()[other] == self.peers.at(other));
                    if other != name@ {
                        assert(before.peers.entries().contains_key(other));
                        assert(before.peers.entries()[other] == before.peers.at(other));
                    }
                }
                assert forall|other: Seq<char>|
                    before@.insert(name@, registered(name@, socket_id@, now)).contains_key(
                        other,
                    ) implies self@.contains_key(other) by {
                    if other != name@ {
                        assert(before.peers.entries().contains_key(other));
                        assert(self.peers.entries().contains_key(other));
                    }
                }
            }
            assert forall|other: Seq<char>| self@.contains_key(other) implies (#[trigger] self@[other]).name
                == other by {
                if other != name@ {
                    assert(before@.contains_key(other));
                }
            }
        }
    }

    /// Registers the grabber `name`, connected through the socket
    /// `socket_id`, at the current time. A status that stood under `name` is
    /// replaced; a new name goes to the end of the order.
    pub fn add_peer(&mut self, name: String, socket_id: String)
        requires
            old(self).wf(),
        ensures
            final(self).wf(),
            final(self)@.contains_key(name@),
            final(self)@ == old(self)@.insert(
                name@,
                registered(name@, socket_id@, final(self)@[name@].last_ping),
            ),
            final(self).order() == if old(self)@.contains_key(name@) {
                old(self).order()
            } else {
                old(self).order().push(name@)
            },
    {
        let now = unix_now();
        self.add_peer_at(name, socket_id, now);
    }

    /// The status registered under `name`, if there is one.
    pub fn get_peer_by_name(&self, name: &str) -> (status: Option<PeerStatus>)
        requires
            self.wf(),
        ensures
            status is Some == self@.contains_key(name@),
            status matches Some(found) ==> found@ == self@[name@],
    {
        match self.peers.get(name) {
            Some(found) => Some(found.duplicate()),
            None => None,
        }
    }

    /// Records a ping from the socket `socket_id` at time `now`: the first
    /// registered name of that socket takes the reported connections and
    /// stream types, the time of the ping, and is online. A socket that the
    /// registry does not know changes nothing.
    pub fn update_ping_at(
        &mut self,
        socket_id: &str,
        connections: u32,
        streams: Vec<String>,
        now: i64,
    )
        requires
            old(self).wf(),
        ensures
            final(self).wf(),
            final(self).order() == old(self).order(),
            !knows_socket(old(self)@, socket_id@) ==> final(self)@ == old(self)@,
            knows_socket(old(self)@, socket_id@) ==> exists|i: int|
                {
                    &&& 0 <= i < old(self).order().len()
                    &&& is_first_of_socket(old(self).order(), old(self)@, socket_id@, i)
                    &&& final(self)@ == old(self)@.insert(
                        #[trigger] old(self).order()[i],
                        pinged(
                            old(self)@[old(self).order()[i]],
                            connections,
                            streams.deep_view(),
                            now,
                        ),
                    )
                },
    {
        let ghost before = *self;
        let mut i: usize = 0;
        while i < self.peers.len()
            invariant
                i <= self.peers.names().len(),
                *self == before,
                before == *old(self),
                self.wf(),
                forall|j: int|
                    0 <= j < i ==> before@[#[trigger] before.order()[j]].socket_id != socket_id@,
            decreases self.peers.names().len() - i,
        {
            let ghost name = self.peers.names()[i as int];
            proof {
                self.peers.lemma_at_position(i as int);
                assert(self@.contains_key(name));
                assert(self@[name] == self.peers.items()[i as int]@);
            }
            if same_text(self.peers.value_at(i).socket_id.as_str(), socket_id) {
                let peer = self.peers.value_mut(i);
                peer.connections = connections;
                peer.stream_types = streams;
                peer.last_ping = now;
                peer.online = true;
                proof {
                    let updated = self.peers.items()[i as int];
                    assert(updated@ == pinged(before@[name], connections, streams.deep_view(), now));
                    self.peers.lemma_at_position(i as int);
                    assert(self@ =~= before@.insert(
                        name,
                        pinged(before@[name], connections, streams.deep_view(), now),
                    )) by {
                        assert forall|other: Seq<char>| self@.contains_key(other) implies #[trigger] self@[other]
                            == before@.insert(
                            name,
                            pinged(before@[name], connections, streams.deep_view(), now),
                        )[other] by {
                            if other != name {
                                let j = self.peers.names().index_of(other);
                                assert(self.peers.names()[j] == other);
                                assert(j != i);
                            }
                        }
                    }
                    assert forall|other: Seq<char>| self@.contains_key(other) implies (
                    #[trigger] self@[other]).name == other by {
                        if other != name {
                            assert(before@.contains_key(other));
                        }
                    }
                    assert(is_first_of_socket(before.order(), before@, socket_id@, i as int));
                    assert(knows_socket(before@, socket_id@));
                }
                return ;
            }
            i += 1;
        }
        proof {
            assert(!knows_socket(before@, socket_id@)) by {
                assert forall|name: Seq<char>| before@.contains_key(name) implies (
                #[trigger] before@[name]).socket_id != socket_id@ by {
                    let j = before.order().index_of(name);
                    assert(before.order()[j] == name);
                }
            }
        }
    }

    /// Records a ping from the socket `socket_id` at the current time. See
    /// [`Storage::update_ping_at`].
    pub fn update_ping(&mut self, socket_id: &str, connections: u32, streams: Vec<String>)
        requires
            old(self).wf(),
        ensures
            final(self).wf(),
            final(self).order() == old(self).order(),
            ping_recorded(
                old(self).order(),
                old(self)@,
                final(self)@,
                socket_id@,
                connections,
                streams.deep_view(),
            ),
    {
        let now = unix_now();
        self.update_ping_at(socket_id, connections, streams, now);
    }

    /// Removes every status of the socket `socket_id`. The names that stay
    /// keep their order.
    pub fn remove_peer_by_socket_id(&mut self, socket_id: &str)
        requires
            old(self).wf(),
        ensures
            final(self).wf(),
            final(self)@ == without_socket(old(self)@, socket_id@),
            final(self).order() == old(self).order().filter(
                of_other_socket(old(self)@, socket_id@),
            ),
    {
        let ghost before = *self;
        let ghost keeps = of_other_socket(before@, socket_id@);
        let mut i: usize = self.peers.len();
        proof {
            assert(before.order().skip(i as int) =~= Seq::<Seq<char>>::empty());
            before.order().skip(i as int).lemma_filter_eq_filter_alt(keeps);
            assert(self.order() =~= before.order().take(i as int) + before.order().skip(
                i as int,
            ).filter(keeps));
        }
        while i > 0
            invariant
                i <= before.order().len(),
                self.wf(),
                before.wf(),
                keeps == of_other_socket(before@, socket_id@),
                self.order() == before.order().take(i as int) + before.order().skip(
                    i as int,
                ).filter(keeps),
                self@ == Map::new(
                    |name: Seq<char>|
                        before@.contains_key(name) && !(before.order().skip(i as int).contains(name)
                            && before@[name].socket_id == socket_id@),
                    |name: Seq<char>| before@[name],
                ),
            decreases i,
        {
            let ghost kept = before.order().skip(i as int).filter(keeps);
            i -= 1;
            let ghost during = *self;
            let ghost name = before.order()[i as int];
            proof {
                assert(during.order()[i as int] == name) by {
                    assert((before.order().take(i + 1) + kept)[i as int] == before.order().take(
                        i + 1,
                    )[i as int]);
                }
                self.peers.lemma_at_position(i as int);
                crate::table::lemma_found_at(before.order(), i as int);
                assert(before.order().skip(i as int) =~= seq![name] + before.order().skip(i + 1));
                assert(before.order().skip(i as int).drop_first() =~= before.order().skip(i + 1));
                before.order().skip(i as int).lemma_filter_eq_filter_alt(keeps);
                assert(forall|other: Seq<char>|
                    before.order().skip(i as int).contains(other) <==> (before.order().skip(
                        i + 1,
                    ).contains(other) || other == name)) by {
                    assert forall|other: Seq<char>|
                        before.order().skip(i as int).contains(other) implies (before.order().skip(
                            i + 1,
                        ).contains(other) || other == name) by {
                        let j = before.order().skip(i as int).index_of(other);
                        if j > 0 {
                            assert(before.order().skip(i + 1)[j - 1] == other);
                        }
                    }
                    assert forall|other: Seq<char>|
                        (before.order().skip(i + 1).contains(other) || other
                            == name) implies before.order().skip(i as int).contains(other) by {
                        if other == name {
                            assert(before.order().skip(i as int)[0] == name);
                        } else {
                            let j = before.order().skip(i + 1).index_of(other);
                            assert(before.order().skip(i as int)[j + 1] == other);
                        }
                    }
                }
                assert(!before.order().skip(i + 1).contains(name)) by {
                    if before.order().skip(i + 1).contains(name) {
                        let j = before.order().skip(i + 1).index_of(name);
                        assert(before.order()[i + 1 + j] == name);
                    }
                }
                assert(during@.contains_key(name));
                assert(during@[name] == during.peers.items()[i as int]@);
                assert(during@[name] == before@[name]);
            }
            if same_text(self.peers.value_at(i).socket_id.as_str(), socket_id) {
                let key = self.peers.name_at(i).clone();
                self.peers.remove(key.as_str());
                proof {
                    assert(before@[name].socket_id == socket_id@);
                    assert(!keeps(name));
                    assert(self.order() =~= during.order().remove(i as int));
                    assert(self.order() =~= before.order().take(i as int) + before.order().skip(
                        i as int,
                    ).filter(keeps)) by {
                        assert(during.order().remove(i as int) =~= before.order().take(i as int)
                            + kept);
                    }
                    assert forall|other: Seq<char>| self.peers.has(other) implies during.peers.has(
                        other,
                    ) && other != name && self.peers.at(other) == during.peers.at(other) by {
                        assert(self.peers.entries().contains_key(other));
                        assert(during.peers.entries().remove(name).contains_key(other));
                        assert(self.peers.entries()[other] == during.peers.entries()[other]);
                    }
                    assert forall|other: Seq<char>| during.peers.has(other) && other
                        != name implies self.peers.has(other) by {
                        assert(during.peers.entries().remove(name).contains_key(other));
                        assert(self.peers.entries().contains_key(other));
                    }
                }
            } else {
                proof {
                    assert(before@[name].socket_id != socket_id@);
                    assert(keeps(name));
                    assert(self.order() =~= before.order().take(i as int) + before.order().skip(
                        i as int,
                    ).filter(keeps)) by {
                        assert(before.order().take(i + 1) =~= before.order().take(i as int)
                            + seq![name]);
                    }
                }
            }
            proof {
                let target = Map::new(
                    |other: Seq<char>|
                        before@.contains_key(other) && !(before.order().skip(i as int).contains(
                            other,
                        ) && before@[other].socket_id == socket_id@),
                    |other: Seq<char>| before@[other],
                );
                assert forall|other: Seq<char>| #[trigger]
                    self@.contains_key(other) implies target.contains_key(other) by {
                    assert(during@.contains_key(other));
                }
                assert forall|other: Seq<char>| self@.contains_key(other) implies #[trigger] self@[other]
                    == target[other] by {
                    assert(during@.contains_key(other));
                    assert(during@[other] == before@[other]);
                }
                assert forall|other: Seq<char>| target.contains_key(other) implies self@.contains_key(
                    other,
                ) by {
                    if other != name {
                        assert(during@.contains_key(other));
                    }
                }
                assert(self@ =~= target);
                assert(self.order().no_duplicates());
                assert forall|other: Seq<char>| self@.contains_key(other) implies (
                #[trigger] self@[other]).name == other by {
                    assert(before@.contains_key(other));
                }
            }
        }
        proof {
            assert(before.order().skip(0) =~= before.order());
            assert(before.order().take(0) + before.order().filter(keeps) =~= before.order().filter(
                keeps,
            ));
            assert(self@ =~= without_socket(before@, socket_id@));
        }
    }

    /// The status of every registered grabber, each once, in the order of
    /// their names.
    pub fn get_all_statuses(&self) -> (statuses: Vec<PeerStatus>)
        requires
            self.wf(),
        ensures
            statuses@.len() == self.order().len(),
            statuses@.len() == self@.dom().len(),
            forall|i: int|
                0 <= i < statuses@.len() ==> (#[trigger] statuses@[i]).name@ == self.order()[i]
                    && self@.contains_key(self.order()[i]) && statuses@[i]@ == self@[self.order()[i]],
    {
        let mut statuses: Vec<PeerStatus> = Vec::new();
        let mut i: usize = 0;
        while i < self.peers.len()
            invariant
                i <= self.peers.names().len(),
                self.wf(),
                statuses@.len() == i,
                forall|j: int|
                    0 <= j < i ==> (#[trigger] statuses@[j]).name@ == self.order()[j]
                        && self@.contains_key(self.order()[j]) && statuses@[j]@
                        == self@[self.order()[j]],
            decreases self.peers.names().len() - i,
        {
            proof {
                self.peers.lemma_at_position(i as int);
                assert(self@.contains_key(self.order()[i as int]));
                assert(self@[self.order()[i as int]] == self.peers.items()[i as int]@);
            }
            statuses.push(self.peers.value_at(i).duplicate());
            i += 1;
        }
        proof {
            self.order().unique_seq_to_set();
            assert(self.order().to_set() =~= self@.dom());
        }
        statuses
    }
}

} // verus!
