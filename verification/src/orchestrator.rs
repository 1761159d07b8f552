use vstd::prelude::*;

use crate::bytes::{bytes_eq, clone_bytes};
use crate::events::{is_add_peer, is_open_for, Action, EventV, ReplicatorEvent, WireEvent};
use crate::feed::{all_peers_done, has_dk, peer_added, registered_rel, stats_of_feed, Stats};
use crate::hub::{emitted, SubscriberHub};
use crate::keys::dk_of;
use crate::registry::FeedRegistry;
use crate::session::{has_opened, opened_unique, session_wf, ConnectionSession, SessionState};

verus! {

/// The replication orchestrator: the feed registry, the subscriber hub,
/// and one reactive session per connection. Registering a feed announces
/// it to every live subscriber; each session reacts to its own wire
/// events and to those announcements, and issues each feed's open
/// command exactly once.
pub struct Replicator {
    pub registry: FeedRegistry,
    pub hub: SubscriberHub,
    pub sessions: Vec<ConnectionSession>,
}

/// All sessions other than `sid` are exactly as they were.
pub open spec fn others_unchanged(pre: Replicator, post: Replicator, sid: int) -> bool {
    post.sessions@.len() == pre.sessions@.len() && forall|k: int|
        0 <= k < pre.sessions@.len() && k != sid ==> post.sessions@[k] == pre.sessions@[k]
}

/// Session `sid` moved to `Terminated`, keeping its subscription and its
/// record of opened feeds; nothing else changed.
pub open spec fn session_terminated(pre: Replicator, post: Replicator, sid: int) -> bool {
    &&& post.registry == pre.registry
    &&& post.hub == pre.hub
    &&& others_unchanged(pre, post, sid)
    &&& post.sessions@[sid].state is Terminated
    &&& post.sessions@[sid].subscriber == pre.sessions@[sid].subscriber
    &&& post.sessions@[sid].opened == pre.sessions@[sid].opened
}

/// What a handshake does: a waiting session stores the remote identity,
/// snapshots the registry, records every registered discovery key as
/// opened, and issues one open command per registered feed, in registry
/// order. In any other state the handshake changes nothing.
pub open spec fn handshake_post(
    pre: Replicator,
    post: Replicator,
    sid: int,
    remote: Seq<u8>,
    actions: Seq<Action>,
) -> bool {
    match pre.sessions@[sid].state {
        SessionState::AwaitingHandshake => {
            &&& post.registry == pre.registry
            &&& post.hub == pre.hub
            &&& others_unchanged(pre, post, sid)
            &&& post.sessions@[sid].state matches SessionState::Active(r) && r@ == remote
            &&& post.sessions@[sid].subscriber == pre.sessions@[sid].subscriber
            &&& post.sessions@[sid].opened@.len() == pre.registry.entries@.len()
            &&& forall|i: int|
                0 <= i < pre.registry.entries@.len() ==> (
                #[trigger] post.sessions@[sid].opened@[i])@
                    == pre.registry.entries@[i].discovery_key@
            &&& actions.len() == pre.registry.entries@.len()
            &&& forall|i: int|
                0 <= i < actions.len() ==> is_open_for(
                    #[trigger] actions[i],
                    pre.registry.entries@[i].public_key@,
                    pre.registry.entries@[i].discovery_key@,
                )
        },
        _ => post == pre && actions.len() == 0,
    }
}

/// What a channel bound to `dk` does: an active session hands the remote
/// identity to the feed registered under `dk`, and asks its owner to
/// route the channel there; a channel for an unregistered key is dropped
/// silently, whatever the state. A channel for a registered key before
/// the handshake is a protocol violation and terminates the session.
pub open spec fn channel_post(
    pre: Replicator,
    post: Replicator,
    sid: int,
    dk: Seq<u8>,
    actions: Seq<Action>,
) -> bool {
    match pre.sessions@[sid].state {
        SessionState::Active(remote) => {
            if has_dk(pre.registry.entries@, dk) {
                &&& post.hub == pre.hub
                &&& others_unchanged(pre, post, sid)
                &&& post.sessions@[sid] == pre.sessions@[sid]
                &&& peer_added(pre.registry.entries@, post.registry.entries@, dk, remote@)
                &&& actions.len() == 1 && is_add_peer(actions[0], dk, remote@)
            } else {
                post == pre && actions.len() == 0
            }
        },
        SessionState::AwaitingHandshake => {
            if has_dk(pre.registry.entries@, dk) {
                session_terminated(pre, post, sid) && actions.len() == 0
            } else {
                post == pre && actions.len() == 0
            }
        },
        SessionState::Terminated => post == pre && actions.len() == 0,
    }
}

/// What a request for an unknown discovery key does: any session that is
/// not terminated re-broadcasts it to the hub; nothing else changes and
/// no wire action is issued.
pub open spec fn unknown_key_post(
    pre: Replicator,
    post: Replicator,
    sid: int,
    dk: Seq<u8>,
    actions: Seq<Action>,
) -> bool {
    actions.len() == 0 && match pre.sessions@[sid].state {
        SessionState::Terminated => post == pre,
        _ => {
            &&& post.registry == pre.registry
            &&& post.sessions == pre.sessions
            &&& emitted(pre.hub.queues@, post.hub.queues@, EventV::DiscoveryKey(dk))
        },
    }
}

/// What a feed announcement does to one session: an active session that
/// has not yet opened the feed registered under `dk` issues exactly one
/// open command for it and records the key as opened; in every other
/// case (not yet active, already terminated, key unknown, or already
/// opened) the announcement changes nothing.
pub open spec fn feed_event_post(
    pre: Replicator,
    post: Replicator,
    sid: int,
    dk: Seq<u8>,
    actions: Seq<Action>,
) -> bool {
    match pre.sessions@[sid].state {
        SessionState::Active(_) => {
            if has_dk(pre.registry.entries@, dk) && !has_opened(
                pre.sessions@[sid].opened@,
                dk,
            ) {
                &&& post.registry == pre.registry
                &&& post.hub == pre.hub
                &&& others_unchanged(pre, post, sid)
                &&& post.sessions@[sid].state == pre.sessions@[sid].state
                &&& post.sessions@[sid].subscriber == pre.sessions@[sid].subscriber
                &&& post.sessions@[sid].opened@.len() == pre.sessions@[sid].opened@.len() + 1
                &&& forall|k: int|
                    0 <= k < pre.sessions@[sid].opened@.len() ==> post.sessions@[sid].opened@[k]
                        == pre.sessions@[sid].opened@[k]
                &&& post.sessions@[sid].opened@.last()@ == dk
                &&& actions.len() == 1
                &&& exists|j: int|
                    0 <= j < pre.registry.entries@.len() && (
                    #[trigger] pre.registry.entries@[j]).discovery_key@ == dk && is_open_for(
                        actions[0],
                        pre.registry.entries@[j].public_key@,
                        dk,
                    )
            } else {
                post == pre && actions.len() == 0
            }
        },
        _ => post == pre && actions.len() == 0,
    }
}

/// What registering a feed does: the registry gains (or replaces, last
/// write wins) the entry for the key's derived discovery key, and a
/// `Feed` announcement is broadcast to every live subscriber. Sessions
/// themselves change only when they consume the announcement.
pub open spec fn add_feed_post(pre: Replicator, post: Replicator, pk: Seq<u8>, dk: Seq<u8>) -> bool {
    &&& dk == dk_of(pk)
    &&& registered_rel(pre.registry.entries@, post.registry.entries@, pk, dk)
    &&& emitted(pre.hub.queues@, post.hub.queues@, EventV::Feed(dk))
    &&& post.sessions == pre.sessions
}

impl Replicator {
    /// Registry entries are well formed, and every session is well formed
    /// and subscribed to an existing hub queue.
    pub open spec fn wf(self) -> bool {
        &&& self.registry.wf()
        &&& forall|i: int|
            0 <= i < self.sessions@.len() ==> session_wf(#[trigger] self.sessions@[i])
                && self.sessions@[i].subscriber < self.hub.queues@.len()
    }

    /// Create a replicator with no feeds, no subscribers and no sessions.
    pub fn new() -> (r: Replicator)
        ensures
            r.wf(),
            r.registry.entries@.len() == 0,
            r.hub.queues@.len() == 0,
            r.sessions@.len() == 0,
    {
        Replicator { registry: FeedRegistry::new(), hub: SubscriberHub::new(), sessions: Vec::new() }
    }

    /// Register a feed by its public key and broadcast its availability.
    /// This single action is what makes a late-arriving feed visible to
    /// already-connected peers. Returns the feed's discovery key.
    pub fn add_feed(&mut self, public_key: Vec<u8>) -> (dk: Vec<u8>)
        requires
            old(self).wf(),
            public_key@.len() == 32,
        ensures
            final(self).wf(),
            dk@ == dk_of(public_key@),
            dk@.len() == 32,
            add_feed_post(*old(self), *final(self), public_key@, dk@),
    {
        let dk = self.registry.register(public_key);
        let announce = clone_bytes(&dk);
        self.hub.emit(ReplicatorEvent::Feed(announce));
        dk
    }

    /// Register an external subscriber: it will receive a copy of every
    /// event emitted from now on, through `next_event`.
    pub fn subscribe(&mut self) -> (id: usize)
        requires
            old(self).wf(),
        ensures
            final(self).wf(),
            final(self).registry == old(self).registry,
            final(self).sessions == old(self).sessions,
            id == old(self).hub.queues@.len(),
            final(self).hub.queues@.len() == old(self).hub.queues@.len() + 1,
            forall|k: int|
                0 <= k < old(self).hub.queues@.len() ==> final(self).hub.queues@[k] == old(
                    self,
                ).hub.queues@[k],
            final(self).hub.queues@.last().live,
            final(self).hub.queues@.last().pending@.len() == 0,
    {
        self.hub.subscribe()
    }

    /// Take the oldest undelivered event from a subscription, if any.
    pub fn next_event(&mut self, id: usize) -> (r: Option<ReplicatorEvent>)
        requires
            old(self).wf(),
            id < old(self).hub.queues@.len(),
        ensures
            final(self).wf(),
            final(self).registry == old(self).registry,
            final(self).sessions == old(self).sessions,
            final(self).hub.queues@.len() == old(self).hub.queues@.len(),
            forall|k: int|
                0 <= k < old(self).hub.queues@.len() && k != id ==> final(self).hub.queues@[k]
                    == old(self).hub.queues@[k],
            final(self).hub.queues@[id as int].live == old(self).hub.queues@[id as int].live,
            old(self).hub.queues@[id as int].pending@.len() == 0 ==> r is None && *final(self)
                == *old(self),
            old(self).hub.queues@[id as int].pending@.len() > 0 ==> {
                &&& r matches Some(e) && e == old(self).hub.queues@[id as int].pending@[0]
                &&& final(self).hub.queues@[id as int].pending@ == old(
                    self,
                ).hub.queues@[id as int].pending@.drop_first()
            },
    {
        self.hub.next_event(id)
    }

    /// Mark a subscription as abandoned: later broadcasts skip it.
    pub fn unsubscribe(&mut self, id: usize)
        requires
            old(self).wf(),
            id < old(self).hub.queues@.len(),
        ensures
            final(self).wf(),
            final(self).registry == old(self).registry,
            final(self).sessions == old(self).sessions,
            final(self).hub.queues@.len() == old(self).hub.queues@.len(),
            forall|k: int|
                0 <= k < old(self).hub.queues@.len() && k != id ==> final(self).hub.queues@[k]
                    == old(self).hub.queues@[k],
            !final(self).hub.queues@[id as int].live,
            final(self).hub.queues@[id as int].pending == old(self).hub.queues@[id as int].pending,
    {
        self.hub.close(id)
    }

    /// Create the reactive session for one new connection: it subscribes
    /// to the hub first, then starts waiting for its handshake. Returns
    /// the session's handle.
    pub fn add_connection(&mut self) -> (sid: usize)
        requires
            old(self).wf(),
        ensures
            final(self).wf(),
            sid == old(self).sessions@.len(),
            final(self).registry == old(self).registry,
            final(self).sessions@.len() == old(self).sessions@.len() + 1,
            forall|k: int|
                0 <= k < old(self).sessions@.len() ==> final(self).sessions@[k] == old(
                    self,
                ).sessions@[k],
            final(self).sessions@.last().state is AwaitingHandshake,
            final(self).sessions@.last().subscriber == old(self).hub.queues@.len(),
            final(self).sessions@.last().opened@.len() == 0,
            final(self).hub.queues@.len() == old(self).hub.queues@.len() + 1,
            forall|k: int|
                0 <= k < old(self).hub.queues@.len() ==> final(self).hub.queues@[k] == old(
                    self,
                ).hub.queues@[k],
            final(self).hub.queues@.last().live,
            final(self).hub.queues@.last().pending@.len() == 0,
    {
        let sub = self.hub.subscribe();
        let sid = self.sessions.len();
        self.sessions.push(
            ConnectionSession {
                state: SessionState::AwaitingHandshake,
                subscriber: sub,
                opened: Vec::new(),
            },
        );
        sid
    }

    /// The hub subscription a session consumes its announcements from.
    pub fn session_subscriber(&self, sid: usize) -> (r: usize)
        requires
            sid < self.sessions@.len(),
        ensures
            r == self.sessions@[sid as int].subscriber,
    {
        self.sessions[sid].subscriber
    }

    /// End a session for good: its event stream ended, or issuing an open
    /// command failed (which implies the transport or codec is broken).
    pub fn terminate_session(&mut self, sid: usize)
        requires
            old(self).wf(),
            sid < old(self).sessions@.len(),
        ensures
            final(self).wf(),
            session_terminated(*old(self), *final(self), sid as int),
    {
        let s = self.sessions.remove(sid);
        self.sessions.insert(
            sid,
            ConnectionSession {
                state: SessionState::Terminated,
                subscriber: s.subscriber,
                opened: s.opened,
            },
        );
        proof {
            old(self).sessions@.remove_ensures(sid as int);
            old(self).sessions@.remove(sid as int).insert_ensures(
                sid as int,
                self.sessions@[sid as int],
            );
        }
    }

    /// React to one event from a session's wire stream.
    pub fn handle_wire_event(&mut self, sid: usize, event: WireEvent) -> (actions: Vec<Action>)
        requires
            old(self).wf(),
            sid < old(self).sessions@.len(),
        ensures
            final(self).wf(),
            event matches WireEvent::Handshake(remote) ==> handshake_post(
                *old(self),
                *final(self),
                sid as int,
                remote@,
                actions@,
            ),
            event matches WireEvent::Channel(dk) ==> channel_post(
                *old(self),
                *final(self),
                sid as int,
                dk@,
                actions@,
            ),
            event matches WireEvent::DiscoveryKey(dk) ==> unknown_key_post(
                *old(self),
                *final(self),
                sid as int,
                dk@,
                actions@,
            ),
            event is Error ==> session_terminated(*old(self), *final(self), sid as int)
                && actions@.len() == 0,
    {
        match event {
            WireEvent::Handshake(remote) => self.do_handshake(sid, remote),
            WireEvent::Channel(dk) => self.do_channel(sid, dk),
            WireEvent::DiscoveryKey(dk) => self.do_unknown_key(sid, dk),
            WireEvent::Error => {
                self.terminate_session(sid);
                Vec::new()
            },
        }
    }

    /// React to one announcement consumed from a session's subscription.
    pub fn handle_replicator_event(&mut self, sid: usize, event: ReplicatorEvent) -> (actions: Vec<
        Action,
    >)
        requires
            old(self).wf(),
            sid < old(self).sessions@.len(),
        ensures
            final(self).wf(),
            event matches ReplicatorEvent::Feed(dk) ==> feed_event_post(
                *old(self),
                *final(self),
                sid as int,
                dk@,
                actions@,
            ),
            event matches ReplicatorEvent::DiscoveryKey(_) ==> *final(self) == *old(self)
                && actions@.len() == 0,
    {
        match event {
            ReplicatorEvent::DiscoveryKey(_) => Vec::new(),
            ReplicatorEvent::Feed(dk) => self.do_feed_available(sid, dk),
        }
    }

    /// Current replication status: one record per registered feed, its
    /// discovery key paired with one stats record per peer, in registry
    /// order (callers may rely on no order).
    pub fn stats(&self) -> (r: Vec<(Vec<u8>, Vec<Stats>)>)
        ensures
            r@.len() == self.registry.entries@.len(),
            forall|i: int|
                0 <= i < r@.len() ==> (#[trigger] r@[i]).0@
                    == self.registry.entries@[i].discovery_key@ && stats_of_feed(
                    self.registry.entries@[i],
                    r@[i].1@,
                ),
    {
        self.registry.stats()
    }

    /// Whether waiting for all replication to settle would return now:
    /// true exactly when every registered feed's peer sub-sessions have
    /// all finished, and so trivially true with no feeds registered.
    pub fn join_ready(&self) -> (r: bool)
        ensures
            r == all_peers_done(self.registry.entries@),
    {
        self.registry.all_done()
    }

    /// Record that the peer sub-sessions of `remote` on the feed with
    /// this discovery key have finished. Unknown keys change nothing.
    pub fn peer_finished(&mut self, dk: &Vec<u8>, remote: &Vec<u8>)
        requires
            old(self).wf(),
        ensures
            final(self).wf(),
            final(self).hub == old(self).hub,
            final(self).sessions == old(self).sessions,
            has_dk(old(self).registry.entries@, dk@) ==> exists|j: int|
                0 <= j < old(self).registry.entries@.len() && (
                #[trigger] old(self).registry.entries@[j]).discovery_key@ == dk@
                    && crate::feed::same_except(
                    old(self).registry.entries@,
                    final(self).registry.entries@,
                    j,
                ) && crate::feed::peers_marked(
                    old(self).registry.entries@[j],
                    final(self).registry.entries@[j],
                    remote@,
                ),
            !has_dk(old(self).registry.entries@, dk@) ==> *final(self) == *old(self),
    {
        self.registry.mark_peer_done(dk, remote);
        proof {
            if has_dk(old(self).registry.entries@, dk@) {
                let j = choose|j: int|
                    0 <= j < old(self).registry.entries@.len() && (
                    #[trigger] old(self).registry.entries@[j]).discovery_key@ == dk@
                        && crate::feed::same_except(
                        old(self).registry.entries@,
                        self.registry.entries@,
                        j,
                    ) && crate::feed::peers_marked(
                        old(self).registry.entries@[j],
                        self.registry.entries@[j],
                        remote@,
                    );
                assert(self.registry.wf()) by {
                    assert forall|i: int|
                        0 <= i < self.registry.entries@.len() implies (
                    #[trigger] self.registry.entries@[i]).discovery_key@ == dk_of(
                        self.registry.entries@[i].public_key@,
                    ) by {
                        if i != j {
                            assert(self.registry.entries@[i] == old(self).registry.entries@[i]);
                        }
                    }
                    assert forall|a: int, b: int|
                        0 <= a < self.registry.entries@.len() && 0 <= b
                            < self.registry.entries@.len() && a != b implies (
                    #[trigger] self.registry.entries@[a]).discovery_key@ != (
                    #[trigger] self.registry.entries@[b]).discovery_key@ by {
                        assert(self.registry.entries@[a].discovery_key@ == old(
                            self,
                        ).registry.entries@[a].discovery_key@);
                        assert(self.registry.entries@[b].discovery_key@ == old(
                            self,
                        ).registry.entries@[b].discovery_key@);
                    }
                }
            }
        }
    }

    fn do_handshake(&mut self, sid: usize, remote: Vec<u8>) -> (actions: Vec<Action>)
        requires
            old(self).wf(),
            sid < old(self).sessions@.len(),
        ensures
            final(self).wf(),
            handshake_post(*old(self), *final(self), sid as int, remote@, actions@),
    {
        let awaiting = match &self.sessions[sid].state {
            SessionState::AwaitingHandshake => true,
            _ => false,
        };
        if !awaiting {
            let actions: Vec<Action> = Vec::new();
            return actions;
        }
        let mut actions: Vec<Action> = Vec::new();
        let mut opened: Vec<Vec<u8>> = Vec::new();
        let mut i: usize = 0;
        while i < self.registry.entries.len()
            invariant
                *self == *old(self),
                sid < self.sessions@.len(),
                i <= self.registry.entries@.len(),
                actions@.len() == i,
                opened@.len() == i,
                forall|k: int|
                    0 <= k < i ==> is_open_for(
                        #[trigger] actions@[k],
                        self.registry.entries@[k].public_key@,
                        self.registry.entries@[k].discovery_key@,
                    ),
                forall|k: int|
                    0 <= k < i ==> (#[trigger] opened@[k])@
                        == self.registry.entries@[k].discovery_key@,
            decreases self.registry.entries@.len() - i,
        {
            let pk = clone_bytes(&self.registry.entries[i].public_key);
            let dk = clone_bytes(&self.registry.entries[i].discovery_key);
            let dk2 = clone_bytes(&self.registry.entries[i].discovery_key);
            actions.push(Action::Open { public_key: pk, discovery_key: dk });
            opened.push(dk2);
            i += 1;
        }
        let sub = self.sessions[sid].subscriber;
        self.sessions.set(
            sid,
            ConnectionSession { state: SessionState::Active(remote), subscriber: sub, opened },
        );
        proof {
            assert(session_wf(self.sessions@[sid as int])) by {
                assert(opened_unique(self.sessions@[sid as int].opened@)) by {
                    assert forall|a: int, b: int|
                        0 <= a < self.sessions@[sid as int].opened@.len() && 0 <= b
                            < self.sessions@[sid as int].opened@.len() && a != b implies (
                    #[trigger] self.sessions@[sid as int].opened@[a])@ != (
                    #[trigger] self.sessions@[sid as int].opened@[b])@ by {
                        assert(old(self).registry.entries@[a].discovery_key@ != old(
                            self,
                        ).registry.entries@[b].discovery_key@);
                    }
                }
            }
        }
        actions
    }

    fn do_channel(&mut self, sid: usize, dk: Vec<u8>) -> (actions: Vec<Action>)
        requires
            old(self).wf(),
            sid < old(self).sessions@.len(),
        ensures
            final(self).wf(),
            channel_post(*old(self), *final(self), sid as int, dk@, actions@),
    {
        let mut actions: Vec<Action> = Vec::new();
        let mut remote: Option<Vec<u8>> = None;
        let mut awaiting = false;
        match &self.sessions[sid].state {
            SessionState::Active(r) => {
                remote = Some(clone_bytes(r));
            },
            SessionState::AwaitingHandshake => {
                awaiting = true;
            },
            SessionState::Terminated => {},
        }
        let found = self.registry.find(&dk);
        match remote {
            Some(r) => {
                match found {
                    Some(j) => {
                        let r2 = clone_bytes(&r);
                        self.registry.add_peer(j, r);
                        actions.push(Action::AddPeer { discovery_key: dk, remote: r2 });
                        proof {
                            assert(self.registry.wf()) by {
                                assert forall|a: int, b: int|
                                    0 <= a < self.registry.entries@.len() && 0 <= b
                                        < self.registry.entries@.len() && a != b implies (
                                #[trigger] self.registry.entries@[a]).discovery_key@ != (
                                #[trigger] self.registry.entries@[b]).discovery_key@ by {
                                    assert(self.registry.entries@[a].discovery_key == old(
                                        self,
                                    ).registry.entries@[a].discovery_key);
                                    assert(self.registry.entries@[b].discovery_key == old(
                                        self,
                                    ).registry.entries@[b].discovery_key);
                                }
                                assert forall|a: int|
                                    0 <= a < self.registry.entries@.len() implies (
                                #[trigger] self.registry.entries@[a]).discovery_key@ == dk_of(
                                    self.registry.entries@[a].public_key@,
                                ) by {
                                    assert(self.registry.entries@[a].discovery_key == old(
                                        self,
                                    ).registry.entries@[a].discovery_key);
                                    assert(self.registry.entries@[a].public_key == old(
                                        self,
                                    ).registry.entries@[a].public_key);
                                }
                            }
                        }
                    },
                    None => {},
                }
            },
            None => {
                if awaiting {
                    match found {
                        Some(_) => {
                            self.terminate_session(sid);
                        },
                        None => {},
                    }
                }
            },
        }
        actions
    }

    fn do_unknown_key(&mut self, sid: usize, dk: Vec<u8>) -> (actions: Vec<Action>)
        requires
            old(self).wf(),
            sid < old(self).sessions@.len(),
        ensures
            final(self).wf(),
            unknown_key_post(*old(self), *final(self), sid as int, dk@, actions@),
    {
        let actions: Vec<Action> = Vec::new();
        let terminated = match &self.sessions[sid].state {
            SessionState::Terminated => true,
            _ => false,
        };
        if !terminated {
            self.hub.emit(ReplicatorEvent::DiscoveryKey(dk));
        }
        actions
    }

    fn do_feed_available(&mut self, sid: usize, dk: Vec<u8>) -> (actions: Vec<Action>)
        requires
            old(self).wf(),
            sid < old(self).sessions@.len(),
        ensures
            final(self).wf(),
            feed_event_post(*old(self), *final(self), sid as int, dk@, actions@),
    {
        let mut actions: Vec<Action> = Vec::new();
        let active = match &self.sessions[sid].state {
            SessionState::Active(_) => true,
            _ => false,
        };
        if !active {
            return actions;
        }
        let found = self.registry.find(&dk);
        match found {
            None => actions,
            Some(j) => {
                if self.session_opened_contains(sid, &dk) {
                    return actions;
                }
                let pk = clone_bytes(&self.registry.entries[j].public_key);
                let dk2 = clone_bytes(&dk);
                let mut s = self.sessions.remove(sid);
                s.opened.push(dk);
                self.sessions.insert(sid, s);
                proof {
                    old(self).sessions@.remove_ensures(sid as int);
                    old(self).sessions@.remove(sid as int).insert_ensures(
                        sid as int,
                        self.sessions@[sid as int],
                    );
                    assert(session_wf(self.sessions@[sid as int])) by {
                        let o0 = old(self).sessions@[sid as int].opened@;
                        let o1 = self.sessions@[sid as int].opened@;
                        assert forall|a: int, b: int|
                            0 <= a < o1.len() && 0 <= b < o1.len() && a != b implies (
                        #[trigger] o1[a])@ != (#[trigger] o1[b])@ by {
                            if a < o0.len() && b < o0.len() {
                                assert(o1[a] == o0[a]);
                                assert(o1[b] == o0[b]);
                            } else if a < o0.len() {
                                assert(o1[a] == o0[a]);
                                assert(!has_opened(o0, o1[b]@));
                            } else {
                                assert(o1[b] == o0[b]);
                                assert(!has_opened(o0, o1[a]@));
                            }
                        }
                    }
                }
                actions.push(Action::Open { public_key: pk, discovery_key: dk2 });
                actions
            },
        }
    }

    fn session_opened_contains(&self, sid: usize, dk: &Vec<u8>) -> (r: bool)
        requires
            sid < self.sessions@.len(),
        ensures
            r == has_opened(self.sessions@[sid as int].opened@, dk@),
    {
        let mut i: usize = 0;
        while i < self.sessions[sid].opened.len()
            invariant
                sid < self.sessions@.len(),
                i <= self.sessions@[sid as int].opened@.len(),
                forall|k: int|
                    0 <= k < i ==> (#[trigger] self.sessions@[sid as int].opened@[k])@ != dk@,
            decreases self.sessions@[sid as int].opened@.len() - i,
        {
            if bytes_eq(&self.sessions[sid].opened[i], dk) {
                assert(self.sessions@[sid as int].opened@[i as int]@ == dk@);
                return true;
            }
            i += 1;
        }
        false
    }
}

} // verus!
