use vstd::prelude::*;

use crate::bytes::clone_bytes;

verus! {

/// An event broadcast by the replicator to its subscribers.
///
/// `Feed` announces a newly registered feed by its discovery key;
/// `DiscoveryKey` reports that a remote peer asked for a feed this
/// process does not hold.
pub enum ReplicatorEvent {
    Feed(Vec<u8>),
    DiscoveryKey(Vec<u8>),
}

/// The mathematical value of a `ReplicatorEvent`.
pub ghost enum EventV {
    Feed(Seq<u8>),
    DiscoveryKey(Seq<u8>),
}

impl View for ReplicatorEvent {
    type V = EventV;

    open spec fn view(&self) -> EventV {
        match self {
            ReplicatorEvent::Feed(k) => EventV::Feed(k@),
            ReplicatorEvent::DiscoveryKey(k) => EventV::DiscoveryKey(k@),
        }
    }
}

/// Copy a replicator event.
pub fn clone_event(e: &ReplicatorEvent) -> (r: ReplicatorEvent)
    ensures
        r@ == e@,
{
    match e {
        ReplicatorEvent::Feed(k) => ReplicatorEvent::Feed(clone_bytes(k)),
        ReplicatorEvent::DiscoveryKey(k) => ReplicatorEvent::DiscoveryKey(clone_bytes(k)),
    }
}

/// An event produced by one connection's wire session: the handshake
/// carrying the remote identity, a channel bound to a discovery key, a
/// request for an unknown discovery key, or a decode/protocol error.
pub enum WireEvent {
    Handshake(Vec<u8>),
    Channel(Vec<u8>),
    DiscoveryKey(Vec<u8>),
    Error,
}

/// An effect a connection session asks its owner to perform on the wire:
/// issue an open command for a feed, or hand the just-arrived channel to
/// the named feed's peer session under the given remote identity.
pub enum Action {
    Open { public_key: Vec<u8>, discovery_key: Vec<u8> },
    AddPeer { discovery_key: Vec<u8>, remote: Vec<u8> },
}

/// The action is an open command for exactly this feed.
pub open spec fn is_open_for(a: Action, pk: Seq<u8>, dk: Seq<u8>) -> bool {
    a matches Action::Open { public_key, discovery_key }
        && public_key@ == pk
        && discovery_key@ == dk
}

/// The action is a peer hand-off for this discovery key and remote.
pub open spec fn is_add_peer(a: Action, dk: Seq<u8>, remote: Seq<u8>) -> bool {
    a matches Action::AddPeer { discovery_key, remote: r }
        && discovery_key@ == dk
        && r@ == remote
}

/// The action is an open command for this discovery key.
pub open spec fn opens_dk(a: Action, dk: Seq<u8>) -> bool {
    a matches Action::Open { discovery_key, .. } && discovery_key@ == dk
}

/// How many open commands for the given discovery key a list of actions holds.
pub open spec fn open_count(actions: Seq<Action>, dk: Seq<u8>) -> int
    decreases actions.len(),
{
    if actions.len() == 0 {
        0
    } else {
        open_count(actions.drop_last(), dk) + if opens_dk(actions.last(), dk) {
            1int
        } else {
            0int
        }
    }
}

} // verus!
