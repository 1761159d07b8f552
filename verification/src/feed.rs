use vstd::prelude::*;

use crate::keys::dk_of;

verus! {

/// One remote peer replicating a feed: its identity, and whether its
/// per-peer sub-session has finished.
pub struct Peer {
    pub remote: Vec<u8>,
    pub done: bool,
}

/// Per-remote-peer replication statistics for one feed.
pub struct Stats {
    pub remote: Vec<u8>,
    pub finished: bool,
}

/// A registered feed together with the remote peers replicating it: the
/// feed's public key, its derived discovery key, and the peer sessions
/// added so far.
pub struct PeeredFeed {
    pub public_key: Vec<u8>,
    pub discovery_key: Vec<u8>,
    pub peers: Vec<Peer>,
}

/// Some entry carries this discovery key.
pub open spec fn has_dk(feeds: Seq<PeeredFeed>, dk: Seq<u8>) -> bool {
    exists|i: int| 0 <= i < feeds.len() && (#[trigger] feeds[i]).discovery_key@ == dk
}

/// Every entry's discovery key is derived from its public key, and no
/// two entries share a discovery key.
pub open spec fn feeds_wf(feeds: Seq<PeeredFeed>) -> bool {
    &&& forall|i: int|
        0 <= i < feeds.len() ==> (#[trigger] feeds[i]).discovery_key@ == dk_of(
            feeds[i].public_key@,
        )
    &&& forall|i: int, j: int|
        0 <= i < feeds.len() && 0 <= j < feeds.len() && i != j ==> (#[trigger] feeds[i]).discovery_key@
            != (#[trigger] feeds[j]).discovery_key@
}

/// The entry is a freshly registered feed with these keys and no peers.
pub open spec fn entry_is(f: PeeredFeed, pk: Seq<u8>, dk: Seq<u8>) -> bool {
    f.public_key@ == pk && f.discovery_key@ == dk && f.peers@.len() == 0
}

/// The two entry lists agree everywhere but possibly at index `j`.
pub open spec fn same_except(a: Seq<PeeredFeed>, b: Seq<PeeredFeed>, j: int) -> bool {
    a.len() == b.len() && forall|k: int| 0 <= k < a.len() && k != j ==> a[k] == b[k]
}

/// How a registration changes the entry list: an existing entry for the
/// same discovery key is replaced by a fresh one (last write wins); a new
/// key is appended.
pub open spec fn registered_rel(
    a: Seq<PeeredFeed>,
    b: Seq<PeeredFeed>,
    pk: Seq<u8>,
    dk: Seq<u8>,
) -> bool {
    if has_dk(a, dk) {
        exists|j: int|
            0 <= j < a.len() && (#[trigger] a[j]).discovery_key@ == dk && same_except(a, b, j)
                && entry_is(b[j], pk, dk)
    } else {
        b.len() == a.len() + 1 && (forall|k: int| 0 <= k < a.len() ==> b[k] == a[k]) && entry_is(
            b[a.len() as int],
            pk,
            dk,
        )
    }
}

/// The feed gained exactly one peer, appended last, not yet finished.
pub open spec fn peer_pushed(f0: PeeredFeed, f1: PeeredFeed, remote: Seq<u8>) -> bool {
    &&& f1.public_key == f0.public_key
    &&& f1.discovery_key == f0.discovery_key
    &&& f1.peers@.len() == f0.peers@.len() + 1
    &&& forall|k: int| 0 <= k < f0.peers@.len() ==> f1.peers@[k] == f0.peers@[k]
    &&& f1.peers@.last().remote@ == remote
    &&& f1.peers@.last().done == false
}

/// Exactly the entry carrying `dk` gained the peer; everything else is as it was.
pub open spec fn peer_added(
    a: Seq<PeeredFeed>,
    b: Seq<PeeredFeed>,
    dk: Seq<u8>,
    remote: Seq<u8>,
) -> bool {
    exists|j: int|
        0 <= j < a.len() && (#[trigger] a[j]).discovery_key@ == dk && same_except(a, b, j)
            && peer_pushed(a[j], b[j], remote)
}

/// Every peer of every feed has finished.
pub open spec fn all_peers_done(feeds: Seq<PeeredFeed>) -> bool {
    forall|i: int, k: int|
        0 <= i < feeds.len() && 0 <= k < (#[trigger] feeds[i]).peers@.len() ==> (#[trigger] feeds[i].peers@[k]).done
}

/// The feed's peers with the given remote identity are marked finished;
/// the rest, and the feed's keys, are untouched.
pub open spec fn peers_marked(f0: PeeredFeed, f1: PeeredFeed, remote: Seq<u8>) -> bool {
    &&& f1.public_key == f0.public_key
    &&& f1.discovery_key == f0.discovery_key
    &&& f1.peers@.len() == f0.peers@.len()
    &&& forall|k: int|
        0 <= k < f0.peers@.len() ==> {
            if (#[trigger] f0.peers@[k]).remote@ == remote {
                f1.peers@[k].remote == f0.peers@[k].remote && f1.peers@[k].done
            } else {
                f1.peers@[k] == f0.peers@[k]
            }
        }
}

/// One stats record per peer, in order, reporting identity and completion.
pub open spec fn stats_of_feed(f: PeeredFeed, s: Seq<Stats>) -> bool {
    s.len() == f.peers@.len() && forall|k: int|
        0 <= k < s.len() ==> (#[trigger] s[k]).remote@ == f.peers@[k].remote@ && s[k].finished
            == f.peers@[k].done
}

} // verus!
