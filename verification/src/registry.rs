use vstd::prelude::*;

use crate::bytes::{bytes_eq, clone_bytes};
use crate::feed::{
    all_peers_done, feeds_wf, has_dk, peer_pushed, peers_marked,
    registered_rel, same_except, stats_of_feed, PeeredFeed, Peer, Stats,
};
use crate::keys::{derive_discovery_key, dk_of};

verus! {

/// The live registry of feeds available for replication: the single
/// source of truth mapping each discovery key to its peer feed session.
/// At most one entry per discovery key at any instant.
pub struct FeedRegistry {
    pub entries: Vec<PeeredFeed>,
}

impl FeedRegistry {
    pub open spec fn wf(self) -> bool {
        feeds_wf(self.entries@)
    }

    /// Create an empty registry.
    pub fn new() -> (r: FeedRegistry)
        ensures
            r.entries@.len() == 0,
            r.wf(),
    {
        FeedRegistry { entries: Vec::new() }
    }

    /// The index of the entry carrying this discovery key, if any.
    pub fn find(&self, dk: &Vec<u8>) -> (r: Option<usize>)
        ensures
            r matches Some(j) ==> j < self.entries@.len() && self.entries@[j as int].discovery_key@
                == dk@,
            r is None ==> !has_dk(self.entries@, dk@),
            has_dk(self.entries@, dk@) ==> r is Some,
    {
        let mut j: usize = 0;
        while j < self.entries.len()
            invariant
                j <= self.entries@.len(),
                forall|k: int| 0 <= k < j ==> (#[trigger] self.entries@[k]).discovery_key@ != dk@,
            decreases self.entries@.len() - j,
        {
            if bytes_eq(&self.entries[j].discovery_key, dk) {
                return Some(j);
            }
            j += 1;
        }
        None
    }

    /// Derive the feed's discovery key, insert a fresh peer feed session
    /// for it (replacing any prior entry under the same key), and return
    /// the discovery key for broadcasting.
    pub fn register(&mut self, public_key: Vec<u8>) -> (dk: Vec<u8>)
        requires
            old(self).wf(),
            public_key@.len() == 32,
        ensures
            final(self).wf(),
            dk@ == dk_of(public_key@),
            dk@.len() == 32,
            registered_rel(old(self).entries@, final(self).entries@, public_key@, dk@),
    {
        let dk = derive_discovery_key(&public_key);
        let dk_store = clone_bytes(&dk);
        let entry = PeeredFeed { public_key, discovery_key: dk_store, peers: Vec::new() };
        let found = self.find(&dk);
        match found {
            Some(j) => {
                self.entries.set(j, entry);
                assert(same_except(old(self).entries@, self.entries@, j as int));
            },
            None => {
                self.entries.push(entry);
            },
        }
        assert(self.wf()) by {
            assert forall|i: int, j: int|
                0 <= i < self.entries@.len() && 0 <= j < self.entries@.len() && i
                    != j implies (#[trigger] self.entries@[i]).discovery_key@
                != (#[trigger] self.entries@[j]).discovery_key@ by {
                if found is None {
                    assert(!has_dk(old(self).entries@, dk@));
                    if i < old(self).entries@.len() && j < old(self).entries@.len() {
                        assert(self.entries@[i] == old(self).entries@[i]);
                        assert(self.entries@[j] == old(self).entries@[j]);
                    }
                }
            }
        }
        dk
    }

    /// Hand a new remote peer to the feed at entry `j`.
    pub fn add_peer(&mut self, j: usize, remote: Vec<u8>)
        requires
            j < old(self).entries@.len(),
        ensures
            same_except(old(self).entries@, final(self).entries@, j as int),
            peer_pushed(old(self).entries@[j as int], final(self).entries@[j as int], remote@),
    {
        let mut entry = self.entries.remove(j);
        entry.peers.push(Peer { remote, done: false });
        self.entries.insert(j, entry);
        proof {
            old(self).entries@.remove_ensures(j as int);
            old(self).entries@.remove(j as int).insert_ensures(j as int, self.entries@[j as int]);
        }
    }

    /// A consistent, copied list of every registered discovery key at
    /// call time, in registry order.
    pub fn snapshot_keys(&self) -> (r: Vec<Vec<u8>>)
        ensures
            r@.len() == self.entries@.len(),
            forall|i: int| 0 <= i < r@.len() ==> (#[trigger] r@[i])@ == self.entries@[i].discovery_key@,
    {
        let mut r: Vec<Vec<u8>> = Vec::new();
        let mut i: usize = 0;
        while i < self.entries.len()
            invariant
                i <= self.entries@.len(),
                r@.len() == i,
                forall|k: int|
                    0 <= k < i ==> (#[trigger] r@[k])@ == self.entries@[k].discovery_key@,
            decreases self.entries@.len() - i,
        {
            r.push(clone_bytes(&self.entries[i].discovery_key));
            i += 1;
        }
        r
    }

    /// Current replication status: one record per registered feed, its
    /// discovery key paired with one stats record per peer.
    pub fn stats(&self) -> (r: Vec<(Vec<u8>, Vec<Stats>)>)
        ensures
            r@.len() == self.entries@.len(),
            forall|i: int|
                0 <= i < r@.len() ==> (#[trigger] r@[i]).0@ == self.entries@[i].discovery_key@
                    && stats_of_feed(self.entries@[i], r@[i].1@),
    {
        let mut r: Vec<(Vec<u8>, Vec<Stats>)> = Vec::new();
        let mut i: usize = 0;
        while i < self.entries.len()
            invariant
                i <= self.entries@.len(),
                r@.len() == i,
                forall|k: int|
                    0 <= k < i ==> (#[trigger] r@[k]).0@ == self.entries@[k].discovery_key@
                        && stats_of_feed(self.entries@[k], r@[k].1@),
            decreases self.entries@.len() - i,
        {
            let mut fs: Vec<Stats> = Vec::new();
            let mut k: usize = 0;
            while k < self.entries[i].peers.len()
                invariant
                    i < self.entries@.len(),
                    k <= self.entries@[i as int].peers@.len(),
                    fs@.len() == k,
                    forall|m: int|
                        0 <= m < k ==> (#[trigger] fs@[m]).remote@ == self.entries@[i as int].peers@[m].remote@
                            && fs@[m].finished == self.entries@[i as int].peers@[m].done,
                decreases self.entries@[i as int].peers@.len() - k,
            {
                let p_remote = clone_bytes(&self.entries[i].peers[k].remote);
                let p_done = self.entries[i].peers[k].done;
                fs.push(Stats { remote: p_remote, finished: p_done });
                k += 1;
            }
            let dk = clone_bytes(&self.entries[i].discovery_key);
            r.push((dk, fs));
            i += 1;
        }
        r
    }

    /// Whether every peer sub-session of every registered feed has
    /// finished; trivially true with no feeds registered.
    pub fn all_done(&self) -> (r: bool)
        ensures
            r == all_peers_done(self.entries@),
    {
        let mut i: usize = 0;
        while i < self.entries.len()
            invariant
                i <= self.entries@.len(),
                forall|m: int, k: int|
                    0 <= m < i && 0 <= k < (#[trigger] self.entries@[m]).peers@.len() ==> (
                    #[trigger] self.entries@[m].peers@[k]).done,
            decreases self.entries@.len() - i,
        {
            let mut k: usize = 0;
            while k < self.entries[i].peers.len()
                invariant
                    i < self.entries@.len(),
                    k <= self.entries@[i as int].peers@.len(),
                    forall|m: int|
                        0 <= m < k ==> (#[trigger] self.entries@[i as int].peers@[m]).done,
                decreases self.entries@[i as int].peers@.len() - k,
            {
                if !self.entries[i].peers[k].done {
                    return false;
                }
                k += 1;
            }
            i += 1;
        }
        true
    }

    /// Record that the peer sub-sessions of `remote` on the feed with
    /// this discovery key have finished. Unknown keys change nothing.
    pub fn mark_peer_done(&mut self, dk: &Vec<u8>, remote: &Vec<u8>)
        ensures
            has_dk(old(self).entries@, dk@) ==> exists|j: int|
                0 <= j < old(self).entries@.len() && (#[trigger] old(self).entries@[j]).discovery_key@
                    == dk@ && same_except(old(self).entries@, final(self).entries@, j)
                    && peers_marked(old(self).entries@[j], final(self).entries@[j], remote@),
            !has_dk(old(self).entries@, dk@) ==> *final(self) == *old(self),
    {
        let found = self.find(dk);
        match found {
            None => {},
            Some(j) => {
                let mut entry = self.entries.remove(j);
                let mut k: usize = 0;
                while k < entry.peers.len()
                    invariant
                        entry.peers@.len() == old(self).entries@[j as int].peers@.len(),
                        entry.public_key == old(self).entries@[j as int].public_key,
                        entry.discovery_key == old(self).entries@[j as int].discovery_key,
                        k <= entry.peers@.len(),
                        forall|m: int|
                            0 <= m < k ==> {
                                if (#[trigger] old(self).entries@[j as int].peers@[m]).remote@
                                    == remote@ {
                                    entry.peers@[m].remote == old(
                                        self,
                                    ).entries@[j as int].peers@[m].remote && entry.peers@[m].done
                                } else {
                                    entry.peers@[m] == old(self).entries@[j as int].peers@[m]
                                }
                            },
                        forall|m: int|
                            k <= m < entry.peers@.len() ==> entry.peers@[m] == old(
                                self,
                            ).entries@[j as int].peers@[m],
                    decreases entry.peers@.len() - k,
                {
                    if bytes_eq(&entry.peers[k].remote, remote) {
                        let p = entry.peers.remove(k);
                        entry.peers.insert(k, Peer { remote: p.remote, done: true });
                        proof {
                            old(self).entries@[j as int].peers@.remove_ensures(k as int);
                        }
                    }
                    k += 1;
                }
                self.entries.insert(j, entry);
                proof {
                    old(self).entries@.remove_ensures(j as int);
                    old(self).entries@.remove(j as int).insert_ensures(
                        j as int,
                        self.entries@[j as int],
                    );
                }
            },
        }
    }
}

} // verus!
