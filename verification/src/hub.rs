use vstd::prelude::*;

use crate::events::{clone_event, EventV, ReplicatorEvent};

verus! {

/// One subscriber's unbounded delivery queue. A queue that is no longer
/// consumed can be closed; a closed queue silently receives nothing.
pub struct EventQueue {
    pub live: bool,
    pub pending: Vec<ReplicatorEvent>,
}

/// Best-effort broadcast of replicator events: every live queue receives
/// a copy of every event emitted after the queue was registered.
pub struct SubscriberHub {
    pub queues: Vec<EventQueue>,
}

/// The queue received a copy of the event if live, and is untouched if closed.
pub open spec fn delivered(q0: EventQueue, q1: EventQueue, ev: EventV) -> bool {
    &&& q1.live == q0.live
    &&& if q0.live {
        &&& q1.pending@.len() == q0.pending@.len() + 1
        &&& forall|k: int| 0 <= k < q0.pending@.len() ==> q1.pending@[k] == q0.pending@[k]
        &&& q1.pending@.last()@ == ev
    } else {
        q1 == q0
    }
}

/// Every queue was delivered the event (live ones a copy, closed ones nothing).
pub open spec fn emitted(a: Seq<EventQueue>, b: Seq<EventQueue>, ev: EventV) -> bool {
    b.len() == a.len() && forall|i: int| 0 <= i < a.len() ==> delivered(#[trigger] a[i], b[i], ev)
}

impl SubscriberHub {
    /// Create a hub with no subscribers.
    pub fn new() -> (r: SubscriberHub)
        ensures
            r.queues@.len() == 0,
    {
        SubscriberHub { queues: Vec::new() }
    }

    /// Register a new subscriber: a fresh, empty, live queue. Returns its
    /// handle. The subscriber sees only events emitted from now on.
    pub fn subscribe(&mut self) -> (id: usize)
        ensures
            id == old(self).queues@.len(),
            final(self).queues@.len() == old(self).queues@.len() + 1,
            forall|k: int|
                0 <= k < old(self).queues@.len() ==> final(self).queues@[k] == old(self).queues@[k],
            final(self).queues@.last().live,
            final(self).queues@.last().pending@.len() == 0,
    {
        let id = self.queues.len();
        self.queues.push(EventQueue { live: true, pending: Vec::new() });
        id
    }

    /// Deliver a copy of the event to every live queue. Returns once all
    /// copies are enqueued; closed queues are silently skipped.
    pub fn emit(&mut self, event: ReplicatorEvent)
        ensures
            emitted(old(self).queues@, final(self).queues@, event@),
    {
        let mut i: usize = 0;
        while i < self.queues.len()
            invariant
                i <= self.queues@.len(),
                self.queues@.len() == old(self).queues@.len(),
                forall|k: int|
                    0 <= k < i ==> delivered(#[trigger] old(self).queues@[k], self.queues@[k], event@),
                forall|k: int| i <= k < self.queues@.len() ==> self.queues@[k] == old(self).queues@[k],
            decreases self.queues@.len() - i,
        {
            if self.queues[i].live {
                let copy = clone_event(&event);
                let mut q = self.queues.remove(i);
                q.pending.push(copy);
                self.queues.insert(i, q);
                proof {
                    old(self).queues@.remove_ensures(i as int);
                    old(self).queues@.remove(i as int).insert_ensures(
                        i as int,
                        self.queues@[i as int],
                    );
                }
            }
            i += 1;
        }
    }

    /// Take the oldest undelivered event from the queue, if any.
    pub fn next_event(&mut self, id: usize) -> (r: Option<ReplicatorEvent>)
        requires
            id < old(self).queues@.len(),
        ensures
            final(self).queues@.len() == old(self).queues@.len(),
            forall|k: int|
                0 <= k < old(self).queues@.len() && k != id ==> final(self).queues@[k] == old(
                    self,
                ).queues@[k],
            final(self).queues@[id as int].live == old(self).queues@[id as int].live,
            old(self).queues@[id as int].pending@.len() == 0 ==> r is None && *final(self) == *old(
                self,
            ),
            old(self).queues@[id as int].pending@.len() > 0 ==> {
                &&& r matches Some(e) && e == old(self).queues@[id as int].pending@[0]
                &&& final(self).queues@[id as int].pending@ == old(
                    self,
                ).queues@[id as int].pending@.drop_first()
            },
    {
        if self.queues[id].pending.len() == 0 {
            return None;
        }
        let mut q = self.queues.remove(id);
        let e = q.pending.remove(0);
        self.queues.insert(id, q);
        proof {
            old(self).queues@.remove_ensures(id as int);
            old(self).queues@.remove(id as int).insert_ensures(id as int, self.queues@[id as int]);
            old(self).queues@[id as int].pending@.remove_ensures(0);
            assert(self.queues@[id as int].pending@ =~= old(
                self,
            ).queues@[id as int].pending@.drop_first());
        }
        Some(e)
    }

    /// Mark the queue as no longer consumed: later emissions skip it.
    pub fn close(&mut self, id: usize)
        requires
            id < old(self).queues@.len(),
        ensures
            final(self).queues@.len() == old(self).queues@.len(),
            forall|k: int|
                0 <= k < old(self).queues@.len() && k != id ==> final(self).queues@[k] == old(
                    self,
                ).queues@[k],
            !final(self).queues@[id as int].live,
            final(self).queues@[id as int].pending == old(self).queues@[id as int].pending,
    {
        let q = self.queues.remove(id);
        let q2 = EventQueue { live: false, pending: q.pending };
        self.queues.insert(id, q2);
        proof {
            old(self).queues@.remove_ensures(id as int);
            old(self).queues@.remove(id as int).insert_ensures(id as int, self.queues@[id as int]);
        }
    }
}

} // verus!
