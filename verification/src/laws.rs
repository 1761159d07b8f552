use vstd::prelude::*;

use crate::events::{is_open_for, open_count, opens_dk, Action, EventV};
use crate::feed::{all_peers_done, has_dk, PeeredFeed};
use crate::orchestrator::{
    add_feed_post, channel_post, feed_event_post, handshake_post, Replicator,
};
use crate::session::{
    has_opened, lemma_opened_count_absent, lemma_opened_count_bounds, lemma_opened_count_push,
    opened_count,
};

verus! {

/// A list of actions none of which opens `dk` counts zero opens for it.
proof fn lemma_open_count_zero(actions: Seq<Action>, dk: Seq<u8>)
    requires
        forall|k: int| 0 <= k < actions.len() ==> !opens_dk(#[trigger] actions[k], dk),
    ensures
        open_count(actions, dk) == 0,
    decreases actions.len(),
{
    if actions.len() > 0 {
        assert forall|k: int| 0 <= k < actions.len() - 1 implies !opens_dk(
            #[trigger] actions.drop_last()[k],
            dk,
        ) by {
            assert(actions.drop_last()[k] == actions[k]);
        }
        lemma_open_count_zero(actions.drop_last(), dk);
        assert(!opens_dk(actions[actions.len() - 1], dk));
    }
}

/// One open per feed, over feeds with pairwise distinct discovery keys,
/// counts exactly one open for each of those keys.
proof fn lemma_open_count_unique_keys(actions: Seq<Action>, feeds: Seq<PeeredFeed>, i: int)
    requires
        actions.len() == feeds.len(),
        forall|k: int|
            0 <= k < actions.len() ==> is_open_for(
                #[trigger] actions[k],
                feeds[k].public_key@,
                feeds[k].discovery_key@,
            ),
        forall|a: int, b: int|
            0 <= a < feeds.len() && 0 <= b < feeds.len() && a != b ==> (
            #[trigger] feeds[a]).discovery_key@ != (#[trigger] feeds[b]).discovery_key@,
        0 <= i < feeds.len(),
    ensures
        open_count(actions, feeds[i].discovery_key@) == 1,
    decreases actions.len(),
{
    let last = actions.len() - 1;
    let dk = feeds[i].discovery_key@;
    if i == last {
        assert forall|k: int| 0 <= k < last implies !opens_dk(
            #[trigger] actions.drop_last()[k],
            dk,
        ) by {
            assert(actions.drop_last()[k] == actions[k]);
            assert(feeds[k].discovery_key@ != dk);
        }
        lemma_open_count_zero(actions.drop_last(), dk);
        assert(opens_dk(actions[last], dk));
    } else {
        assert forall|k: int| 0 <= k < last implies is_open_for(
            #[trigger] actions.drop_last()[k],
            feeds.drop_last()[k].public_key@,
            feeds.drop_last()[k].discovery_key@,
        ) by {
            assert(actions.drop_last()[k] == actions[k]);
            assert(feeds.drop_last()[k] == feeds[k]);
        }
        assert forall|a: int, b: int|
            0 <= a < last && 0 <= b < last && a != b implies (
        #[trigger] feeds.drop_last()[a]).discovery_key@ != (
        #[trigger] feeds.drop_last()[b]).discovery_key@ by {
            assert(feeds.drop_last()[a] == feeds[a]);
            assert(feeds.drop_last()[b] == feeds[b]);
        }
        lemma_open_count_unique_keys(actions.drop_last(), feeds.drop_last(), i);
        assert(feeds.drop_last()[i] == feeds[i]);
        assert(is_open_for(actions[last], feeds[last].public_key@, feeds[last].discovery_key@));
        assert(feeds[last].discovery_key@ != dk);
        assert(!opens_dk(actions[last], dk));
    }
}

/// A session whose handshake completes while a feed is registered issues
/// exactly one open command for that feed's discovery key, and records
/// that key as opened exactly once.
pub proof fn lemma_handshake_opens_each_feed_once(
    pre: Replicator,
    post: Replicator,
    sid: int,
    remote: Seq<u8>,
    actions: Seq<Action>,
    i: int,
)
    requires
        pre.wf(),
        0 <= sid < pre.sessions@.len(),
        pre.sessions@[sid].state is AwaitingHandshake,
        handshake_post(pre, post, sid, remote, actions),
        0 <= i < pre.registry.entries@.len(),
    ensures
        open_count(actions, pre.registry.entries@[i].discovery_key@) == 1,
        opened_count(post.sessions@[sid].opened@, pre.registry.entries@[i].discovery_key@) == 1,
{
    let feeds = pre.registry.entries@;
    let dk = feeds[i].discovery_key@;
    lemma_open_count_unique_keys(actions, feeds, i);
    let opened = post.sessions@[sid].opened@;
    assert forall|a: int, b: int|
        0 <= a < opened.len() && 0 <= b < opened.len() && a != b implies (#[trigger] opened[a])@
        != (#[trigger] opened[b])@ by {
        assert(feeds[a].discovery_key@ != feeds[b].discovery_key@);
    }
    assert(opened[i]@ == dk);
    lemma_opened_count_bounds(opened, dk);
}

/// A feed registered while a session is active, and not yet opened by
/// that session, is opened exactly once when the session consumes its
/// availability announcement, and recorded as opened exactly once.
pub proof fn lemma_feed_event_opens_once(
    pre: Replicator,
    post: Replicator,
    sid: int,
    dk: Seq<u8>,
    actions: Seq<Action>,
)
    requires
        pre.wf(),
        0 <= sid < pre.sessions@.len(),
        pre.sessions@[sid].state is Active,
        has_dk(pre.registry.entries@, dk),
        !has_opened(pre.sessions@[sid].opened@, dk),
        feed_event_post(pre, post, sid, dk, actions),
    ensures
        open_count(actions, dk) == 1,
        opened_count(post.sessions@[sid].opened@, dk) == 1,
{
    assert(opens_dk(actions[0], dk));
    assert(actions.drop_last().len() == 0);
    assert(open_count(actions.drop_last(), dk) == 0);
    let o0 = pre.sessions@[sid].opened@;
    let o1 = post.sessions@[sid].opened@;
    assert(o1 =~= o0.push(o1.last()));
    lemma_opened_count_push(o0, o1.last(), dk);
    lemma_opened_count_absent(o0, dk);
}

/// Once a session has opened a feed, a further availability announcement
/// for the same discovery key opens nothing and changes nothing: no feed
/// is ever offered twice to one session.
pub proof fn lemma_no_reopen(
    pre: Replicator,
    post: Replicator,
    sid: int,
    dk: Seq<u8>,
    actions: Seq<Action>,
)
    requires
        0 <= sid < pre.sessions@.len(),
        has_opened(pre.sessions@[sid].opened@, dk),
        feed_event_post(pre, post, sid, dk, actions),
    ensures
        open_count(actions, dk) == 0,
        post == pre,
{
}

/// A handshake opens only what is registered: for a discovery key absent
/// from the registry it issues no open command and records nothing.
pub proof fn lemma_handshake_opens_only_registered(
    pre: Replicator,
    post: Replicator,
    sid: int,
    remote: Seq<u8>,
    actions: Seq<Action>,
    k: Seq<u8>,
)
    requires
        pre.wf(),
        0 <= sid < pre.sessions@.len(),
        pre.sessions@[sid].state is AwaitingHandshake,
        handshake_post(pre, post, sid, remote, actions),
        !has_dk(pre.registry.entries@, k),
    ensures
        open_count(actions, k) == 0,
        opened_count(post.sessions@[sid].opened@, k) == 0,
{
    let feeds = pre.registry.entries@;
    assert forall|i: int| 0 <= i < actions.len() implies !opens_dk(#[trigger] actions[i], k) by {
        assert(is_open_for(actions[i], feeds[i].public_key@, feeds[i].discovery_key@));
        assert(feeds[i].discovery_key@ != k);
    }
    lemma_open_count_zero(actions, k);
    let opened = post.sessions@[sid].opened@;
    assert forall|i: int| 0 <= i < opened.len() implies (#[trigger] opened[i])@ != k by {
        assert(feeds[i].discovery_key@ != k);
    }
    lemma_opened_count_absent(opened, k);
}

/// A channel event never issues an open command, whatever it routes.
pub proof fn lemma_channel_opens_nothing(
    pre: Replicator,
    post: Replicator,
    sid: int,
    dk: Seq<u8>,
    actions: Seq<Action>,
)
    requires
        0 <= sid < pre.sessions@.len(),
        channel_post(pre, post, sid, dk, actions),
    ensures
        forall|k: Seq<u8>| #[trigger] open_count(actions, k) == 0,
{
    assert forall|k: Seq<u8>| #[trigger] open_count(actions, k) == 0 by {
        if actions.len() == 1 {
            assert(!opens_dk(actions[0], k));
            assert(open_count(actions.drop_last(), k) == 0);
        }
    }
}

/// Accounting identity: consuming one availability announcement raises a
/// key's opened count by exactly the number of open commands issued for
/// it — one for the announced feed when it was registered and not yet
/// opened, zero in every other case and for every other key.
pub proof fn lemma_announcement_accounting(
    pre: Replicator,
    post: Replicator,
    sid: int,
    dk: Seq<u8>,
    actions: Seq<Action>,
    k: Seq<u8>,
)
    requires
        0 <= sid < pre.sessions@.len(),
        feed_event_post(pre, post, sid, dk, actions),
    ensures
        opened_count(post.sessions@[sid].opened@, k) == opened_count(
            pre.sessions@[sid].opened@,
            k,
        ) + open_count(actions, k),
{
    let o0 = pre.sessions@[sid].opened@;
    let o1 = post.sessions@[sid].opened@;
    if o1.len() == o0.len() + 1 && actions.len() == 1 {
        assert(o1 =~= o0.push(o1.last()));
        lemma_opened_count_push(o0, o1.last(), k);
        assert(open_count(actions.drop_last(), k) == 0);
        assert(opens_dk(actions[0], dk));
        assert(opens_dk(actions[0], k) <==> k == dk);
    } else {
        assert(post == pre && actions.len() == 0);
    }
}

/// A registration's announcement is enqueued for every session whose
/// subscription was live before the registration's broadcast.
pub proof fn lemma_announcement_reaches_sessions(
    pre: Replicator,
    post: Replicator,
    pk: Seq<u8>,
    dk: Seq<u8>,
    sid: int,
)
    requires
        pre.wf(),
        add_feed_post(pre, post, pk, dk),
        0 <= sid < pre.sessions@.len(),
        pre.hub.queues@[pre.sessions@[sid].subscriber as int].live,
    ensures
        post.hub.queues@[pre.sessions@[sid].subscriber as int].pending@.len() == pre.hub.queues@[
            pre.sessions@[sid].subscriber as int
        ].pending@.len() + 1,
        post.hub.queues@[pre.sessions@[sid].subscriber as int].pending@.last()@ == EventV::Feed(
            dk,
        ),
{
}

/// Registering two feeds whose discovery keys are distinct and both new
/// yields two distinct registry entries, one per key.
pub proof fn lemma_register_distinct_keys(
    r0: Replicator,
    r1: Replicator,
    r2: Replicator,
    pk1: Seq<u8>,
    dk1: Seq<u8>,
    pk2: Seq<u8>,
    dk2: Seq<u8>,
)
    requires
        add_feed_post(r0, r1, pk1, dk1),
        add_feed_post(r1, r2, pk2, dk2),
        dk1 != dk2,
        !has_dk(r0.registry.entries@, dk1),
        !has_dk(r0.registry.entries@, dk2),
    ensures
        r2.registry.entries@.len() == r0.registry.entries@.len() + 2,
        has_dk(r2.registry.entries@, dk1),
        has_dk(r2.registry.entries@, dk2),
{
    let a = r0.registry.entries@;
    let b = r1.registry.entries@;
    let c = r2.registry.entries@;
    assert(b.len() == a.len() + 1);
    assert(b[a.len() as int].discovery_key@ == dk1);
    assert forall|k: int| 0 <= k < b.len() implies (#[trigger] b[k]).discovery_key@ != dk2 by {
        if k < a.len() {
            assert(b[k] == a[k]);
        }
    }
    assert(!has_dk(b, dk2));
    assert(c.len() == b.len() + 1);
    assert(c[b.len() as int].discovery_key@ == dk2);
    assert(c[a.len() as int] == b[a.len() as int]);
    assert(has_dk(c, dk1));
    assert(has_dk(c, dk2));
}

/// Registering the same public key twice yields one registry entry (the
/// second registration wins) and two availability broadcasts to every
/// subscriber that was live throughout.
pub proof fn lemma_register_same_key_twice(
    r0: Replicator,
    r1: Replicator,
    r2: Replicator,
    pk: Seq<u8>,
    dk: Seq<u8>,
    q: int,
)
    requires
        add_feed_post(r0, r1, pk, dk),
        add_feed_post(r1, r2, pk, dk),
        !has_dk(r0.registry.entries@, dk),
        0 <= q < r0.hub.queues@.len(),
        r0.hub.queues@[q].live,
    ensures
        r2.registry.entries@.len() == r0.registry.entries@.len() + 1,
        has_dk(r2.registry.entries@, dk),
        r2.hub.queues@[q].pending@.len() == r0.hub.queues@[q].pending@.len() + 2,
        r2.hub.queues@[q].pending@[r0.hub.queues@[q].pending@.len() as int]@ == EventV::Feed(dk),
        r2.hub.queues@[q].pending@[r0.hub.queues@[q].pending@.len() as int + 1]@ == EventV::Feed(
            dk,
        ),
{
    let a = r0.registry.entries@;
    let b = r1.registry.entries@;
    let c = r2.registry.entries@;
    assert(b.len() == a.len() + 1);
    assert(b[a.len() as int].discovery_key@ == dk);
    assert(has_dk(b, dk));
    let j = choose|j: int|
        0 <= j < b.len() && (#[trigger] b[j]).discovery_key@ == dk && crate::feed::same_except(
            b,
            c,
            j,
        ) && crate::feed::entry_is(c[j], pk, dk);
    assert(c.len() == b.len());
    assert(c[j].discovery_key@ == dk);
    assert(has_dk(c, dk));
    let n = r0.hub.queues@[q].pending@.len() as int;
    assert(r1.hub.queues@[q].pending@.len() == n + 1);
    assert(r1.hub.queues@[q].pending@[n]@ == EventV::Feed(dk));
    assert(r1.hub.queues@[q].live);
    assert(r2.hub.queues@[q].pending@[n] == r1.hub.queues@[q].pending@[n]);
    assert(r2.hub.queues@[q].pending@.last()@ == EventV::Feed(dk));
}

/// A channel event for a discovery key absent from the registry never
/// terminates the session, never adds a peer, and changes nothing at all.
pub proof fn lemma_unknown_channel_is_noop(
    pre: Replicator,
    post: Replicator,
    sid: int,
    dk: Seq<u8>,
    actions: Seq<Action>,
)
    requires
        0 <= sid < pre.sessions@.len(),
        !has_dk(pre.registry.entries@, dk),
        channel_post(pre, post, sid, dk, actions),
    ensures
        post == pre,
        actions.len() == 0,
        pre.sessions@[sid].state is Active ==> post.sessions@[sid].state is Active,
{
}

/// With no feeds registered, waiting for replication to settle would
/// return immediately.
pub proof fn lemma_join_ready_when_no_feeds(r: Replicator)
    requires
        r.registry.entries@.len() == 0,
    ensures
        all_peers_done(r.registry.entries@),
{
}

} // verus!
