use replicator::events::{Action, WireEvent};
use replicator::session::SessionState;
use replicator::Replicator;
use replicator::ReplicatorEvent;

fn key(b: u8) -> Vec<u8> {
    vec![b; 32]
}

fn open_keys(actions: &[Action]) -> Vec<(Vec<u8>, Vec<u8>)> {
    let mut r = Vec::new();
    for a in actions {
        if let Action::Open { public_key, discovery_key } = a {
            r.push((public_key.clone(), discovery_key.clone()));
        }
    }
    r
}

#[test]
fn discovery_key_is_not_the_public_key() {
    let mut r = Replicator::new();
    let pk = key(1);
    let dk = r.add_feed(pk.clone());
    assert_eq!(dk.len(), 32);
    assert_ne!(dk, pk);
}

#[test]
fn discovery_key_is_deterministic() {
    let mut r = Replicator::new();
    let dk1 = r.add_feed(key(1));
    let dk2 = r.add_feed(key(1));
    assert_eq!(dk1, dk2);
}

#[test]
fn distinct_keys_give_distinct_entries() {
    let mut r = Replicator::new();
    let dk_a = r.add_feed(key(1));
    let dk_b = r.add_feed(key(2));
    assert_ne!(dk_a, dk_b);
    let stats = r.stats();
    assert_eq!(stats.len(), 2);
    assert_ne!(stats[0].0, stats[1].0);
}

#[test]
fn same_key_twice_gives_one_entry_two_broadcasts() {
    let mut r = Replicator::new();
    let sub = r.subscribe();
    let dk1 = r.add_feed(key(1));
    let dk2 = r.add_feed(key(1));
    assert_eq!(dk1, dk2);
    assert_eq!(r.stats().len(), 1);
    let e1 = r.next_event(sub);
    let e2 = r.next_event(sub);
    let e3 = r.next_event(sub);
    assert!(matches!(e1, Some(ReplicatorEvent::Feed(k)) if k == dk1));
    assert!(matches!(e2, Some(ReplicatorEvent::Feed(k)) if k == dk1));
    assert!(e3.is_none());
}

#[test]
fn handshake_opens_every_registered_feed_once() {
    let mut r = Replicator::new();
    let dk_a = r.add_feed(key(1));
    let dk_b = r.add_feed(key(2));
    let sid = r.add_connection();
    let actions = r.handle_wire_event(sid, WireEvent::Handshake(key(9)));
    let opens = open_keys(&actions);
    assert_eq!(opens.len(), 2);
    let dks: Vec<&Vec<u8>> = opens.iter().map(|o| &o.1).collect();
    assert!(dks.contains(&&dk_a));
    assert!(dks.contains(&&dk_b));
    assert!(matches!(r.sessions[sid].state, SessionState::Active(_)));
}

#[test]
fn late_feed_is_opened_once_and_early_feed_not_repeated() {
    // register feed A; connect; handshake opens A exactly once; then
    // register feed B: the session opens B exactly once and A never again.
    let mut r = Replicator::new();
    let pk_a = key(1);
    let dk_a = r.add_feed(pk_a.clone());
    let sid = r.add_connection();
    let sub = r.session_subscriber(sid);

    let actions = r.handle_wire_event(sid, WireEvent::Handshake(key(9)));
    let opens = open_keys(&actions);
    assert_eq!(opens.len(), 1);
    assert_eq!(opens[0].0, pk_a);
    assert_eq!(opens[0].1, dk_a);

    let pk_b = key(2);
    let dk_b = r.add_feed(pk_b.clone());
    let mut later_opens = Vec::new();
    while let Some(ev) = r.next_event(sub) {
        let acts = r.handle_replicator_event(sid, ev);
        later_opens.extend(open_keys(&acts));
    }
    assert_eq!(later_opens.len(), 1);
    assert_eq!(later_opens[0].0, pk_b);
    assert_eq!(later_opens[0].1, dk_b);
}

#[test]
fn feed_announced_before_handshake_is_not_opened_twice() {
    // the announcement queued before the handshake is dropped once the
    // handshake's snapshot has already opened the feed.
    let mut r = Replicator::new();
    let sid = r.add_connection();
    let sub = r.session_subscriber(sid);
    let pk_a = key(1);
    r.add_feed(pk_a.clone());

    let actions = r.handle_wire_event(sid, WireEvent::Handshake(key(9)));
    let opens = open_keys(&actions);
    assert_eq!(opens.len(), 1);
    assert_eq!(opens[0].0, pk_a);

    let mut later_opens = Vec::new();
    while let Some(ev) = r.next_event(sub) {
        let acts = r.handle_replicator_event(sid, ev);
        later_opens.extend(open_keys(&acts));
    }
    assert_eq!(later_opens.len(), 0);
}

#[test]
fn two_connections_each_open_a_late_feed_once() {
    let mut r = Replicator::new();
    let c1 = r.add_connection();
    let c2 = r.add_connection();
    let pk_a = key(1);
    r.add_feed(pk_a.clone());
    for &sid in &[c1, c2] {
        let sub = r.session_subscriber(sid);
        let mut opens = open_keys(&r.handle_wire_event(sid, WireEvent::Handshake(key(9))));
        while let Some(ev) = r.next_event(sub) {
            opens.extend(open_keys(&r.handle_replicator_event(sid, ev)));
        }
        assert_eq!(opens.len(), 1);
        assert_eq!(opens[0].0, pk_a);
    }
}

#[test]
fn unknown_channel_is_silently_dropped() {
    let mut r = Replicator::new();
    let pk_a = key(1);
    r.add_feed(pk_a.clone());
    let sid = r.add_connection();
    r.handle_wire_event(sid, WireEvent::Handshake(key(9)));
    let actions = r.handle_wire_event(sid, WireEvent::Channel(key(3)));
    assert!(actions.is_empty());
    assert!(matches!(r.sessions[sid].state, SessionState::Active(_)));
    // the session keeps processing events normally afterwards
    let pk_b = key(2);
    let dk_b = r.add_feed(pk_b.clone());
    let acts = r.handle_replicator_event(sid, ReplicatorEvent::Feed(dk_b));
    assert_eq!(open_keys(&acts).len(), 1);
}

#[test]
fn channel_routes_peer_to_registered_feed() {
    let mut r = Replicator::new();
    let dk_a = r.add_feed(key(1));
    let sid = r.add_connection();
    let remote = key(9);
    r.handle_wire_event(sid, WireEvent::Handshake(remote.clone()));
    let actions = r.handle_wire_event(sid, WireEvent::Channel(dk_a.clone()));
    assert_eq!(actions.len(), 1);
    assert!(
        matches!(&actions[0], Action::AddPeer { discovery_key, remote: rem }
            if *discovery_key == dk_a && *rem == remote)
    );
    let stats = r.stats();
    assert_eq!(stats.len(), 1);
    assert_eq!(stats[0].1.len(), 1);
    assert_eq!(stats[0].1[0].remote, remote);
    assert!(!stats[0].1[0].finished);
}

#[test]
fn channel_for_known_feed_before_handshake_terminates() {
    let mut r = Replicator::new();
    let dk_a = r.add_feed(key(1));
    let sid = r.add_connection();
    let actions = r.handle_wire_event(sid, WireEvent::Channel(dk_a));
    assert!(actions.is_empty());
    assert!(matches!(r.sessions[sid].state, SessionState::Terminated));
}

#[test]
fn channel_for_unknown_feed_before_handshake_is_dropped() {
    let mut r = Replicator::new();
    r.add_feed(key(1));
    let sid = r.add_connection();
    let actions = r.handle_wire_event(sid, WireEvent::Channel(key(3)));
    assert!(actions.is_empty());
    assert!(matches!(r.sessions[sid].state, SessionState::AwaitingHandshake));
}

#[test]
fn wire_error_terminates_the_session() {
    let mut r = Replicator::new();
    r.add_feed(key(1));
    let sid = r.add_connection();
    r.handle_wire_event(sid, WireEvent::Handshake(key(9)));
    let actions = r.handle_wire_event(sid, WireEvent::Error);
    assert!(actions.is_empty());
    assert!(matches!(r.sessions[sid].state, SessionState::Terminated));
    // a terminated session reacts to nothing
    let dk_b = r.add_feed(key(2));
    let acts = r.handle_replicator_event(sid, ReplicatorEvent::Feed(dk_b));
    assert!(acts.is_empty());
}

#[test]
fn unknown_feed_request_is_rebroadcast() {
    let mut r = Replicator::new();
    let sub = r.subscribe();
    let sid = r.add_connection();
    let dk_x = key(3);
    let actions = r.handle_wire_event(sid, WireEvent::DiscoveryKey(dk_x.clone()));
    assert!(actions.is_empty());
    let ev = r.next_event(sub);
    assert!(matches!(ev, Some(ReplicatorEvent::DiscoveryKey(k)) if k == dk_x));
    // the session's own queue receives it too, and ignores it
    let own = r.session_subscriber(sid);
    let ev2 = r.next_event(own).expect("the session's queue received a copy");
    let acts = r.handle_replicator_event(sid, ev2);
    assert!(acts.is_empty());
}

#[test]
fn closed_subscriber_receives_nothing_more() {
    let mut r = Replicator::new();
    let sub = r.subscribe();
    r.add_feed(key(1));
    r.unsubscribe(sub);
    r.add_feed(key(2));
    assert!(r.next_event(sub).is_some());
    assert!(r.next_event(sub).is_none());
}

#[test]
fn stats_has_one_entry_per_feed() {
    let mut r = Replicator::new();
    assert!(r.stats().is_empty());
    let dk_a = r.add_feed(key(1));
    let dk_b = r.add_feed(key(2));
    let stats = r.stats();
    assert_eq!(stats.len(), 2);
    let dks: Vec<&Vec<u8>> = stats.iter().map(|s| &s.0).collect();
    assert!(dks.contains(&&dk_a));
    assert!(dks.contains(&&dk_b));
    assert!(stats.iter().all(|s| s.1.is_empty()));
}

#[test]
fn join_ready_tracks_outstanding_peers() {
    let mut r = Replicator::new();
    assert!(r.join_ready());
    let dk_a = r.add_feed(key(1));
    assert!(r.join_ready());
    let sid = r.add_connection();
    let remote = key(9);
    r.handle_wire_event(sid, WireEvent::Handshake(remote.clone()));
    r.handle_wire_event(sid, WireEvent::Channel(dk_a.clone()));
    assert!(!r.join_ready());
    r.peer_finished(&dk_a, &remote);
    assert!(r.join_ready());
    let stats = r.stats();
    assert!(stats[0].1[0].finished);
}

#[test]
fn reregistration_replaces_the_entry_and_its_peers() {
    let mut r = Replicator::new();
    let dk_a = r.add_feed(key(1));
    let sid = r.add_connection();
    r.handle_wire_event(sid, WireEvent::Handshake(key(9)));
    r.handle_wire_event(sid, WireEvent::Channel(dk_a.clone()));
    assert_eq!(r.stats()[0].1.len(), 1);
    // last write wins: the fresh entry has no peers
    r.add_feed(key(1));
    let stats = r.stats();
    assert_eq!(stats.len(), 1);
    assert_eq!(stats[0].0, dk_a);
    assert!(stats[0].1.is_empty());
}

#[test]
fn snapshot_keys_lists_every_registered_key() {
    let mut r = Replicator::new();
    let dk_a = r.add_feed(key(1));
    let dk_b = r.add_feed(key(2));
    let snap = r.registry.snapshot_keys();
    assert_eq!(snap.len(), 2);
    assert!(snap.contains(&dk_a));
    assert!(snap.contains(&dk_b));
}

#[test]
fn no_replay_for_late_subscriptions() {
    // a session created after a feed was registered sees no stale
    // announcement: the handshake snapshot alone covers that feed.
    let mut r = Replicator::new();
    r.add_feed(key(1));
    let sid = r.add_connection();
    let sub = r.session_subscriber(sid);
    assert!(r.next_event(sub).is_none());
}

#[test]
fn peer_finished_for_unknown_key_changes_nothing() {
    let mut r = Replicator::new();
    let dk_a = r.add_feed(key(1));
    let sid = r.add_connection();
    let remote = key(9);
    r.handle_wire_event(sid, WireEvent::Handshake(remote.clone()));
    r.handle_wire_event(sid, WireEvent::Channel(dk_a));
    r.peer_finished(&key(3), &remote);
    assert!(!r.join_ready());
    assert!(!r.stats()[0].1[0].finished);
}

#[test]
fn peer_finished_marks_every_session_of_that_remote() {
    let mut r = Replicator::new();
    let dk_a = r.add_feed(key(1));
    let sid = r.add_connection();
    let remote = key(9);
    r.handle_wire_event(sid, WireEvent::Handshake(remote.clone()));
    r.handle_wire_event(sid, WireEvent::Channel(dk_a.clone()));
    r.handle_wire_event(sid, WireEvent::Channel(dk_a.clone()));
    assert_eq!(r.stats()[0].1.len(), 2);
    assert!(!r.join_ready());
    r.peer_finished(&dk_a, &remote);
    assert!(r.join_ready());
    assert!(r.stats()[0].1.iter().all(|s| s.finished));
}

#[test]
fn handshake_in_active_state_changes_nothing() {
    let mut r = Replicator::new();
    r.add_feed(key(1));
    let sid = r.add_connection();
    let first = r.handle_wire_event(sid, WireEvent::Handshake(key(9)));
    assert_eq!(first.len(), 1);
    let second = r.handle_wire_event(sid, WireEvent::Handshake(key(9)));
    assert!(second.is_empty());
}
