use libp2p::swarm::derive_prelude::ListenerId;
use ping_interop::node::{ListenWait, NodeEvent, PeerWait, Tally};
use ping_interop::peers::{bytes_equal, PeerSet};

fn connected(peer: u8) -> NodeEvent {
    NodeEvent::ConnectionEstablished { peer: vec![peer, 7] }
}

fn pinged(peer: u8) -> NodeEvent {
    NodeEvent::LivenessSuccess { peer: vec![peer, 7] }
}

fn ping_failed(peer: u8) -> NodeEvent {
    NodeEvent::LivenessFailure { peer: vec![peer, 7] }
}

#[test]
fn connections_wait_for_distinct_peers_only() {
    let mut wait = PeerWait::new(Tally::Connections, 3);
    assert!(!wait.observe(&connected(1)));
    assert!(!wait.observe(&connected(2)));
    for _ in 0..20 {
        assert!(!wait.observe(&connected(2)));
        assert!(!wait.observe(&connected(1)));
    }
    assert_eq!(wait.count(), 2);
    assert!(!wait.is_complete());
    assert!(wait.observe(&connected(3)));
    assert_eq!(wait.count(), 3);
    assert!(wait.is_complete());
}

#[test]
fn pings_ignore_failed_checks() {
    let mut wait = PeerWait::new(Tally::Pings, 2);
    assert!(!wait.observe(&ping_failed(1)));
    assert!(!wait.observe(&ping_failed(2)));
    assert_eq!(wait.count(), 0);
    assert!(!wait.observe(&pinged(1)));
    assert_eq!(wait.count(), 1);
    assert!(wait.observe(&pinged(2)));
    assert_eq!(wait.count(), 2);
}

#[test]
fn repeated_connections_of_one_peer_count_once() {
    let mut wait = PeerWait::new(Tally::Connections, 2);
    for _ in 0..5 {
        assert!(!wait.observe(&connected(9)));
    }
    assert_eq!(wait.count(), 1);
}

#[test]
fn waits_discard_events_of_other_kinds() {
    let mut connections = PeerWait::new(Tally::Connections, 1);
    assert!(!connections.observe(&pinged(1)));
    assert!(!connections.observe(&ping_failed(1)));
    assert!(!connections.observe(&NodeEvent::Other));
    assert!(!connections.observe(&NodeEvent::ListenerReady { listener: ListenerId::next(), address: String::new() }));
    assert_eq!(connections.count(), 0);
    assert!(connections.observe(&connected(1)));

    let mut pings = PeerWait::new(Tally::Pings, 1);
    assert!(!pings.observe(&connected(1)));
    assert_eq!(pings.count(), 0);
    assert!(pings.observe(&pinged(1)));
}

#[test]
fn listen_wait_matches_its_own_listener() {
    let mine = ListenerId::next();
    let other = ListenerId::next();
    let wait = ListenWait::new(mine);
    assert!(!wait.observe(&NodeEvent::ListenerReady { listener: other, address: "/ip4/1.1.1.1/tcp/1".to_string() }));
    assert!(!wait.observe(&connected(1)));
    assert!(!wait.observe(&NodeEvent::Other));
    assert!(wait.observe(&NodeEvent::ListenerReady { listener: mine, address: "/ip4/1.1.1.1/tcp/1".to_string() }));
}

#[test]
fn peer_set_holds_each_identity_once() {
    let mut set = PeerSet::new();
    assert_eq!(set.len(), 0);
    set.insert(&vec![1, 2, 3]);
    set.insert(&vec![1, 2]);
    set.insert(&vec![1, 2, 3]);
    assert_eq!(set.len(), 2);
    assert!(set.contains(&vec![1, 2]));
    assert!(!set.contains(&vec![1]));
    assert!(!set.contains(&vec![]));
}

#[test]
fn byte_strings_compare_by_content() {
    assert!(bytes_equal(&vec![], &vec![]));
    assert!(bytes_equal(&vec![4, 5], &vec![4, 5]));
    assert!(!bytes_equal(&vec![4, 5], &vec![4, 6]));
    assert!(!bytes_equal(&vec![4, 5], &vec![4, 5, 0]));
}
