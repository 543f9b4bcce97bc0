//! Tests for the viewer channel set and the peer membership set.

use graffitech::{PeerMembershipSet, ViewerChannelSet};

#[test]
fn register_and_unregister_viewers() {
    let mut viewers = ViewerChannelSet::new();
    assert!(!viewers.contains(7));
    viewers.register(7);
    assert!(viewers.contains(7));
    viewers.unregister(7);
    assert!(!viewers.contains(7));
}

#[test]
fn register_is_idempotent() {
    let mut viewers = ViewerChannelSet::new();
    viewers.register(7);
    viewers.register(7);
    assert!(viewers.contains(7));
    let targets = viewers.broadcast_targets(None);
    assert_eq!(targets, vec![7]);
}

#[test]
fn unregister_absent_viewer_is_a_no_op() {
    let mut viewers = ViewerChannelSet::new();
    viewers.register(1);
    viewers.unregister(2);
    assert!(viewers.contains(1));
    assert!(!viewers.contains(2));
}

#[test]
fn broadcast_targets_excludes_the_origin_only() {
    let mut viewers = ViewerChannelSet::new();
    viewers.register(1);
    viewers.register(2);
    viewers.register(3);
    let targets = viewers.broadcast_targets(Some(2));
    assert_eq!(targets.len(), 2);
    assert!(targets.contains(&1));
    assert!(targets.contains(&3));
    assert!(!targets.contains(&2));
}

#[test]
fn broadcast_targets_without_exclusion_reaches_everyone() {
    let mut viewers = ViewerChannelSet::new();
    viewers.register(1);
    viewers.register(2);
    let targets = viewers.broadcast_targets(None);
    assert_eq!(targets.len(), 2);
    assert!(targets.contains(&1));
    assert!(targets.contains(&2));
}

#[test]
fn add_peer_twice_equals_adding_once() {
    let mut once = PeerMembershipSet::new();
    once.add_peer("p1.os".to_string());

    let mut twice = PeerMembershipSet::new();
    twice.add_peer("p1.os".to_string());
    twice.add_peer("p1.os".to_string());

    assert_eq!(once.for_each_peer(None), twice.for_each_peer(None));
    assert_eq!(twice.for_each_peer(None), vec!["p1.os".to_string()]);
}

#[test]
fn remove_absent_peer_is_a_no_op() {
    let mut peers = PeerMembershipSet::new();
    peers.add_peer("p1.os".to_string());
    peers.remove_peer(&"p2.os".to_string());
    assert!(peers.contains_peer(&"p1.os".to_string()));
    assert_eq!(peers.for_each_peer(None), vec!["p1.os".to_string()]);
}

#[test]
fn remove_peer_removes_it() {
    let mut peers = PeerMembershipSet::new();
    peers.add_peer("p1.os".to_string());
    peers.add_peer("p2.os".to_string());
    peers.remove_peer(&"p1.os".to_string());
    assert!(!peers.contains_peer(&"p1.os".to_string()));
    assert!(peers.contains_peer(&"p2.os".to_string()));
}

#[test]
fn for_each_peer_is_a_snapshot_excluding_one() {
    let mut peers = PeerMembershipSet::new();
    peers.add_peer("p1.os".to_string());
    peers.add_peer("p2.os".to_string());
    let all = peers.for_each_peer(None);
    assert_eq!(all.len(), 2);
    let rest = peers.for_each_peer(Some(&"p1.os".to_string()));
    assert_eq!(rest, vec!["p2.os".to_string()]);
    // The snapshot is a copy: mutating the set afterwards leaves it alone.
    peers.remove_peer(&"p2.os".to_string());
    assert_eq!(all.len(), 2);
}
