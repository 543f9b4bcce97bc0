//! Scenario tests for the relay core's routing policy.

use graffitech::event::CanvasMessage;
use graffitech::protocol::{GraffiRequest, GraffiResponse, ProtocolError};
use graffitech::relay;
use graffitech::{codec, protocol, PeerMembershipSet, ViewerChannelSet};

fn event(x: f64, y: f64, color: &str) -> CanvasMessage {
    CanvasMessage { x: x.to_bits(), y: y.to_bits(), color: color.to_string() }
}

#[test]
fn local_draw_reaches_exactly_the_other_viewers() {
    // Viewers {c, v1, v2}: an event from c is delivered to exactly {v1, v2}.
    let mut viewers = ViewerChannelSet::new();
    let (c, v1, v2) = (1, 2, 3);
    viewers.register(c);
    viewers.register(v1);
    viewers.register(v2);
    let peers = PeerMembershipSet::new();

    let fanout = relay::on_local_draw(&viewers, &peers, c, &event(1.0, 2.0, "#123456"));
    assert_eq!(fanout.viewer_targets.len(), 2);
    assert!(fanout.viewer_targets.contains(&v1));
    assert!(fanout.viewer_targets.contains(&v2));
    assert!(!fanout.viewer_targets.contains(&c));
}

#[test]
fn local_draw_is_forwarded_to_every_peer() {
    // Peers {p1, p2}: an event from a viewer is forwarded to exactly {p1, p2}.
    let mut viewers = ViewerChannelSet::new();
    viewers.register(1);
    let mut peers = PeerMembershipSet::new();
    peers.add_peer("p1.os".to_string());
    peers.add_peer("p2.os".to_string());

    let e = event(1.0, 2.0, "#123456");
    let fanout = relay::on_local_draw(&viewers, &peers, 1, &e);
    assert_eq!(fanout.peer_targets.len(), 2);
    assert!(fanout.peer_targets.contains(&"p1.os".to_string()));
    assert!(fanout.peer_targets.contains(&"p2.os".to_string()));
    assert_eq!(fanout.peer_payload, protocol::encode_draw_request(&e));
}

#[test]
fn viewer_scenario_one_sender_one_receiver_no_peers() {
    // Viewers [A, B], peers []. A sends {x:10, y:20, color:"#ff0000"}.
    // B receives the identical event; no peer messages are sent.
    let mut viewers = ViewerChannelSet::new();
    let (a, b) = (10, 11);
    viewers.register(a);
    viewers.register(b);
    let peers = PeerMembershipSet::new();

    let e = event(10.0, 20.0, "#ff0000");
    let frame = codec::encode_event(&e);
    let fanout = relay::on_viewer_message(&viewers, &peers, a, &frame).unwrap();

    assert_eq!(fanout.viewer_targets, vec![b]);
    let received = codec::decode_event(&fanout.viewer_payload).unwrap();
    assert_eq!(received, e);
    assert!(fanout.peer_targets.is_empty());
}

#[test]
fn peer_scenario_draw_reaches_viewers_and_no_peer() {
    // Viewers [A], peers [P1]. P1 sends Draw({x:5, y:5, color:"#00ff00"}).
    // A receives the event; no message goes to P1 or any other peer.
    let mut viewers = ViewerChannelSet::new();
    let a = 4;
    viewers.register(a);
    let mut peers = PeerMembershipSet::new();
    peers.add_peer("p1.os".to_string());

    let e = event(5.0, 5.0, "#00ff00");
    let frame = protocol::encode_request(&GraffiRequest::Draw(e.clone()));
    let outcome = relay::handle_peer_request(&viewers, &mut peers, &frame).unwrap();

    assert!(outcome.response.is_none());
    let fanout = outcome.fanout.unwrap();
    assert_eq!(fanout.viewer_targets, vec![a]);
    let received = codec::decode_event(&fanout.viewer_payload).unwrap();
    assert_eq!(received, e);
    assert!(fanout.peer_targets.is_empty());
    assert!(fanout.peer_payload.is_empty());
}

#[test]
fn peer_draw_with_several_viewers_and_peers() {
    // Peers {p1, p2} and viewers {v1, v2}: a draw from p1 is delivered to
    // {v1, v2} and to no peer.
    let mut viewers = ViewerChannelSet::new();
    viewers.register(21);
    viewers.register(22);
    let mut peers = PeerMembershipSet::new();
    peers.add_peer("p1.os".to_string());
    peers.add_peer("p2.os".to_string());

    let e = event(7.0, 8.0, "teal");
    let frame = protocol::encode_request(&GraffiRequest::Draw(e.clone()));
    let outcome = relay::handle_peer_request(&viewers, &mut peers, &frame).unwrap();

    let fanout = outcome.fanout.unwrap();
    assert_eq!(fanout.viewer_targets.len(), 2);
    assert!(fanout.viewer_targets.contains(&21));
    assert!(fanout.viewer_targets.contains(&22));
    assert!(fanout.peer_targets.is_empty());
    // The peer set is untouched by a forwarded draw.
    assert!(peers.contains_peer(&"p1.os".to_string()));
    assert!(peers.contains_peer(&"p2.os".to_string()));
}

#[test]
fn add_peer_request_mutates_the_set_and_acknowledges() {
    let viewers = ViewerChannelSet::new();
    let mut peers = PeerMembershipSet::new();
    let frame = protocol::encode_request(&GraffiRequest::AddPlayer("p1.os".to_string()));
    let outcome = relay::handle_peer_request(&viewers, &mut peers, &frame).unwrap();
    assert!(peers.contains_peer(&"p1.os".to_string()));
    assert!(outcome.fanout.is_none());
    let ack = outcome.response.unwrap();
    assert_eq!(protocol::decode_response(&ack), Ok(GraffiResponse::Cool));
}

#[test]
fn remove_peer_request_mutates_the_set_and_acknowledges() {
    let viewers = ViewerChannelSet::new();
    let mut peers = PeerMembershipSet::new();
    peers.add_peer("p1.os".to_string());
    let frame = protocol::encode_request(&GraffiRequest::RemovePlayer("p1.os".to_string()));
    let outcome = relay::handle_peer_request(&viewers, &mut peers, &frame).unwrap();
    assert!(!peers.contains_peer(&"p1.os".to_string()));
    assert!(outcome.fanout.is_none());
    let ack = outcome.response.unwrap();
    assert_eq!(protocol::decode_response(&ack), Ok(GraffiResponse::Cool));
}

#[test]
fn malformed_peer_frame_changes_nothing() {
    let viewers = ViewerChannelSet::new();
    let mut peers = PeerMembershipSet::new();
    peers.add_peer("p1.os".to_string());
    let r = relay::handle_peer_request(&viewers, &mut peers, &[]);
    assert!(matches!(r, Err(ProtocolError::Malformed)));
    let r = relay::handle_peer_request(&viewers, &mut peers, &[42, 0]);
    assert!(matches!(r, Err(ProtocolError::UnrecognizedKind)));
    assert_eq!(peers.for_each_peer(None), vec!["p1.os".to_string()]);
}

#[test]
fn malformed_viewer_frame_is_reported_not_fatal() {
    let mut viewers = ViewerChannelSet::new();
    viewers.register(1);
    viewers.register(2);
    let peers = PeerMembershipSet::new();
    let r = relay::on_viewer_message(&viewers, &peers, 1, &[0, 1, 2]);
    assert!(matches!(r, Err(graffitech::DecodeError::Malformed)));
    // The next, well-formed message still goes through.
    let frame = codec::encode_event(&event(1.0, 1.0, "red"));
    let fanout = relay::on_viewer_message(&viewers, &peers, 1, &frame).unwrap();
    assert_eq!(fanout.viewer_targets, vec![2]);
}

#[test]
fn one_failed_delivery_leaves_the_others_delivered() {
    // Three registered viewers; the send to one of them fails. The other two
    // still receive the event, and the failure shows up only as that
    // destination's status.
    let mut viewers = ViewerChannelSet::new();
    viewers.register(1);
    viewers.register(2);
    viewers.register(3);

    let e = event(3.0, 4.0, "#0000ff");
    let fanout = relay::on_peer_draw(&viewers, &e);
    assert_eq!(fanout.viewer_targets.len(), 3);

    // The transport attempts every planned target; here the send to 2 fails.
    let mut delivered_to = Vec::new();
    let mut outcomes = Vec::new();
    for &target in fanout.viewer_targets.iter() {
        let ok = target != 2;
        if ok {
            delivered_to.push(target);
        }
        outcomes.push(ok);
    }
    assert_eq!(delivered_to.len(), 2);
    assert!(delivered_to.contains(&1));
    assert!(delivered_to.contains(&3));

    let failed = relay::failed_targets(&fanout.viewer_targets, &outcomes);
    assert_eq!(failed, vec![2]);
}
