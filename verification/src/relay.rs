//! The relay core: routing policy for inbound draw events.
//!
//! An inbound event is classified by where it arrived, never by a tag in the
//! data. A viewer-originated event goes to every other local viewer and to
//! every peer, wrapped in a draw-forward request; a peer-originated event
//! goes to every local viewer and to no peer — the no-reforward rule is the
//! sole loop-prevention mechanism of the relay mesh and must be preserved.
//! The routing functions compute the complete fan-out as a plan; the
//! transport performs the sends, one by one, so a failure at one destination
//! cannot touch what any other destination receives.

use crate::codec::{decode_event, encode_event, spec_decode_event, spec_encode_event, DecodeError};
use crate::event::CanvasMessage;
use crate::peers::{addrs_contain, addrs_no_duplicates, PeerMembershipSet};
use crate::protocol::{
    decode_request, encode_response, spec_decode_request, spec_encode_request,
    spec_encode_response, spec_unrecognized_kind, GraffiRequest, GraffiRequestView,
    GraffiResponse, ProtocolError,
};
use crate::viewers::ViewerChannelSet;
use vstd::prelude::*;

verus! {

broadcast use vstd::seq_lib::group_seq_properties;

/// The complete fan-out one inbound draw event calls for: which local
/// viewers get the event's frame, and which peers get it wrapped in a
/// draw-forward request. A fixed point-in-time plan: no delivery outcome can
/// change it, which is what isolates a failure at one destination from the
/// rest.
pub struct Fanout {
    /// The viewer connections to send `viewer_payload` to, each exactly once.
    pub viewer_targets: Vec<u32>,
    /// The encoded draw event, as the viewers' wire format carries it.
    pub viewer_payload: Vec<u8>,
    /// The peers to send `peer_payload` to, each exactly once.
    pub peer_targets: Vec<String>,
    /// The encoded draw-forward request; empty when no peer is targeted.
    pub peer_payload: Vec<u8>,
}

/// What a correct fan-out of a viewer-originated event looks like: every
/// registered viewer except the origin, never the origin itself, and every
/// registered peer, each carrying the right frame.
pub open spec fn local_fanout_ok(
    viewers: Set<u32>,
    peers: Set<Seq<char>>,
    origin: u32,
    e: crate::event::CanvasMessageView,
    f: Fanout,
) -> bool {
    &&& f.viewer_targets@.no_duplicates()
    &&& !f.viewer_targets@.contains(origin)
    &&& forall|c: u32|
        #[trigger] f.viewer_targets@.contains(c) <==> (viewers.contains(c) && c != origin)
    &&& f.viewer_payload@ == spec_encode_event(e)
    &&& addrs_no_duplicates(f.peer_targets@)
    &&& forall|a: Seq<char>| #[trigger] addrs_contain(f.peer_targets@, a) <==> peers.contains(a)
    &&& f.peer_payload@ == spec_encode_request(GraffiRequestView::Draw(e))
}

/// What a correct fan-out of a peer-originated event looks like: every
/// registered viewer — there is no local origin to exclude — and no peer at
/// all, not even one other than the sender.
pub open spec fn peer_fanout_ok(
    viewers: Set<u32>,
    e: crate::event::CanvasMessageView,
    f: Fanout,
) -> bool {
    &&& f.viewer_targets@.no_duplicates()
    &&& forall|c: u32| #[trigger] f.viewer_targets@.contains(c) <==> viewers.contains(c)
    &&& f.viewer_payload@ == spec_encode_event(e)
    &&& f.peer_targets@ == Seq::<String>::empty()
    &&& f.peer_payload@ == Seq::<u8>::empty()
}

/// Route a draw event that arrived on viewer connection `origin`.
///
/// The one path that crosses from local to remote scope: the event reaches
/// every other local viewer and every peer, and is never echoed to `origin`.
pub fn on_local_draw(
    viewers: &ViewerChannelSet,
    peers: &PeerMembershipSet,
    origin: u32,
    event: &CanvasMessage,
) -> (f: Fanout)
    requires
        viewers.wf(),
        peers.wf(),
    ensures
        local_fanout_ok(viewers@, peers@, origin, event@, f),
{
    let viewer_targets = viewers.broadcast_targets(Some(origin));
    let viewer_payload = encode_event(event);
    let peer_targets = peers.for_each_peer(None);
    let peer_payload = crate::protocol::encode_draw_request(event);
    Fanout { viewer_targets, viewer_payload, peer_targets, peer_payload }
}

/// Route a draw event that arrived from a peer.
///
/// The event reaches every local viewer and is not re-forwarded to any peer:
/// each relay forwards only viewer-originated events outward.
pub fn on_peer_draw(viewers: &ViewerChannelSet, event: &CanvasMessage) -> (f: Fanout)
    requires
        viewers.wf(),
    ensures
        peer_fanout_ok(viewers@, event@, f),
{
    let viewer_targets = viewers.broadcast_targets(None);
    let viewer_payload = encode_event(event);
    Fanout {
        viewer_targets,
        viewer_payload,
        peer_targets: Vec::new(),
        peer_payload: Vec::new(),
    }
}

/// Decode and route one framed message from viewer connection `origin`.
///
/// Succeeds exactly on the frames that encode a draw event; a malformed
/// frame is reported so the processing loop can log and drop it.
pub fn on_viewer_message(
    viewers: &ViewerChannelSet,
    peers: &PeerMembershipSet,
    origin: u32,
    frame: &[u8],
) -> (r: Result<Fanout, DecodeError>)
    requires
        viewers.wf(),
        peers.wf(),
    ensures
        match r {
            Ok(f) => match spec_decode_event(frame@) {
                Some(e) => local_fanout_ok(viewers@, peers@, origin, e, f),
                None => false,
            },
            Err(DecodeError::Malformed) => spec_decode_event(frame@) is None,
        },
{
    match decode_event(frame) {
        Ok(event) => Ok(on_local_draw(viewers, peers, origin, &event)),
        Err(e) => Err(e),
    }
}

/// What handling one inbound peer request produced: the acknowledgement owed
/// to the sender, and the local deliveries a forwarded draw calls for.
pub struct PeerOutcome {
    /// The encoded response, present exactly for the membership requests.
    pub response: Option<Vec<u8>>,
    /// The local fan-out, present exactly for a draw-forward.
    pub fanout: Option<Fanout>,
}

/// Decode and handle one framed control request from a peer.
///
/// Membership requests mutate the peer set and are acknowledged; they never
/// touch the viewer set. A draw-forward is fanned out to the local viewers
/// only and leaves the peer set unchanged. A frame that decodes to no
/// request is dropped with the error naming why, and changes nothing.
pub fn handle_peer_request(
    viewers: &ViewerChannelSet,
    peers: &mut PeerMembershipSet,
    frame: &[u8],
) -> (r: Result<PeerOutcome, ProtocolError>)
    requires
        viewers.wf(),
        old(peers).wf(),
    ensures
        final(peers).wf(),
        match r {
            Ok(out) => match spec_decode_request(frame@) {
                Some(GraffiRequestView::AddPlayer(a)) => {
                    &&& final(peers)@ == old(peers)@.insert(a)
                    &&& out.response matches Some(resp) && resp@ == spec_encode_response(
                        GraffiResponse::Cool,
                    )
                    &&& out.fanout is None
                },
                Some(GraffiRequestView::RemovePlayer(a)) => {
                    &&& final(peers)@ == old(peers)@.remove(a)
                    &&& out.response matches Some(resp) && resp@ == spec_encode_response(
                        GraffiResponse::Cool,
                    )
                    &&& out.fanout is None
                },
                Some(GraffiRequestView::Draw(e)) => {
                    &&& final(peers)@ == old(peers)@
                    &&& out.response is None
                    &&& out.fanout matches Some(f) && peer_fanout_ok(viewers@, e, f)
                },
                None => false,
            },
            Err(e) => {
                &&& spec_decode_request(frame@) is None
                &&& final(peers)@ == old(peers)@
                &&& e == (if spec_unrecognized_kind(frame@) {
                    ProtocolError::UnrecognizedKind
                } else {
                    ProtocolError::Malformed
                })
            },
        },
{
    match decode_request(frame) {
        Ok(GraffiRequest::AddPlayer(addr)) => {
            peers.add_peer(addr);
            Ok(
                PeerOutcome {
                    response: Some(encode_response(&GraffiResponse::Cool)),
                    fanout: None,
                },
            )
        },
        Ok(GraffiRequest::RemovePlayer(addr)) => {
            peers.remove_peer(&addr);
            Ok(
                PeerOutcome {
                    response: Some(encode_response(&GraffiResponse::Cool)),
                    fanout: None,
                },
            )
        },
        Ok(GraffiRequest::Draw(event)) => {
            Ok(PeerOutcome { response: None, fanout: Some(on_peer_draw(viewers, &event)) })
        },
        Err(e) => Err(e),
    }
}

/// The destinations of a fan-out that did not take the payload, given each
/// destination's send outcome.
///
/// Delivery is isolated per destination: whether a target appears here
/// depends on its own outcome alone, so one failed send neither removes nor
/// adds any other destination, and the failure surfaces only as this
/// per-destination status.
pub fn failed_targets(targets: &Vec<u32>, delivered: &Vec<bool>) -> (r: Vec<u32>)
    requires
        targets@.len() == delivered@.len(),
        targets@.no_duplicates(),
    ensures
        r@.no_duplicates(),
        forall|i: int|
            0 <= i < targets@.len() ==> (#[trigger] r@.contains(targets@[i])
                <==> !delivered@[i]),
        forall|c: u32| #[trigger] r@.contains(c) ==> targets@.contains(c),
{
    let mut out: Vec<u32> = Vec::new();
    let mut k: usize = 0;
    while k < targets.len()
        invariant
            0 <= k <= targets@.len(),
            targets@.len() == delivered@.len(),
            targets@.no_duplicates(),
            out@.no_duplicates(),
            forall|c: u32|
                #[trigger] out@.contains(c) <==> (exists|j: int|
                    0 <= j < k && targets@[j] == c && !delivered@[j]),
        decreases targets@.len() - k,
    {
        if !delivered[k] {
            proof {
                assert(!out@.contains(targets@[k as int])) by {
                    if out@.contains(targets@[k as int]) {
                        let j = choose|j: int|
                            0 <= j < k && targets@[j] == targets@[k as int] && !delivered@[j];
                        assert(targets@[j] == targets@[k as int]);
                        assert(false);
                    }
                }
            }
            out.push(targets[k]);
        }
        k += 1;
    }
    proof {
        assert forall|i: int| 0 <= i < targets@.len() implies (#[trigger] out@.contains(
            targets@[i],
        ) <==> !delivered@[i]) by {
            if out@.contains(targets@[i]) {
                let j = choose|j: int|
                    0 <= j < targets@.len() && targets@[j] == targets@[i] && !delivered@[j];
                assert(j == i);
            }
        }
        assert forall|c: u32| #[trigger] out@.contains(c) implies targets@.contains(c) by {
            let j = choose|j: int| 0 <= j < targets@.len() && targets@[j] == c && !delivered@[j];
            assert(targets@[j] == c);
        }
    }
    out
}

} // verus!
