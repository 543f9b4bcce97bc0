//! The peer-to-peer control protocol.
//!
//! Relays exchange three requests: add a peer, remove a peer, and forward a
//! draw event. A request frame is one tag byte followed by the request's
//! payload: a peer's node identifier as UTF-8 text for the membership
//! requests, an encoded draw event for a forward. Membership requests are
//! acknowledged with a response frame; a forward expects no reply.

use vstd::prelude::*;
use vstd::string::StringSliceAdditionalSpecFns;
use vstd::utf8::{decode_utf8, encode_utf8, group_utf8_lib, valid_utf8};

verus! {

/// A control request one relay sends another.
#[derive(Debug, Clone)]
pub enum GraffiRequest {
    /// Ask the receiving relay to add the named node to its peer set.
    AddPlayer(String),
    /// Ask the receiving relay to drop the named node from its peer set.
    RemovePlayer(String),
    /// Forward a draw event that originated at one of the sender's viewers.
    Draw(crate::event::CanvasMessage),
}

/// The acknowledgement a relay returns for a membership request.
#[derive(Debug, Clone, Copy, PartialEq, Eq, Structural)]
pub enum GraffiResponse {
    Cool,
}

/// How handling an inbound control frame can fail. Either way the frame is
/// dropped; neither failure stops the processing loop.
#[derive(Debug, Clone, Copy, PartialEq, Eq, Structural)]
pub enum ProtocolError {
    /// The frame is empty, or its payload does not parse for its kind.
    Malformed,
    /// The frame's tag byte names no known request kind.
    UnrecognizedKind,
}

/// The mathematical value of a [`GraffiRequest`].
#[verifier::ext_equal]
pub ghost enum GraffiRequestView {
    AddPlayer(Seq<char>),
    RemovePlayer(Seq<char>),
    Draw(crate::event::CanvasMessageView),
}

impl View for GraffiRequest {
    type V = GraffiRequestView;

    open spec fn view(&self) -> GraffiRequestView {
        match self {
            GraffiRequest::AddPlayer(a) => GraffiRequestView::AddPlayer(a@),
            GraffiRequest::RemovePlayer(a) => GraffiRequestView::RemovePlayer(a@),
            GraffiRequest::Draw(e) => GraffiRequestView::Draw(e@),
        }
    }
}

/// Tag byte of an add-peer request frame.
pub const TAG_ADD_PLAYER: u8 = 1;

/// Tag byte of a remove-peer request frame.
pub const TAG_REMOVE_PLAYER: u8 = 2;

/// Tag byte of a draw-forward request frame.
pub const TAG_DRAW: u8 = 3;

/// Tag byte of the acknowledgement response frame.
pub const TAG_COOL: u8 = 1;

/// The encoding of a control request: its tag byte, then its payload.
pub open spec fn spec_encode_request(r: GraffiRequestView) -> Seq<u8> {
    match r {
        GraffiRequestView::AddPlayer(a) => seq![TAG_ADD_PLAYER] + encode_utf8(a),
        GraffiRequestView::RemovePlayer(a) => seq![TAG_REMOVE_PLAYER] + encode_utf8(a),
        GraffiRequestView::Draw(e) => seq![TAG_DRAW] + crate::codec::spec_encode_event(e),
    }
}

/// The control request a byte sequence encodes, or `None` where none does.
pub open spec fn spec_decode_request(b: Seq<u8>) -> Option<GraffiRequestView> {
    if b.len() == 0 {
        None
    } else if b[0] == TAG_ADD_PLAYER {
        if valid_utf8(b.skip(1)) {
            Some(GraffiRequestView::AddPlayer(decode_utf8(b.skip(1))))
        } else {
            None
        }
    } else if b[0] == TAG_REMOVE_PLAYER {
        if valid_utf8(b.skip(1)) {
            Some(GraffiRequestView::RemovePlayer(decode_utf8(b.skip(1))))
        } else {
            None
        }
    } else if b[0] == TAG_DRAW {
        match crate::codec::spec_decode_event(b.skip(1)) {
            Some(e) => Some(GraffiRequestView::Draw(e)),
            None => None,
        }
    } else {
        None
    }
}

/// Whether a byte sequence starts with a tag no request kind uses; such a
/// frame is dropped as unrecognized rather than malformed.
pub open spec fn spec_unrecognized_kind(b: Seq<u8>) -> bool {
    b.len() > 0 && b[0] != TAG_ADD_PLAYER && b[0] != TAG_REMOVE_PLAYER && b[0] != TAG_DRAW
}

/// The encoding of a response: its tag byte alone.
pub open spec fn spec_encode_response(r: GraffiResponse) -> Seq<u8> {
    seq![TAG_COOL]
}

/// The response a byte sequence encodes, or `None` where none does.
pub open spec fn spec_decode_response(b: Seq<u8>) -> Option<GraffiResponse> {
    if b.len() == 1 && b[0] == TAG_COOL {
        Some(GraffiResponse::Cool)
    } else {
        None
    }
}

/// Encode a control request for the wire.
pub fn encode_request(r: &GraffiRequest) -> (out: Vec<u8>)
    ensures
        out@ == spec_encode_request(r@),
{
    let mut out: Vec<u8> = Vec::new();
    match r {
        GraffiRequest::AddPlayer(a) => {
            out.push(TAG_ADD_PLAYER);
            let mut payload = vstd::slice::slice_to_vec(a.as_str().as_bytes());
            out.append(&mut payload);
        },
        GraffiRequest::RemovePlayer(a) => {
            out.push(TAG_REMOVE_PLAYER);
            let mut payload = vstd::slice::slice_to_vec(a.as_str().as_bytes());
            out.append(&mut payload);
        },
        GraffiRequest::Draw(e) => {
            out.push(TAG_DRAW);
            let mut payload = crate::codec::encode_event(e);
            out.append(&mut payload);
        },
    }
    proof {
        assert(out@ =~= spec_encode_request(r@));
    }
    out
}

/// Encode a draw-forward request for the wire without taking ownership of
/// the event: the frame a viewer-originated event is sent to each peer in.
pub fn encode_draw_request(e: &crate::event::CanvasMessage) -> (out: Vec<u8>)
    ensures
        out@ == spec_encode_request(GraffiRequestView::Draw(e@)),
{
    let mut out: Vec<u8> = Vec::new();
    out.push(TAG_DRAW);
    let mut payload = crate::codec::encode_event(e);
    out.append(&mut payload);
    proof {
        assert(out@ =~= spec_encode_request(GraffiRequestView::Draw(e@)));
    }
    out
}

/// Decode one framed control request.
///
/// Succeeds exactly on the frames that encode a request; an empty frame or a
/// bad payload is [`ProtocolError::Malformed`], an unknown tag byte is
/// [`ProtocolError::UnrecognizedKind`].
pub fn decode_request(b: &[u8]) -> (r: Result<GraffiRequest, ProtocolError>)
    ensures
        match r {
            Ok(req) => spec_decode_request(b@) == Some(req@),
            Err(e) => {
                &&& spec_decode_request(b@) is None
                &&& e == (if spec_unrecognized_kind(b@) {
                    ProtocolError::UnrecognizedKind
                } else {
                    ProtocolError::Malformed
                })
            },
        },
{
    if b.len() == 0 {
        return Err(ProtocolError::Malformed);
    }
    let tag = *vstd::slice::slice_index_get(b, 0);
    let payload = vstd::slice::slice_subrange(b, 1, b.len());
    proof {
        assert(payload@ == b@.skip(1));
    }
    if tag == TAG_ADD_PLAYER {
        match string_payload(payload) {
            Some(a) => Ok(GraffiRequest::AddPlayer(a)),
            None => Err(ProtocolError::Malformed),
        }
    } else if tag == TAG_REMOVE_PLAYER {
        match string_payload(payload) {
            Some(a) => Ok(GraffiRequest::RemovePlayer(a)),
            None => Err(ProtocolError::Malformed),
        }
    } else if tag == TAG_DRAW {
        match crate::codec::decode_event(payload) {
            Ok(e) => Ok(GraffiRequest::Draw(e)),
            Err(crate::codec::DecodeError::Malformed) => Err(ProtocolError::Malformed),
        }
    } else {
        Err(ProtocolError::UnrecognizedKind)
    }
}

/// Read a membership request's payload as the peer's node identifier.
fn string_payload(payload: &[u8]) -> (r: Option<String>)
    ensures
        r is Some <==> valid_utf8(payload@),
        r matches Some(s) ==> s@ == decode_utf8(payload@),
{
    crate::codec::bytes_to_string(vstd::slice::slice_to_vec(payload))
}

/// Encode a response for the wire.
pub fn encode_response(r: &GraffiResponse) -> (out: Vec<u8>)
    ensures
        out@ == spec_encode_response(*r),
{
    let mut out: Vec<u8> = Vec::new();
    match r {
        GraffiResponse::Cool => {
            out.push(TAG_COOL);
        },
    }
    proof {
        assert(out@ =~= spec_encode_response(*r));
    }
    out
}

/// Decode one framed response.
pub fn decode_response(b: &[u8]) -> (r: Result<GraffiResponse, ProtocolError>)
    ensures
        match r {
            Ok(resp) => spec_decode_response(b@) == Some(resp),
            Err(ProtocolError::Malformed) => spec_decode_response(b@) is None,
            Err(ProtocolError::UnrecognizedKind) => false,
        },
{
    if b.len() == 1 && *vstd::slice::slice_index_get(b, 0) == TAG_COOL {
        Ok(GraffiResponse::Cool)
    } else {
        Err(ProtocolError::Malformed)
    }
}

/// The request codec is symmetric: decoding an encoded request gives the
/// request back.
pub proof fn lemma_request_round_trip(r: GraffiRequestView)
    ensures
        spec_decode_request(spec_encode_request(r)) == Some(r),
{
    broadcast use group_utf8_lib;

    let b = spec_encode_request(r);
    match r {
        GraffiRequestView::AddPlayer(a) => {
            assert(b.skip(1) =~= encode_utf8(a));
        },
        GraffiRequestView::RemovePlayer(a) => {
            assert(b.skip(1) =~= encode_utf8(a));
        },
        GraffiRequestView::Draw(e) => {
            assert(b.skip(1) =~= crate::codec::spec_encode_event(e));
            crate::codec::lemma_event_round_trip(e);
        },
    }
}

/// The response codec is symmetric as well.
pub proof fn lemma_response_round_trip(r: GraffiResponse)
    ensures
        spec_decode_response(spec_encode_response(r)) == Some(r),
{
}

} // verus!
