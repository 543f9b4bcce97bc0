//! Wire codec for draw events.
//!
//! A draw event is framed by the transport, so its encoding needs no internal
//! length prefix: eight little-endian bytes for each coordinate's bit
//! pattern, then the UTF-8 bytes of the color text, which run to the end of
//! the frame. Decoding fails on a frame too short to hold the two coordinates
//! or whose tail is not UTF-8; it never panics.

use vstd::bytes::{
    lemma_auto_spec_u64_to_from_le_bytes, spec_u64_from_le_bytes, spec_u64_to_le_bytes,
    u64_from_le_bytes, u64_to_le_bytes,
};
use vstd::prelude::*;
use vstd::slice::{slice_subrange, slice_to_vec};
use vstd::string::StringSliceAdditionalSpecFns;
use vstd::utf8::{decode_utf8, encode_utf8, group_utf8_lib, valid_utf8};

verus! {

/// How decoding an inbound frame can fail. A malformed frame is dropped by
/// the processing loop, never fatal.
#[derive(Debug, Clone, Copy, PartialEq, Eq, Structural)]
pub enum DecodeError {
    /// The frame is truncated or its color tail is not UTF-8 text.
    Malformed,
}

/// The number of bytes the two coordinate bit patterns occupy at the front of
/// an encoded draw event.
pub const EVENT_HEADER_LEN: usize = 16;

/// The encoding of a draw event: `x` bits, `y` bits, color text as UTF-8.
pub open spec fn spec_encode_event(e: crate::event::CanvasMessageView) -> Seq<u8> {
    spec_u64_to_le_bytes(e.x) + spec_u64_to_le_bytes(e.y) + encode_utf8(e.color)
}

/// The draw event a byte sequence encodes, or `None` where no event does.
pub open spec fn spec_decode_event(b: Seq<u8>) -> Option<crate::event::CanvasMessageView> {
    if b.len() >= EVENT_HEADER_LEN && valid_utf8(b.skip(EVENT_HEADER_LEN as int)) {
        Some(
            crate::event::CanvasMessageView {
                x: spec_u64_from_le_bytes(b.subrange(0, 8)),
                y: spec_u64_from_le_bytes(b.subrange(8, 16)),
                color: decode_utf8(b.skip(EVENT_HEADER_LEN as int)),
            },
        )
    } else {
        None
    }
}

/// Relies on `String::from_utf8`: it succeeds exactly on valid UTF-8 input,
/// and the string it returns then decodes those bytes.
#[verifier::external_body]
pub(crate) fn bytes_to_string(v: Vec<u8>) -> (r: Option<String>)
    ensures
        r is Some <==> valid_utf8(v@),
        r matches Some(s) ==> s@ == decode_utf8(v@),
{
    String::from_utf8(v).ok()
}

/// Encode a draw event for the wire.
pub fn encode_event(e: &crate::event::CanvasMessage) -> (r: Vec<u8>)
    ensures
        r@ == spec_encode_event(e@),
{
    let mut out = u64_to_le_bytes(e.x);
    let mut y_bytes = u64_to_le_bytes(e.y);
    out.append(&mut y_bytes);
    let mut color_bytes = slice_to_vec(e.color.as_str().as_bytes());
    out.append(&mut color_bytes);
    out
}

/// Decode one framed wire message into a draw event.
///
/// Succeeds exactly on the frames that encode an event; a truncated or
/// type-mismatched frame is reported as [`DecodeError::Malformed`].
pub fn decode_event(b: &[u8]) -> (r: Result<crate::event::CanvasMessage, DecodeError>)
    ensures
        match r {
            Ok(e) => spec_decode_event(b@) == Some(e@),
            Err(DecodeError::Malformed) => spec_decode_event(b@) is None,
        },
{
    if b.len() < EVENT_HEADER_LEN {
        return Err(DecodeError::Malformed);
    }
    let x = u64_from_le_bytes(slice_subrange(b, 0, 8));
    let y = u64_from_le_bytes(slice_subrange(b, 8, 16));
    let tail = slice_to_vec(slice_subrange(b, EVENT_HEADER_LEN, b.len()));
    proof {
        assert(tail@ == b@.skip(EVENT_HEADER_LEN as int));
    }
    match bytes_to_string(tail) {
        Some(color) => Ok(crate::event::CanvasMessage { x, y, color }),
        None => Err(DecodeError::Malformed),
    }
}

/// The codec is symmetric: decoding an encoded event gives the event back.
pub proof fn lemma_event_round_trip(e: crate::event::CanvasMessageView)
    ensures
        spec_decode_event(spec_encode_event(e)) == Some(e),
{
    broadcast use group_utf8_lib;

    lemma_auto_spec_u64_to_from_le_bytes();
    let b = spec_encode_event(e);
    assert(b.subrange(0, 8) =~= spec_u64_to_le_bytes(e.x));
    assert(b.subrange(8, 16) =~= spec_u64_to_le_bytes(e.y));
    assert(b.skip(EVENT_HEADER_LEN as int) =~= encode_utf8(e.color));
    assert(spec_decode_event(b) == Some(e));
}

/// The encoding is canonical: every frame that decodes to an event is that
/// event's encoding, so two distinct frames never decode to the same event.
pub proof fn lemma_event_encoding_canonical(b: Seq<u8>, e: crate::event::CanvasMessageView)
    requires
        spec_decode_event(b) == Some(e),
    ensures
        spec_encode_event(e) == b,
{
    broadcast use group_utf8_lib;

    lemma_auto_spec_u64_to_from_le_bytes();
    assert(spec_encode_event(e) =~= b.subrange(0, 8) + b.subrange(8, 16) + b.skip(
        EVENT_HEADER_LEN as int,
    ));
    assert(b =~= b.subrange(0, 8) + b.subrange(8, 16) + b.skip(EVENT_HEADER_LEN as int));
}

} // verus!
