//! The draw event: one stroke sample, the unit of replication.

use vstd::prelude::*;

verus! {

/// One stroke sample as it travels between viewers and relays.
///
/// `x` and `y` hold the IEEE-754 bit patterns of the two coordinates. The
/// relay never interprets coordinates, it only carries them, so they are kept
/// as the 64 raw bits that go on the wire; the transport shell converts them
/// to and from floating point at the boundary. `color` is the color text the
/// originating viewer chose, for example `"#ff0000"` or a named color.
#[derive(Debug, Clone)]
pub struct CanvasMessage {
    pub x: u64,
    pub y: u64,
    pub color: String,
}

/// The mathematical value of a [`CanvasMessage`]: the two coordinate bit
/// patterns and the color as a character sequence.
#[verifier::ext_equal]
pub ghost struct CanvasMessageView {
    pub x: u64,
    pub y: u64,
    pub color: Seq<char>,
}

impl View for CanvasMessage {
    type V = CanvasMessageView;

    open spec fn view(&self) -> CanvasMessageView {
        CanvasMessageView { x: self.x, y: self.y, color: self.color@ }
    }
}

impl PartialEq for CanvasMessage {
    fn eq(&self, other: &CanvasMessage) -> bool {
        self.x == other.x && self.y == other.y && self.color == other.color
    }
}

impl Eq for CanvasMessage {}

impl vstd::std_specs::cmp::PartialEqSpecImpl for CanvasMessage {
    open spec fn obeys_eq_spec() -> bool {
        true
    }

    open spec fn eq_spec(&self, other: &CanvasMessage) -> bool {
        self@ == other@
    }
}

} // verus!
