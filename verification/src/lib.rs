//! A relay core for a shared-canvas drawing service.
//!
//! Browser viewers push draw events over duplex connections to a relay
//! instance; the relay fans each event out to its other local viewers and to a
//! set of trusted remote peer relays. Peers exchange a small control protocol
//! (add-peer, remove-peer, draw-forward). This crate holds the decision logic
//! of that relay: the wire codec, the two membership sets, and the routing
//! policy. The transport that carries the bytes lives outside.

pub mod codec;
pub mod event;
pub mod peers;
pub mod protocol;
pub mod relay;
pub mod viewers;

pub use codec::DecodeError;
pub use event::CanvasMessage;
pub use event::CanvasMessageView;
pub use peers::PeerMembershipSet;
pub use protocol::GraffiRequest;
pub use protocol::GraffiResponse;
pub use protocol::ProtocolError;
pub use relay::Fanout;
pub use relay::PeerOutcome;
pub use viewers::ViewerChannelSet;
