//! State synchronisation between the two players of a real-time game.
//!
//! On every tick a player packs its state into one datagram of eighty bytes
//! and sends it; the other player unpacks whatever arrives next. Nothing is
//! acknowledged, ordered or sent again: the latest state wins.
//!
//! - [`state`]: the values that travel, section by section.
//! - [`wire`]: how one value lies in four bytes.
//! - [`packet`]: how twenty values lie in a datagram.
//! - [`networking`]: packing a state and unpacking its sections.
//! - [`transport`]: the addresses of the sockets, and what is made of a
//!   receive.
//! - [`laws`]: what holds of packing and unpacking together.

pub mod laws;
pub mod networking;
pub mod packet;
pub mod state;
pub mod transport;
pub mod wire;
