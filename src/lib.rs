//! A daemon core for an addressable light strip: effects that compute frames of
//! pixel colors, the slot that holds the active effect, and the framing of a
//! frame into the bytes of a lighting-protocol packet.
pub mod color;
pub mod frame;
pub mod helpers;
pub mod effects;
pub mod client;
pub mod daemon;
