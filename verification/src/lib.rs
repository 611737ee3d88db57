//! Verified core of sada, voice chat for Space Station 13.
//!
//! - [`frame`]: length-prefixed control frames and the reusable frame buffer.
//! - [`protocol`]: control requests and responses, and the server's answers.
//! - [`client`]: decisions of the BYOND bridge's control client.
//! - [`byond`]: conversion of raw BYOND arguments.
//! - [`signaling`]: signaling messages and the endpoint's decisions.
//! - [`session`]: per-session audio slot bookkeeping and negotiation planning.
//! - [`rtc`]: the session logic that drives the WebRTC engine.
//! - [`media`]: audio frame and dump counting.
//! - [`host`]: choice of the host address for WebRTC sockets.
//! - [`transmit`]: what str0m acknowledged when it wrote a frame or accepted an answer.

pub mod byond;
pub mod client;
pub mod frame;
pub mod host;
pub mod media;
pub mod outside;
pub mod protocol;
pub mod rtc;
pub mod session;
pub mod signaling;
pub mod text;
pub mod transmit;
