//! The connection manager of a small desktop client for a music streamer.
//!
//! The streamer's server offers a read-only feed: text frames over one
//! long-lived socket, each a message that tells part of what the player is
//! doing. This library owns the life of that connection. It decides when an
//! attempt may begin, reads the frames, keeps the player state, notices a
//! peer that has gone quiet without closing, and decides whether to try
//! again. It does none of the waiting itself: every function here is a step
//! from a state and an occurrence to the next state, the notifications to
//! publish, and what to do next.
//!
//! - [`average`]: the bounded window of samples that the watchdog averages.
//! - [`liveness`]: points in time, and the watchdog over the peer's keepalives.
//! - [`state`]: the lifecycle and the player state that observers see.
//! - [`events`]: the notifications that a step asks its caller to publish.
//! - [`json`]: JSON values as plain data, parsed by `serde_json`.
//! - [`decode`]: the shapes of the feed's messages.
//! - [`dispatch`]: what each kind of message does to the player state.
//! - [`endpoint`]: the feed's address, parsed by `url`.
//! - [`text`]: the text operations that the diagnostics need.
//! - [`websocket`]: the steps of a connection and of its manager.
//! - [`laws`]: what holds of those steps whatever they are fed.

pub mod average;
pub mod decode;
pub mod dispatch;
pub mod endpoint;
pub mod events;
pub mod json;
pub mod laws;
pub mod liveness;
pub mod state;
pub mod text;
pub mod websocket;
