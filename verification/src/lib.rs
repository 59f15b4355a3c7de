//! The WebRTC sink of a camera server: it is linked into a pipeline, negotiates
//! a session with one peer and ends it.

pub mod channel;
pub mod elements;
pub mod error;
pub mod link;
pub mod offer;
pub mod outbox;
pub mod protocol;
pub mod proxy;
pub mod sdp;
pub mod signal;
pub mod sink;
pub mod states;
