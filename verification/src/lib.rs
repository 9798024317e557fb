//! Verified core of a websocket client for an exchange API: the connection
//! state machine of the websocket manager, the framing of outgoing post
//! requests, the routing of incoming frames, and the wire form of order ids.

pub mod error;
pub mod text;
pub mod helpers;
pub mod exchange;
pub mod ws;
