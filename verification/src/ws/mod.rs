//! Websocket clients: the post-request client and the general manager.

pub mod post_ws_manager;
pub mod post_ws_manager2;
