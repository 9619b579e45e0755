//! Pieces shared by the WebSocket clients.

pub mod reconnect;
