//! The voice agent: session settings, server events, and the agent WebSocket protocol.

pub mod types;
pub mod websocket;
