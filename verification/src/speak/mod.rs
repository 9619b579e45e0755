//! Text-to-speech: request options and the live WebSocket protocol.

pub mod options;
pub mod websocket;
