//! Verified core of a client for the Deepgram text-to-speech and voice-agent APIs.

pub mod agent;
pub mod client;
pub mod common;
pub mod handshake;
pub mod outside;
pub mod speak;
pub mod text;
pub mod websocket_url;

pub use client::{AuthMethod, Deepgram, DeepgramError, Result};
