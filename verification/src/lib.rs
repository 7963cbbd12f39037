//! Client library for the Gradium voice API: text-to-speech and speech-to-text
//! sessions over a WebSocket, described here as verified data and decisions.
//!
//! The modules hold what the client computes: the endpoint URLs it connects to,
//! the protocol messages it sends, how it reads the server's replies, and how it
//! assembles the results of one-shot requests. Sockets, HTTP and JSON encoding
//! stand outside this crate.

pub mod text;
pub mod codec;
pub mod error;
pub mod client;
pub mod handshake;
pub mod frames;
pub mod protocol;
pub mod tts;
pub mod stt;

use vstd::prelude::*;

pub use client::Client;
pub use stt::SttResult;
pub use tts::TtsResult;

verus! {

/// A piece of text with the time span it covers.
///
/// The times are in seconds, carried as the bit patterns of `f64` values.
#[derive(Debug, Clone)]
pub struct TextWithTimestamps {
    /// The text content.
    pub text: String,
    /// Start time, as `f64` bits.
    pub start_s_bits: u64,
    /// Stop time, as `f64` bits.
    pub stop_s_bits: u64,
}

} // verus!
