//! The errors that the library reports.

use vstd::prelude::*;
use crate::protocol::{stt, tts};

verus! {

/// Why an operation of the library failed.
#[derive(Debug)]
pub enum GradiumError {
    /// No API key was given and none was found in the environment.
    MissingApiKey,
    /// The base URL could not be parsed.
    InvalidBaseUrl(url::ParseError),
    /// The WebSocket URL does not make a valid connection request.
    InvalidWebSocketUrl,
    /// A header name is not a valid HTTP header name.
    InvalidHeaderName { name: String },
    /// The value of the named header is not a valid HTTP header value.
    InvalidHeaderValue { name: String },
    /// The server closed the connection before the session was ready.
    ConnectionClosed,
    /// The TTS server reported an error.
    TtsServerError { code: Option<i64>, message: String },
    /// The STT server reported an error.
    SttServerError { code: i64, message: String },
    /// The first TTS message from the server was neither `Ready` nor `Error`.
    UnexpectedTtsMessage(tts::Response),
    /// The first STT message from the server was neither `Ready` nor `Error`.
    UnexpectedSttMessage(stt::Response),
    /// A multiplexed request has no client request ID.
    MissingClientReqId,
    /// A multiplexed request does not keep the connection open after EndOfStream.
    CloseWsOnEosNotFalse,
    /// Audio from the server is not valid base64.
    InvalidAudio(base64::DecodeError),
}

} // verus!
