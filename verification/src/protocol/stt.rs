//! Speech-to-text messages.

use vstd::prelude::*;
use super::{AudioFormat, AudioFormatView};
use super::tts::{json_text, json_value_text};
use crate::text::owned;

verus! {

/// Configuration for an STT session.
#[derive(Debug, Clone)]
pub struct Setup {
    /// The name of the STT model to use (e.g., "default")
    pub model_name: String,
    /// The format of the audio the client will send
    pub input_format: AudioFormat,
    /// Custom config for the STT model in JSON format
    pub json_config: Option<String>,
}

impl Default for Setup {
    fn default() -> (s: Setup)
        ensures
            s.model_name@ == "default"@,
            s.input_format@ == AudioFormatView::Pcm,
            s.json_config is None,
    {
        Setup { model_name: owned("default"), input_format: AudioFormat::Pcm, json_config: None }
    }
}

impl Setup {
    /// The default configuration.
    pub fn new() -> (s: Setup)
        ensures
            s.model_name@ == "default"@,
            s.input_format@ == AudioFormatView::Pcm,
            s.json_config is None,
    {
        Self::default()
    }

    pub fn with_model_name(self, model_name: &str) -> (s: Setup)
        ensures
            s.model_name@ == model_name@,
            s == (Setup { model_name: s.model_name, ..self }),
    {
        let mut s = self;
        s.model_name = owned(model_name);
        s
    }

    pub fn with_input_format(self, input_format: AudioFormat) -> (s: Setup)
        ensures
            s == (Setup { input_format: input_format, ..self }),
    {
        let mut s = self;
        s.input_format = input_format;
        s
    }

    pub fn with_json_config(self, json_config: &serde_json::Value) -> (s: Setup)
        ensures
            s.json_config matches Some(t) && t@ == json_value_text(*json_config),
            s == (Setup { json_config: s.json_config, ..self }),
    {
        let mut s = self;
        s.json_config = Some(json_text(json_config));
        s
    }
}

/// The server is ready for audio.
#[derive(Debug, Clone)]
pub struct Ready {
    pub model_name: String,
    /// Expected input sample rate in Hz
    pub sample_rate: u32,
    /// Recommended chunk size in samples
    pub frame_size: u32,
    /// Delay in frames before transcription begins, as `f64` bits
    pub delay_in_frames_bits: u64,
    pub text_stream_names: Vec<String>,
    pub request_id: String,
}

/// Audio sent for transcription.
#[derive(Debug, Clone)]
pub struct Audio {
    /// Raw audio bytes, base64 encoded
    pub audio: String,
}

/// Client-to-server messages.
#[derive(Debug, Clone)]
pub enum Request {
    Setup(Setup),
    Audio(Audio),
    EndOfStream,
}

/// One prediction of voice inactivity.
#[derive(Debug, Clone)]
pub struct VadPrediction {
    /// Horizon in seconds, as `f64` bits
    pub horizon_s_bits: u64,
    /// Probability of inactivity, as `f64` bits
    pub inactivity_prob_bits: u64,
}

/// Voice activity detection update.
#[derive(Debug, Clone)]
pub struct Vad {
    pub step_idx: u64,
    /// Duration of this step in seconds, as `f64` bits
    pub step_duration_s_bits: u64,
    /// Total duration processed in seconds, as `f64` bits
    pub total_duration_s_bits: u64,
    pub vad: Vec<VadPrediction>,
}

/// Transcribed text.
#[derive(Debug, Clone)]
pub struct Text {
    pub text: String,
    /// Start time in seconds, as `f64` bits
    pub start_s_bits: u64,
    pub stream_id: u32,
}

/// End of a text segment.
#[derive(Debug, Clone)]
pub struct EndText {
    /// End time in seconds, as `f64` bits
    pub stop_s_bits: u64,
    pub stream_id: u32,
}

/// Server-to-client messages.
#[derive(Debug, Clone)]
pub enum Response {
    Ready(Ready),
    Vad(Vad),
    Text(Text),
    EndText(EndText),
    Error { code: i64, message: String },
    EndOfStream,
}

} // verus!
