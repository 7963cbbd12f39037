//! Text-to-speech messages.

use vstd::prelude::*;
use super::{AudioFormat, AudioFormatView};
use crate::text::{opt_view, owned};
use crate::codec::{base64_decoded, base64_encoded, base64_len_fits, decode_base64};
use crate::error::GradiumError;

verus! {

/// `serde_json::Value`, the type of a custom model configuration.
#[verifier::external_type_specification]
#[verifier::external_body]
pub struct ExJsonValue(serde_json::Value);

/// The compact JSON text that `serde_json::Value`'s `Display` writes for a value.
pub uninterp spec fn json_value_text(value: serde_json::Value) -> Seq<char>;

/// The compact JSON text of a value (`serde_json::Value`'s `Display`, through
/// `to_string`). The contract claims that the text is fixed by the value (the
/// name [`json_value_text`]); what serde_json writes is not stated.
#[verifier::external_body]
pub(crate) fn json_text(value: &serde_json::Value) -> (r: String)
    ensures
        r@ == json_value_text(*value),
{
    value.to_string()
}

/// Configuration for a TTS session.
#[derive(Debug, Clone)]
pub struct Setup {
    /// The name of the TTS model to use (e.g., "default")
    pub model_name: String,
    /// Optional voice name to use
    pub voice: Option<String>,
    /// Optional voice ID for custom voices
    pub voice_id: Option<String>,
    /// The desired audio output format
    pub output_format: AudioFormat,
    /// Custom config for the TTS model in JSON format
    pub json_config: Option<String>,
    /// Optional client request ID for multiplexing several requests over one WebSocket
    pub client_req_id: Option<String>,
    /// When `Some(false)`, the server keeps the WebSocket open after EndOfStream
    pub close_ws_on_eos: Option<bool>,
}

impl Default for Setup {
    fn default() -> (s: Setup)
        ensures
            s.model_name@ == "default"@,
            s.voice is None,
            s.voice_id is None,
            s.output_format@ == AudioFormatView::Pcm,
            s.json_config is None,
            s.client_req_id is None,
            s.close_ws_on_eos is None,
    {
        Setup {
            model_name: owned("default"),
            voice: None,
            voice_id: None,
            output_format: AudioFormat::Pcm,
            json_config: None,
            client_req_id: None,
            close_ws_on_eos: None,
        }
    }
}

impl Setup {
    /// The default configuration with the given voice.
    pub fn new(voice_id: &str) -> (s: Setup)
        ensures
            s.model_name@ == "default"@,
            s.voice is None,
            opt_view(s.voice_id) == Some(voice_id@),
            s.output_format@ == AudioFormatView::Pcm,
            s.json_config is None,
            s.client_req_id is None,
            s.close_ws_on_eos is None,
    {
        Self::default().with_voice_id(voice_id)
    }

    pub fn with_model_name(self, model_name: &str) -> (s: Setup)
        ensures
            s.model_name@ == model_name@,
            s == (Setup { model_name: s.model_name, ..self }),
    {
        let mut s = self;
        s.model_name = owned(model_name);
        s
    }

    pub fn with_voice_id(self, voice_id: &str) -> (s: Setup)
        ensures
            opt_view(s.voice_id) == Some(voice_id@),
            s == (Setup { voice_id: s.voice_id, ..self }),
    {
        let mut s = self;
        s.voice_id = Some(owned(voice_id));
        s
    }

    pub fn with_output_format(self, output_format: AudioFormat) -> (s: Setup)
        ensures
            s == (Setup { output_format: output_format, ..self }),
    {
        let mut s = self;
        s.output_format = output_format;
        s
    }

    pub fn with_json_config(self, json_config: &serde_json::Value) -> (s: Setup)
        ensures
            s.json_config matches Some(t) && t@ == json_value_text(*json_config),
            s == (Setup { json_config: s.json_config, ..self }),
    {
        let mut s = self;
        s.json_config = Some(json_text(json_config));
        s
    }

    /// Sets the client request ID used to route multiplexed responses.
    pub fn with_client_req_id(self, client_req_id: &str) -> (s: Setup)
        ensures
            opt_view(s.client_req_id) == Some(client_req_id@),
            s == (Setup { client_req_id: s.client_req_id, ..self }),
    {
        let mut s = self;
        s.client_req_id = Some(owned(client_req_id));
        s
    }

    /// Sets whether the server closes the WebSocket after EndOfStream.
    pub fn with_close_ws_on_eos(self, close: bool) -> (s: Setup)
        ensures
            s == (Setup { close_ws_on_eos: Some(close), ..self }),
    {
        let mut s = self;
        s.close_ws_on_eos = Some(close);
        s
    }
}

/// Text to be synthesized into speech.
#[derive(Debug, Clone)]
pub struct Text {
    pub text: String,
    pub client_req_id: Option<String>,
}

/// Client-to-server messages.
#[derive(Debug, Clone)]
pub enum Request {
    /// Initialize the session with a configuration
    Setup(Setup),
    /// Text to be synthesized
    Text(Text),
    /// End of the input stream
    EndOfStream { client_req_id: Option<String> },
}

/// The server is ready for text.
#[derive(Debug, Clone)]
pub struct Ready {
    pub model_name: String,
    /// Audio sample rate in Hz
    pub sample_rate: u32,
    /// Audio frame size in samples
    pub frame_size: u32,
    pub audio_stream_names: Vec<String>,
    pub text_stream_names: Vec<String>,
    pub request_id: String,
    pub client_req_id: Option<String>,
}

/// A chunk of generated audio.
#[derive(Debug, Clone)]
pub struct Audio {
    /// Base64-encoded audio data
    pub audio: String,
    /// Start time of the segment in seconds, as `f64` bits
    pub start_s_bits: u64,
    /// End time of the segment in seconds, as `f64` bits
    pub stop_s_bits: u64,
    pub stream_id: u32,
    pub client_req_id: Option<String>,
}

impl Audio {
    /// Decodes the base64-encoded audio data into raw bytes. It gives bytes
    /// exactly where the text is their canonical padded encoding.
    pub fn raw_audio(&self) -> (r: Result<Vec<u8>, GradiumError>)
        ensures
            r is Ok <==> base64_decoded(self.audio@) is Some,
            r matches Ok(v) ==> base64_decoded(self.audio@) == Some(v@),
            r matches Ok(v) ==> base64_encoded(v@) == self.audio@,
            forall|b: Seq<u8>|
                base64_len_fits(b.len()) ==> ((r matches Ok(v) && v@ == b) <==> #[trigger] base64_encoded(b)
                    == self.audio@),
            r matches Err(e) ==> e is InvalidAudio,
    {
        match decode_base64(self.audio.as_str()) {
            Ok(v) => Ok(v),
            Err(e) => Err(GradiumError::InvalidAudio(e)),
        }
    }
}

/// Text with timing information.
#[derive(Debug, Clone)]
pub struct TextResponse {
    pub text: String,
    /// Start time in seconds, as `f64` bits
    pub start_s_bits: u64,
    /// End time in seconds, as `f64` bits
    pub stop_s_bits: u64,
    pub stream_id: u32,
    pub client_req_id: Option<String>,
}

/// Server-to-client messages.
#[derive(Debug, Clone)]
pub enum Response {
    Ready(Ready),
    Audio(Audio),
    Text(TextResponse),
    Error { code: Option<i64>, message: String, client_req_id: Option<String> },
    EndOfStream { client_req_id: Option<String> },
}

} // verus!
