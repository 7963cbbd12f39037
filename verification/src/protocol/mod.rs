//! Messages exchanged with the Gradium API.
//!
//! Times that the server reports in seconds are carried as the IEEE-754 bit
//! patterns of the `f64` values (`f64::to_bits`), so that the library moves
//! them unchanged without computing on them.

pub mod tts;
pub mod stt;

use vstd::prelude::*;
use crate::text::owned;

verus! {

/// Audio format of the generated (TTS) or submitted (STT) audio.
#[derive(Debug, Clone)]
pub enum AudioFormat {
    /// Raw PCM audio data
    Pcm,
    /// WAV file format
    Wav,
    /// Opus compressed audio
    Opus,
    /// A format named by the server that the library does not know
    Other(String),
}

/// The abstract value of an [`AudioFormat`].
pub enum AudioFormatView {
    Pcm,
    Wav,
    Opus,
    Other(Seq<char>),
}

impl View for AudioFormat {
    type V = AudioFormatView;

    open spec fn view(&self) -> AudioFormatView {
        match self {
            AudioFormat::Pcm => AudioFormatView::Pcm,
            AudioFormat::Wav => AudioFormatView::Wav,
            AudioFormat::Opus => AudioFormatView::Opus,
            AudioFormat::Other(s) => AudioFormatView::Other(s@),
        }
    }
}

/// The name of a format on the wire.
pub open spec fn wire_name_of(f: AudioFormatView) -> Seq<char> {
    match f {
        AudioFormatView::Pcm => "pcm"@,
        AudioFormatView::Wav => "wav"@,
        AudioFormatView::Opus => "opus"@,
        AudioFormatView::Other(s) => s,
    }
}

/// The format that a wire name denotes.
pub open spec fn format_named(name: Seq<char>) -> AudioFormatView {
    if name == "pcm"@ {
        AudioFormatView::Pcm
    } else if name == "wav"@ {
        AudioFormatView::Wav
    } else if name == "opus"@ {
        AudioFormatView::Opus
    } else {
        AudioFormatView::Other(name)
    }
}

/// Whether a name is one of the names of the known formats.
pub open spec fn is_known_format_name(name: Seq<char>) -> bool {
    name == "pcm"@ || name == "wav"@ || name == "opus"@
}

impl AudioFormat {
    /// The name under which the format travels on the wire.
    pub fn wire_name(&self) -> (r: String)
        ensures
            r@ == wire_name_of(self@),
    {
        match self {
            AudioFormat::Pcm => owned("pcm"),
            AudioFormat::Wav => owned("wav"),
            AudioFormat::Opus => owned("opus"),
            AudioFormat::Other(s) => s.clone(),
        }
    }

    /// The format that a name read from the wire denotes.
    pub fn from_wire_name(name: &str) -> (r: AudioFormat)
        ensures
            r@ == format_named(name@),
    {
        let n = owned(name);
        if n == owned("pcm") {
            AudioFormat::Pcm
        } else if n == owned("wav") {
            AudioFormat::Wav
        } else if n == owned("opus") {
            AudioFormat::Opus
        } else {
            AudioFormat::Other(n)
        }
    }
}

/// Reading back the wire name of a format gives the format again, unless it is
/// an unknown format that carries the name of a known one.
pub proof fn law_format_name_round_trip(f: AudioFormatView)
    requires
        f is Other ==> !is_known_format_name(f->Other_0),
    ensures
        format_named(wire_name_of(f)) == f,
{
    reveal_strlit("pcm");
    reveal_strlit("wav");
    reveal_strlit("opus");
    assert("wav"@[0] != "pcm"@[0]);
    assert("opus"@[0] != "pcm"@[0]);
    assert("opus"@[0] != "wav"@[0]);
}

/// Every name read from the wire is written back unchanged.
pub proof fn law_name_format_round_trip(name: Seq<char>)
    ensures
        wire_name_of(format_named(name)) == name,
{
}

/// The known formats travel under the names `pcm`, `wav` and `opus`, each
/// read back as its own format, and an unknown format under its own name.
pub proof fn law_known_format_names(other: Seq<char>)
    ensures
        wire_name_of(AudioFormatView::Pcm) == "pcm"@,
        wire_name_of(AudioFormatView::Wav) == "wav"@,
        wire_name_of(AudioFormatView::Opus) == "opus"@,
        wire_name_of(AudioFormatView::Other(other)) == other,
        format_named("pcm"@) == AudioFormatView::Pcm,
        format_named("wav"@) == AudioFormatView::Wav,
        format_named("opus"@) == AudioFormatView::Opus,
        !is_known_format_name(other) ==> format_named(other) == AudioFormatView::Other(other),
{
    reveal_strlit("pcm");
    reveal_strlit("wav");
    reveal_strlit("opus");
    assert("wav"@[0] != "pcm"@[0]);
    assert("opus"@[0] != "pcm"@[0]);
    assert("opus"@[0] != "wav"@[0]);
}

/// The remaining credits of an API key.
#[derive(Debug, Clone)]
pub struct CreditsResponse {
    pub remaining_credits: i64,
}

} // verus!
