use gradium::protocol::{stt, tts, AudioFormat, CreditsResponse};
use gradium::error::GradiumError;

fn name(f: &AudioFormat) -> String {
    f.wire_name()
}

#[test]
fn audio_format_wire_names() {
    assert_eq!(name(&AudioFormat::Pcm), "pcm");
    assert_eq!(name(&AudioFormat::Wav), "wav");
    assert_eq!(name(&AudioFormat::Opus), "opus");
    assert_eq!(name(&AudioFormat::Other("flac".to_string())), "flac");
    assert!(matches!(AudioFormat::from_wire_name("pcm"), AudioFormat::Pcm));
    assert!(matches!(AudioFormat::from_wire_name("wav"), AudioFormat::Wav));
    assert!(matches!(AudioFormat::from_wire_name("opus"), AudioFormat::Opus));
    match AudioFormat::from_wire_name("flac") {
        AudioFormat::Other(s) => assert_eq!(s, "flac"),
        other => panic!("unexpected {:?}", other),
    }
}

#[test]
fn audio_format_round_trips() {
    for n in ["pcm", "wav", "opus", "ulaw", ""] {
        assert_eq!(AudioFormat::from_wire_name(n).wire_name(), n);
    }
    // An unknown format carrying a known name reads back as the known format.
    assert!(matches!(AudioFormat::from_wire_name(&name(&AudioFormat::Other("wav".to_string()))), AudioFormat::Wav));
}

#[test]
fn tts_setup_defaults_and_builders() {
    let s = tts::Setup::new("m86j6D7UZpGzHsNu");
    assert_eq!(s.model_name, "default");
    assert_eq!(s.voice_id.as_deref(), Some("m86j6D7UZpGzHsNu"));
    assert!(s.voice.is_none());
    assert!(matches!(s.output_format, AudioFormat::Pcm));
    assert!(s.json_config.is_none() && s.client_req_id.is_none() && s.close_ws_on_eos.is_none());
    let s = s
        .with_model_name("m")
        .with_output_format(AudioFormat::Wav)
        .with_client_req_id("req-01")
        .with_close_ws_on_eos(false);
    assert_eq!(s.model_name, "m");
    assert!(matches!(s.output_format, AudioFormat::Wav));
    assert_eq!(s.client_req_id.as_deref(), Some("req-01"));
    assert_eq!(s.close_ws_on_eos, Some(false));
    assert_eq!(s.voice_id.as_deref(), Some("m86j6D7UZpGzHsNu"));
}

#[test]
fn setup_json_config_is_compact_json() {
    let v: serde_json::Value = serde_json::from_str("{ \"temp\" : 0.5 }").unwrap();
    let s = tts::Setup::default().with_json_config(&v);
    assert_eq!(s.json_config.as_deref(), Some("{\"temp\":0.5}"));
    let s = stt::Setup::new().with_json_config(&v);
    assert_eq!(s.json_config.as_deref(), Some("{\"temp\":0.5}"));
}

#[test]
fn stt_setup_defaults_and_builders() {
    let s = stt::Setup::new();
    assert_eq!(s.model_name, "default");
    assert!(matches!(s.input_format, AudioFormat::Pcm));
    assert!(s.json_config.is_none());
    let s = s.with_model_name("fast").with_input_format(AudioFormat::Opus);
    assert_eq!(s.model_name, "fast");
    assert!(matches!(s.input_format, AudioFormat::Opus));
}

fn tts_audio(b64: &str) -> tts::Audio {
    tts::Audio {
        audio: b64.to_string(),
        start_s_bits: 0.0f64.to_bits(),
        stop_s_bits: 0.5f64.to_bits(),
        stream_id: 0,
        client_req_id: None,
    }
}

#[test]
fn raw_audio_decodes_base64() {
    assert_eq!(tts_audio("aGVsbG8=").raw_audio().unwrap(), b"hello".to_vec());
    assert_eq!(tts_audio("").raw_audio().unwrap(), Vec::<u8>::new());
}

#[test]
fn raw_audio_rejects_invalid_base64() {
    assert!(matches!(tts_audio("!!!").raw_audio(), Err(GradiumError::InvalidAudio(_))));
}

#[test]
fn credits_response_holds_credits() {
    let c = CreditsResponse { remaining_credits: 42 };
    assert_eq!(c.clone().remaining_credits, 42);
}

#[test]
fn encoded_audio_decodes_back() {
    for bytes in [vec![], vec![1u8, 2], vec![0u8, 255, 7, 9], (0..=255u8).collect::<Vec<u8>>()] {
        let req = gradium::stt::audio_request(&bytes);
        let text = match req {
            stt::Request::Audio(a) => a.audio,
            other => panic!("unexpected {:?}", other),
        };
        let audio = tts::Audio { audio: text, start_s_bits: 0, stop_s_bits: 0, stream_id: 0, client_req_id: None };
        assert_eq!(audio.raw_audio().unwrap(), bytes);
    }
    assert_eq!(tts_audio("AQI=").raw_audio().unwrap(), vec![1u8, 2]);
}

#[test]
fn non_canonical_base64_is_rejected() {
    // "AQJ=" carries trailing bits; canonical text for [1, 2] is "AQI=".
    assert!(matches!(tts_audio("AQJ=").raw_audio(), Err(GradiumError::InvalidAudio(_))));
    assert!(matches!(tts_audio("AQI").raw_audio(), Err(GradiumError::InvalidAudio(_))));
}
