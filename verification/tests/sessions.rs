use gradium::error::GradiumError;
use gradium::protocol::{stt as ps, tts as pt, AudioFormat};
use gradium::stt::{self, SttCollector, AUDIO_CHUNK_BYTES};
use gradium::tts::{self, TtsCollector};

fn tts_ready() -> pt::Ready {
    pt::Ready {
        model_name: "default".to_string(),
        sample_rate: 48000,
        frame_size: 1920,
        audio_stream_names: vec!["audio".to_string()],
        text_stream_names: vec!["text".to_string()],
        request_id: "req-xyz".to_string(),
        client_req_id: None,
    }
}

fn tts_audio(b64: &str) -> pt::Response {
    pt::Response::Audio(pt::Audio {
        audio: b64.to_string(),
        start_s_bits: 0.0f64.to_bits(),
        stop_s_bits: 0.1f64.to_bits(),
        stream_id: 0,
        client_req_id: None,
    })
}

fn tts_text(t: &str, start: f64, stop: f64) -> pt::Response {
    pt::Response::Text(pt::TextResponse {
        text: t.to_string(),
        start_s_bits: start.to_bits(),
        stop_s_bits: stop.to_bits(),
        stream_id: 0,
        client_req_id: None,
    })
}

#[test]
fn tts_first_message_ready() {
    let r = tts::ready_from_first_message(Some(pt::Response::Ready(tts_ready()))).unwrap();
    assert_eq!(r.request_id, "req-xyz");
    assert_eq!(r.sample_rate, 48000);
}

#[test]
fn tts_first_message_failures() {
    assert!(matches!(tts::ready_from_first_message(None), Err(GradiumError::ConnectionClosed)));
    let e = pt::Response::Error { code: Some(401), message: "bad key".to_string(), client_req_id: None };
    match tts::ready_from_first_message(Some(e)) {
        Err(GradiumError::TtsServerError { code, message }) => {
            assert_eq!(code, Some(401));
            assert_eq!(message, "bad key");
        }
        other => panic!("unexpected {:?}", other),
    }
    let m = tts::ready_from_first_message(Some(tts_audio("aGVsbG8=")));
    assert!(matches!(m, Err(GradiumError::UnexpectedTtsMessage(pt::Response::Audio(_)))));
}

#[test]
fn tts_stream_message_filter() {
    assert!(matches!(tts::stream_message(pt::Response::EndOfStream { client_req_id: None }), Ok(None)));
    let e = pt::Response::Error { code: None, message: "boom".to_string(), client_req_id: None };
    assert!(matches!(tts::stream_message(e), Err(GradiumError::TtsServerError { code: None, .. })));
    assert!(matches!(tts::stream_message(tts_audio("")), Ok(Some(pt::Response::Audio(_)))));
}

#[test]
fn tts_requests() {
    match tts::text_request("Hello", None) {
        pt::Request::Text(t) => {
            assert_eq!(t.text, "Hello");
            assert!(t.client_req_id.is_none());
        }
        other => panic!("unexpected {:?}", other),
    }
    match tts::text_request("Hi", Some("req-02")) {
        pt::Request::Text(t) => assert_eq!(t.client_req_id.as_deref(), Some("req-02")),
        other => panic!("unexpected {:?}", other),
    }
    match tts::end_of_stream_request(Some("req-01")) {
        pt::Request::EndOfStream { client_req_id } => assert_eq!(client_req_id.as_deref(), Some("req-01")),
        other => panic!("unexpected {:?}", other),
    }
    assert!(matches!(tts::end_of_stream_request(None), pt::Request::EndOfStream { client_req_id: None }));
}

#[test]
fn multiplex_setup_validation() {
    let base = pt::Setup::new("v").with_output_format(AudioFormat::Wav);
    assert!(matches!(
        tts::multiplex_setup_request(base.clone()),
        Err(GradiumError::MissingClientReqId)
    ));
    assert!(matches!(
        tts::multiplex_setup_request(base.clone().with_client_req_id("r")),
        Err(GradiumError::CloseWsOnEosNotFalse)
    ));
    assert!(matches!(
        tts::multiplex_setup_request(base.clone().with_client_req_id("r").with_close_ws_on_eos(true)),
        Err(GradiumError::CloseWsOnEosNotFalse)
    ));
    assert!(matches!(
        tts::multiplex_setup_request(base.clone().with_close_ws_on_eos(false)),
        Err(GradiumError::MissingClientReqId)
    ));
    match tts::multiplex_setup_request(base.with_client_req_id("r").with_close_ws_on_eos(false)) {
        Ok(pt::Request::Setup(s)) => assert_eq!(s.client_req_id.as_deref(), Some("r")),
        other => panic!("unexpected {:?}", other),
    }
}

#[test]
fn tts_collects_audio_and_text_in_order() {
    let mut c = TtsCollector::new();
    c.absorb(pt::Response::Ready(tts_ready())).unwrap();
    c.absorb(tts_audio("aGVs")).unwrap();
    c.absorb(tts_text("Hello", 0.0, 0.4)).unwrap();
    c.absorb(tts_audio("bG8=")).unwrap();
    c.absorb(tts_text("world", 0.5, 0.9)).unwrap();
    let r = c.finish(&tts_ready());
    assert_eq!(r.raw_data(), b"hello");
    assert_eq!(r.request_id(), "req-xyz");
    assert_eq!(r.sample_rate(), 48000);
    let t = r.text_with_timestamps();
    assert_eq!(t.len(), 2);
    assert_eq!(t[0].text, "Hello");
    assert_eq!(f64::from_bits(t[0].start_s_bits), 0.0);
    assert_eq!(f64::from_bits(t[0].stop_s_bits), 0.4);
    assert_eq!(t[1].text, "world");
    assert_eq!(f64::from_bits(t[1].stop_s_bits), 0.9);
}

#[test]
fn tts_collect_fails_on_bad_audio() {
    let mut c = TtsCollector::new();
    c.absorb(tts_audio("aGVs")).unwrap();
    assert!(matches!(c.absorb(tts_audio("***")), Err(GradiumError::InvalidAudio(_))));
    let r = c.finish(&tts_ready());
    assert_eq!(r.raw_data(), b"hel");
}

#[test]
fn tts_empty_result() {
    let r = TtsCollector::new().finish(&tts_ready());
    assert!(r.raw_data().is_empty());
    assert!(r.text_with_timestamps().is_empty());
}

fn stt_ready() -> ps::Ready {
    ps::Ready {
        model_name: "default".to_string(),
        sample_rate: 24000,
        frame_size: 1920,
        delay_in_frames_bits: 2.5f64.to_bits(),
        text_stream_names: vec![],
        request_id: "stt-1".to_string(),
    }
}

fn stt_text(t: &str, start: f64) -> ps::Response {
    ps::Response::Text(ps::Text { text: t.to_string(), start_s_bits: start.to_bits(), stream_id: 0 })
}

fn end_text(stop: f64) -> ps::Response {
    ps::Response::EndText(ps::EndText { stop_s_bits: stop.to_bits(), stream_id: 0 })
}

#[test]
fn stt_first_message() {
    assert_eq!(stt::ready_from_first_message(Some(ps::Response::Ready(stt_ready()))).unwrap().request_id, "stt-1");
    assert!(matches!(stt::ready_from_first_message(None), Err(GradiumError::ConnectionClosed)));
    let e = ps::Response::Error { code: 500, message: "oops".to_string() };
    assert!(matches!(stt::ready_from_first_message(Some(e)), Err(GradiumError::SttServerError { code: 500, .. })));
    assert!(matches!(
        stt::ready_from_first_message(Some(ps::Response::EndOfStream)),
        Err(GradiumError::UnexpectedSttMessage(ps::Response::EndOfStream))
    ));
}

#[test]
fn stt_stream_message_filter() {
    assert!(matches!(stt::stream_message(ps::Response::EndOfStream), Ok(None)));
    let e = ps::Response::Error { code: 1, message: "m".to_string() };
    assert!(matches!(stt::stream_message(e), Err(GradiumError::SttServerError { code: 1, .. })));
    assert!(matches!(stt::stream_message(end_text(1.0)), Ok(Some(ps::Response::EndText(_)))));
}

#[test]
fn audio_chunk_sizes() {
    assert!(stt::audio_chunks(&[]).is_empty());
    let one = vec![7u8; AUDIO_CHUNK_BYTES];
    assert_eq!(stt::audio_chunks(&one).len(), 1);
    let data: Vec<u8> = (0..4000u32).map(|i| (i % 251) as u8).collect();
    let chunks = stt::audio_chunks(&data);
    let lens: Vec<usize> = chunks.iter().map(|c| c.len()).collect();
    assert_eq!(lens, vec![1920, 1920, 160]);
    assert_eq!(chunks.concat(), data);
    let c = stt::audio_chunks(&vec![1u8; 1921]);
    assert_eq!(c.iter().map(|c| c.len()).collect::<Vec<_>>(), vec![1920, 1]);
}

#[test]
fn audio_requests_are_base64() {
    match stt::audio_request(b"hello") {
        ps::Request::Audio(a) => assert_eq!(a.audio, "aGVsbG8="),
        other => panic!("unexpected {:?}", other),
    }
    match stt::audio_request(&[]) {
        ps::Request::Audio(a) => assert_eq!(a.audio, ""),
        other => panic!("unexpected {:?}", other),
    }
    match stt::audio_base64_request("AAAA".to_string()) {
        ps::Request::Audio(a) => assert_eq!(a.audio, "AAAA"),
        other => panic!("unexpected {:?}", other),
    }
}

#[test]
fn stt_end_text_sets_stop_of_latest_segment() {
    let mut c = SttCollector::new();
    c.absorb(end_text(9.0));
    c.absorb(ps::Response::Ready(stt_ready()));
    c.absorb(stt_text("hello", 0.5));
    c.absorb(stt_text("world", 1.0));
    c.absorb(end_text(1.7));
    c.absorb(ps::Response::EndOfStream);
    let r = c.finish(&stt_ready());
    assert_eq!(r.request_id(), "stt-1");
    assert_eq!(r.sample_rate(), 24000);
    let t = r.text_with_timestamps();
    assert_eq!(t.len(), 2);
    assert_eq!(t[0].text, "hello");
    assert_eq!(f64::from_bits(t[0].start_s_bits), 0.5);
    assert_eq!(f64::from_bits(t[0].stop_s_bits), 0.5);
    assert_eq!(t[1].text, "world");
    assert_eq!(f64::from_bits(t[1].start_s_bits), 1.0);
    assert_eq!(f64::from_bits(t[1].stop_s_bits), 1.7);
}

#[test]
fn stt_end_text_without_segments_is_ignored() {
    let mut c = SttCollector::new();
    c.absorb(end_text(3.0));
    assert!(c.finish(&stt_ready()).text_with_timestamps().is_empty());
}

#[test]
fn tts_push_audio_appends_decoded_bytes() {
    let mut c = TtsCollector::new();
    c.push_audio(vec![1, 2]);
    c.push_audio(vec![]);
    c.push_audio(vec![3]);
    assert_eq!(c.finish(&tts_ready()).raw_data(), &[1u8, 2, 3][..]);
}

#[test]
fn concat_chunks_in_order() {
    let chunks = vec![vec![1u8], vec![], vec![2u8, 3u8]];
    assert_eq!(tts::concat_chunks(&chunks), vec![1u8, 2, 3]);
    assert!(tts::concat_chunks(&Vec::new()).is_empty());
}
