use gradium::error::GradiumError;
use gradium::protocol::{stt as ps, tts as pt};
use gradium::stt::{SttOneShot, SttOneShotStep};
use gradium::tts::{TtsOneShot, TtsOneShotStep};

fn tts_ready() -> pt::Ready {
    pt::Ready {
        model_name: "default".to_string(),
        sample_rate: 48000,
        frame_size: 1920,
        audio_stream_names: vec![],
        text_stream_names: vec![],
        request_id: "r-1".to_string(),
        client_req_id: None,
    }
}

fn audio(b64: &str) -> pt::Response {
    pt::Response::Audio(pt::Audio {
        audio: b64.to_string(),
        start_s_bits: 0,
        stop_s_bits: 0,
        stream_id: 0,
        client_req_id: None,
    })
}

#[test]
fn tts_one_shot_full_course() {
    let (sm, first) = TtsOneShot::start("Hello, world!", pt::Setup::new("voice"));
    assert!(matches!(first, pt::Request::Setup(_)));
    assert!(!sm.is_done());
    let (sm, step) = sm.on_message(Some(pt::Response::Ready(tts_ready())));
    match step {
        TtsOneShotStep::Continue(reqs) => {
            assert_eq!(reqs.len(), 2);
            assert!(matches!(&reqs[0], pt::Request::Text(t) if t.text == "Hello, world!"));
            assert!(matches!(&reqs[1], pt::Request::EndOfStream { client_req_id: None }));
        }
        _ => panic!("expected to continue"),
    }
    let (sm, step) = sm.on_message(Some(audio("aGVs")));
    assert!(matches!(step, TtsOneShotStep::Continue(ref r) if r.is_empty()));
    let (sm, _) = sm.on_message(Some(audio("bG8=")));
    let (sm, step) = sm.on_message(Some(pt::Response::EndOfStream { client_req_id: None }));
    assert!(sm.is_done());
    match step {
        TtsOneShotStep::Finished(res) => {
            assert_eq!(res.raw_data(), b"hello");
            assert_eq!(res.request_id(), "r-1");
            assert_eq!(res.sample_rate(), 48000);
        }
        _ => panic!("expected to finish"),
    }
}

#[test]
fn tts_one_shot_connection_closed_finishes() {
    let (sm, _) = TtsOneShot::start("x", pt::Setup::default());
    let (sm, _) = sm.on_message(Some(pt::Response::Ready(tts_ready())));
    let (sm, _) = sm.on_message(Some(audio("AAE=")));
    let (sm, step) = sm.on_message(None);
    assert!(sm.is_done());
    assert!(matches!(step, TtsOneShotStep::Finished(ref r) if r.raw_data() == [0u8, 1u8]));
}

#[test]
fn tts_one_shot_failures() {
    let (sm, _) = TtsOneShot::start("x", pt::Setup::default());
    let (sm, step) = sm.on_message(None);
    assert!(sm.is_done());
    assert!(matches!(step, TtsOneShotStep::Failed(GradiumError::ConnectionClosed)));

    let (sm, _) = TtsOneShot::start("x", pt::Setup::default());
    let (sm, _) = sm.on_message(Some(pt::Response::Ready(tts_ready())));
    let e = pt::Response::Error { code: Some(3), message: "quota".to_string(), client_req_id: None };
    let (sm, step) = sm.on_message(Some(e));
    assert!(sm.is_done());
    assert!(matches!(step, TtsOneShotStep::Failed(GradiumError::TtsServerError { code: Some(3), .. })));

    let (sm, _) = TtsOneShot::start("x", pt::Setup::default());
    let (sm, _) = sm.on_message(Some(pt::Response::Ready(tts_ready())));
    let (_, step) = sm.on_message(Some(audio("%%%")));
    assert!(matches!(step, TtsOneShotStep::Failed(GradiumError::InvalidAudio(_))));
}

fn stt_ready() -> ps::Ready {
    ps::Ready {
        model_name: "default".to_string(),
        sample_rate: 24000,
        frame_size: 1920,
        delay_in_frames_bits: 0,
        text_stream_names: vec![],
        request_id: "s-1".to_string(),
    }
}

#[test]
fn stt_one_shot_full_course() {
    let audio_data = vec![0u8; 3000];
    let (sm, first) = SttOneShot::start(audio_data, ps::Setup::new());
    assert!(matches!(first, ps::Request::Setup(_)));
    let (sm, step) = sm.on_message(Some(ps::Response::Ready(stt_ready())));
    match step {
        SttOneShotStep::Continue(reqs) => {
            assert_eq!(reqs.len(), 3);
            match &reqs[0] {
                ps::Request::Audio(a) => assert_eq!(a.audio.len(), 2560),
                other => panic!("unexpected {:?}", other),
            }
            match &reqs[1] {
                ps::Request::Audio(a) => assert_eq!(a.audio.len(), 1440),
                other => panic!("unexpected {:?}", other),
            }
            assert!(matches!(reqs[2], ps::Request::EndOfStream));
        }
        _ => panic!("expected to continue"),
    }
    let text = ps::Response::Text(ps::Text { text: "hi".to_string(), start_s_bits: 1.5f64.to_bits(), stream_id: 0 });
    let (sm, _) = sm.on_message(Some(text));
    let end = ps::Response::EndText(ps::EndText { stop_s_bits: 2.0f64.to_bits(), stream_id: 0 });
    let (sm, _) = sm.on_message(Some(end));
    let (sm, step) = sm.on_message(Some(ps::Response::EndOfStream));
    assert!(sm.is_done());
    match step {
        SttOneShotStep::Finished(res) => {
            assert_eq!(res.request_id(), "s-1");
            let t = res.text_with_timestamps();
            assert_eq!(t.len(), 1);
            assert_eq!(t[0].text, "hi");
            assert_eq!(f64::from_bits(t[0].stop_s_bits), 2.0);
        }
        _ => panic!("expected to finish"),
    }
}

#[test]
fn stt_one_shot_empty_audio_sends_only_end_of_stream() {
    let (sm, _) = SttOneShot::start(Vec::new(), ps::Setup::new());
    let (_, step) = sm.on_message(Some(ps::Response::Ready(stt_ready())));
    match step {
        SttOneShotStep::Continue(reqs) => {
            assert_eq!(reqs.len(), 1);
            assert!(matches!(reqs[0], ps::Request::EndOfStream));
        }
        _ => panic!("expected to continue"),
    }
}

#[test]
fn stt_one_shot_failures() {
    let (sm, _) = SttOneShot::start(vec![1, 2, 3], ps::Setup::new());
    let (sm, step) = sm.on_message(Some(ps::Response::Vad(ps::Vad {
        step_idx: 0,
        step_duration_s_bits: 0,
        total_duration_s_bits: 0,
        vad: vec![],
    })));
    assert!(sm.is_done());
    assert!(matches!(step, SttOneShotStep::Failed(GradiumError::UnexpectedSttMessage(ps::Response::Vad(_)))));

    let (sm, _) = SttOneShot::start(vec![1, 2, 3], ps::Setup::new());
    let (sm, _) = sm.on_message(Some(ps::Response::Ready(stt_ready())));
    let (sm, step) = sm.on_message(Some(ps::Response::Error { code: 7, message: "bad audio".to_string() }));
    assert!(sm.is_done());
    assert!(matches!(step, SttOneShotStep::Failed(GradiumError::SttServerError { code: 7, .. })));
}
