use gradium::client::Client;
use gradium::error::GradiumError;
use gradium::frames::{on_frame, FrameAction, FrameKind};

#[test]
fn handshake_url_and_headers_in_order() {
    let c = Client::new("secret").with_additional_header("x-trace", "t1").with_additional_header("x-b", "2");
    let (url, headers) = c.handshake("speech/tts").unwrap();
    assert_eq!(url, "wss://eu.api.gradium.ai/api/speech/tts");
    let expected: Vec<(String, String)> = vec![
        ("x-api-key".to_string(), "secret".to_string()),
        ("x-api-source".to_string(), "rust-client".to_string()),
        ("x-trace".to_string(), "t1".to_string()),
        ("x-b".to_string(), "2".to_string()),
    ];
    assert_eq!(headers, expected);
}

#[test]
fn handshake_rejects_bad_header_name() {
    let c = Client::new("k").with_additional_header("bad name", "v");
    match c.handshake("speech/tts") {
        Err(GradiumError::InvalidHeaderName { name }) => assert_eq!(name, "bad name"),
        other => panic!("unexpected {:?}", other),
    }
}

#[test]
fn handshake_rejects_bad_header_value() {
    let c = Client::new("k\n");
    match c.handshake("speech/tts") {
        Err(GradiumError::InvalidHeaderValue { name }) => assert_eq!(name, "x-api-key"),
        other => panic!("unexpected {:?}", other),
    }
    let c = Client::new("k").with_additional_header("x-a", "ok").with_additional_header("x-b", "bad\r\nvalue");
    match c.handshake("e") {
        Err(GradiumError::InvalidHeaderValue { name }) => assert_eq!(name, "x-b"),
        other => panic!("unexpected {:?}", other),
    }
}

#[test]
fn handshake_rejects_url_without_host() {
    let c = Client::new("k").with_server_addr("");
    assert!(matches!(c.handshake("speech/tts"), Err(GradiumError::InvalidWebSocketUrl)));
}

#[test]
fn frame_actions() {
    assert_eq!(on_frame(FrameKind::Text, true), FrameAction::Deliver);
    assert_eq!(on_frame(FrameKind::Binary, true), FrameAction::FailBinary);
    assert_eq!(on_frame(FrameKind::Close, false), FrameAction::Closed);
    assert_eq!(on_frame(FrameKind::Ended, true), FrameAction::Closed);
    assert_eq!(on_frame(FrameKind::SocketError, false), FrameAction::FailSocket);
    assert_eq!(on_frame(FrameKind::Ping, true), FrameAction::ReplyPong);
    assert_eq!(on_frame(FrameKind::Ping, false), FrameAction::Skip);
    assert_eq!(on_frame(FrameKind::Pong, true), FrameAction::Skip);
    assert_eq!(on_frame(FrameKind::Frame, false), FrameAction::Skip);
}

#[test]
fn handshake_accepts_non_ascii_values_and_tabs() {
    let c = Client::new("clé\tx").with_additional_header("X-Upper_Case", "v");
    let (_, headers) = c.handshake("e").unwrap();
    assert_eq!(headers[0].1, "clé\tx");
    assert_eq!(headers[2].0, "X-Upper_Case");
}

#[test]
fn handshake_rejects_empty_header_name_and_delete_char() {
    let c = Client::new("k").with_additional_header("", "v");
    assert!(matches!(c.handshake("e"), Err(GradiumError::InvalidHeaderName { .. })));
    let c = Client::new("k\u{7f}");
    assert!(matches!(c.handshake("e"), Err(GradiumError::InvalidHeaderValue { .. })));
}
