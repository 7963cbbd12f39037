use gradium::client::{Client, Location, UrlParts};
use gradium::error::GradiumError;

#[test]
fn location_names() {
    assert_eq!(Location::EU.as_str(), "eu");
    assert_eq!(Location::US.as_str(), "us");
    assert_eq!(Location::EU.server_addr(), "eu.api.gradium.ai");
    assert_eq!(Location::US.server_addr(), "us.api.gradium.ai");
}

#[test]
fn new_client_urls() {
    let c = Client::new("key");
    assert_eq!(c.ws_url("speech/tts"), "wss://eu.api.gradium.ai/api/speech/tts");
    assert_eq!(c.http_url("usages/credits"), "https://eu.api.gradium.ai/api/usages/credits");
    assert_eq!(c.api_key(), "key");
    assert!(c.additional_headers().is_empty());
}

#[test]
fn constructors_agree_on_locations() {
    let a = Client::new("k").ws_url("x");
    let b = Client::eu_prod("k").ws_url("x");
    let c = Client::from_location("k", Location::EU).ws_url("x");
    assert_eq!(a, b);
    assert_eq!(a, c);
    let us = Client::us_prod("k");
    assert_eq!(us.ws_url("x"), Client::from_location("k", Location::US).ws_url("x"));
    assert_eq!(us.ws_url("speech/asr"), "wss://us.api.gradium.ai/api/speech/asr");
}

#[test]
fn insecure_and_empty_path() {
    let c = Client::new("k").with_https(false).with_path("");
    assert_eq!(c.ws_url("speech/tts"), "ws://eu.api.gradium.ai/speech/tts");
    assert_eq!(c.http_url("usages/summary"), "http://eu.api.gradium.ai/usages/summary");
}

#[test]
fn builders_set_fields() {
    let c = Client::new("old-key")
        .with_api_key("new-key")
        .with_server_addr("localhost:8080")
        .with_path("v2")
        .with_additional_header("x-a", "1")
        .with_additional_header("x-b", "2");
    assert_eq!(c.api_key(), "new-key");
    assert_eq!(c.ws_url("e"), "wss://localhost:8080/v2/e");
    let h = c.additional_headers();
    assert_eq!(h.len(), 2);
    assert_eq!(h[0], ("x-a".to_string(), "1".to_string()));
    assert_eq!(h[1], ("x-b".to_string(), "2".to_string()));
}

#[test]
fn base_url_with_port_and_path() {
    let c = Client::new("k").with_base_url("https://custom.gradium.ai:8443/v2").unwrap();
    assert_eq!(c.ws_url("speech/tts"), "wss://custom.gradium.ai:8443/v2/speech/tts");
    assert_eq!(c.api_key(), "k");
}

#[test]
fn base_url_default_port_is_dropped() {
    let c = Client::new("k").with_base_url("https://example.com:443/api").unwrap();
    assert_eq!(c.ws_url("speech/tts"), "wss://example.com/api/speech/tts");
}

#[test]
fn base_url_plain_http_root() {
    let c = Client::new("k").with_base_url("http://localhost:8000/").unwrap();
    assert_eq!(c.ws_url("speech/tts"), "ws://localhost:8000/speech/tts");
    assert_eq!(c.http_url("a"), "http://localhost:8000/a");
}

#[test]
fn base_url_invalid() {
    let r = Client::new("k").with_base_url("not a url");
    assert!(matches!(r, Err(GradiumError::InvalidBaseUrl(_))));
}

#[test]
fn apply_parts_defaults_and_trims() {
    let parts = UrlParts { host: None, port: Some(0), scheme: "ftp".to_string(), path: "///a/b".to_string() };
    let c = Client::new("k").apply_base_url(parts);
    assert_eq!(c.ws_url("e"), "ws://eu.api.gradium.ai:0/a/b/e");
    let parts = UrlParts {
        host: Some("h".to_string()),
        port: Some(65535),
        scheme: "https".to_string(),
        path: "p".to_string(),
    };
    let c = Client::new("k").apply_base_url(parts);
    assert_eq!(c.http_url("e"), "https://h:65535/p/e");
}

#[test]
fn from_env_needs_a_key() {
    let r = Client::from_env(None, None, None, None);
    assert!(matches!(r, Err(GradiumError::MissingApiKey)));
}

#[test]
fn from_env_explicit_values_win() {
    let c = Client::from_env(
        Some("http://explicit:1/x".to_string()),
        Some("explicit-key".to_string()),
        Some("https://env/y".to_string()),
        Some("env-key".to_string()),
    )
    .unwrap();
    assert_eq!(c.api_key(), "explicit-key");
    assert_eq!(c.ws_url("e"), "ws://explicit:1/x/e");
}

#[test]
fn from_env_falls_back_on_environment() {
    let c = Client::from_env(None, None, Some("https://env/y".to_string()), Some("env-key".to_string())).unwrap();
    assert_eq!(c.api_key(), "env-key");
    assert_eq!(c.ws_url("e"), "wss://env/y/e");
    let c = Client::from_env(None, Some("k".to_string()), None, None).unwrap();
    assert_eq!(c.ws_url("e"), "wss://eu.api.gradium.ai/api/e");
}

#[test]
fn from_env_bad_url() {
    let r = Client::from_env(Some("::".to_string()), Some("k".to_string()), None, None);
    assert!(matches!(r, Err(GradiumError::InvalidBaseUrl(_))));
}
