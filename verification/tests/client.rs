use raflow::transcriber::client::{
    format_seconds, samples_in, TranscriberClient, API_BASE_URL, AUDIO_CHUNK_MS, MAX_VAD_SILENCE_MS,
    SAMPLES_PER_CHUNK,
};

#[test]
fn url_of_a_session() {
    let c = TranscriberClient::new("key".to_string(), "zho".to_string(), true, 500);
    assert_eq!(
        c.build_url(),
        "wss://api.elevenlabs.io/v1/speech-to-text/realtime?model_id=scribe_v2_realtime&sample_rate=16000&language_code=zho&vad_commit_strategy=true&vad_silence_threshold_secs=0.5"
    );
}

#[test]
fn url_caps_the_silence_threshold() {
    assert_eq!(MAX_VAD_SILENCE_MS, 800);
    let c = TranscriberClient::new("key".to_string(), "en".to_string(), false, 1500);
    let url = c.build_url();
    assert!(url.starts_with(API_BASE_URL));
    assert!(url.ends_with("&language_code=en&vad_commit_strategy=true&vad_silence_threshold_secs=0.8"));
    let c = TranscriberClient::new("key".to_string(), "en".to_string(), true, 800);
    assert!(c.build_url().ends_with("=0.8"));
    let c = TranscriberClient::new("key".to_string(), "en".to_string(), true, 799);
    assert!(c.build_url().ends_with("=0.799"));
    let c = TranscriberClient::new("key".to_string(), "en".to_string(), true, 0);
    assert!(c.build_url().ends_with("_secs=0"));
}

#[test]
fn client_keeps_what_it_was_given() {
    let c = TranscriberClient::new("secret".to_string(), "deu".to_string(), true, 300);
    assert_eq!(c.api_key(), "secret");
    assert_eq!(c.language_code(), "deu");
    assert!(c.vad_enabled());
    assert_eq!(c.vad_threshold_ms(), 300);
}

#[test]
fn seconds_are_written_without_trailing_zeros() {
    assert_eq!(format_seconds(0), "0");
    assert_eq!(format_seconds(500), "0.5");
    assert_eq!(format_seconds(800), "0.8");
    assert_eq!(format_seconds(250), "0.25");
    assert_eq!(format_seconds(125), "0.125");
    assert_eq!(format_seconds(10), "0.01");
    assert_eq!(format_seconds(1), "0.001");
    assert_eq!(format_seconds(1000), "1");
    assert_eq!(format_seconds(1500), "1.5");
    assert_eq!(format_seconds(1050), "1.05");
    assert_eq!(format_seconds(1005), "1.005");
    assert_eq!(format_seconds(12340), "12.34");
    assert_eq!(format_seconds(u32::MAX), "4294967.295");
}

#[test]
fn seconds_agree_with_the_float_form_for_common_thresholds() {
    for ms in [0u32, 100, 200, 250, 300, 400, 500, 600, 700, 750, 800] {
        let secs = ms as f32 / 1000.0;
        assert_eq!(format_seconds(ms), format!("{}", secs));
    }
}

#[test]
fn chunk_size_is_duration_times_rate() {
    assert_eq!(AUDIO_CHUNK_MS, 250);
    assert_eq!(SAMPLES_PER_CHUNK, (16000 * AUDIO_CHUNK_MS / 1000) as usize);
    assert_eq!(samples_in(16000, 250), 4000);
    assert_eq!(samples_in(48000, 10), 480);
    assert_eq!(samples_in(44100, 250), 11025);
    assert_eq!(samples_in(16000, 1), 16);
    assert_eq!(samples_in(999, 1), 0);
    assert_eq!(samples_in(u32::MAX, u32::MAX), 18446744065119617);
}

#[test]
fn headers_of_the_connection_request() {
    let c = TranscriberClient::new("secret".to_string(), "zho".to_string(), true, 500);
    let headers = c.request_headers("a2V5".to_string());
    let expected = vec![
        ("xi-api-key", "secret".to_string()),
        ("Host", "api.elevenlabs.io".to_string()),
        ("Connection", "Upgrade".to_string()),
        ("Upgrade", "websocket".to_string()),
        ("Sec-WebSocket-Version", "13".to_string()),
        ("Sec-WebSocket-Key", "a2V5".to_string()),
    ];
    assert_eq!(headers, expected);
}
