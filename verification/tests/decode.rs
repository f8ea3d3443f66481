use raflow::transcriber::decode::{decode, decode_config, Field, RawServerMessage, RawSessionConfig};
use raflow::transcriber::message::ServerMessage;

fn raw(tag: &str) -> RawServerMessage {
    RawServerMessage {
        message_type: Field::Present(tag.to_string()),
        session_id: Field::Absent,
        config: Field::Absent,
        text: Field::Absent,
        timestamp_ms: Field::Absent,
        error: Field::Absent,
        code: Field::Absent,
    }
}

fn raw_config() -> RawSessionConfig {
    RawSessionConfig {
        sample_rate: Field::Absent,
        audio_format: Field::Absent,
        language_code: Field::Absent,
        model_id: Field::Absent,
        vad_commit_strategy: Field::Absent,
        vad_silence_threshold_ms: Field::Absent,
        include_timestamps: Field::Absent,
    }
}

// {"message_type":"partial_transcript","text":"Hello"}
#[test]
fn partial_transcript_with_text() {
    let mut m = raw("partial_transcript");
    m.text = Field::Present("Hello".to_string());
    match decode(m) {
        Some(ServerMessage::PartialTranscript(t)) => assert_eq!(t.text, "Hello"),
        other => panic!("Wrong message type: {:?}", other),
    }
}

#[test]
fn committed_transcript_with_text() {
    let mut m = raw("committed_transcript");
    m.text = Field::Present("Hello world".to_string());
    match decode(m) {
        Some(ServerMessage::CommittedTranscript(t)) => assert_eq!(t.text, "Hello world"),
        other => panic!("Wrong message type: {:?}", other),
    }
}

#[test]
fn transcript_without_text_has_empty_text() {
    match decode(raw("partial_transcript")) {
        Some(ServerMessage::PartialTranscript(t)) => assert_eq!(t.text, ""),
        other => panic!("Wrong message type: {:?}", other),
    }
}

#[test]
fn transcript_with_null_or_mistyped_text_is_not_a_message() {
    let mut m = raw("partial_transcript");
    m.text = Field::Null;
    assert!(decode(m).is_none());
    let mut m = raw("committed_transcript");
    m.text = Field::Invalid;
    assert!(decode(m).is_none());
}

#[test]
fn unrecognized_tag_is_unknown_not_an_error() {
    let mut m = raw("something_new");
    m.text = Field::Invalid;
    m.session_id = Field::Null;
    assert!(matches!(decode(m), Some(ServerMessage::Unknown)));
    assert!(matches!(decode(raw("")), Some(ServerMessage::Unknown)));
    assert!(matches!(decode(raw("Partial_Transcript")), Some(ServerMessage::Unknown)));
}

#[test]
fn missing_tag_is_not_a_message() {
    let mut m = raw("x");
    m.message_type = Field::Absent;
    assert!(decode(m).is_none());
    let mut m = raw("x");
    m.message_type = Field::Null;
    assert!(decode(m).is_none());
    let mut m = raw("x");
    m.message_type = Field::Invalid;
    assert!(decode(m).is_none());
}

// {"message_type":"session_started","session_id":"test-123",
//  "config":{"sample_rate":16000,"language_code":null,"model_id":null}}
#[test]
fn session_started_with_null_language_code() {
    let mut config = raw_config();
    config.sample_rate = Field::Present(16000);
    config.language_code = Field::Null;
    config.model_id = Field::Null;
    let mut m = raw("session_started");
    m.session_id = Field::Present("test-123".to_string());
    m.config = Field::Present(config);
    match decode(m) {
        Some(ServerMessage::SessionStarted(s)) => {
            assert_eq!(s.session_id, "test-123");
            assert!(s.config.is_some());
            let config = s.config.unwrap();
            assert_eq!(config.language_code, "");
            assert_eq!(config.model_id, "");
            assert_eq!(config.audio_format, "");
            assert_eq!(config.sample_rate, 16000);
            assert!(!config.vad_commit_strategy);
            assert_eq!(config.vad_silence_threshold_ms, 0);
            assert!(!config.include_timestamps);
        }
        other => panic!("Wrong message type: {:?}", other),
    }
}

#[test]
fn session_started_without_config() {
    let mut m = raw("session_started");
    m.session_id = Field::Present("abc".to_string());
    match decode(m) {
        Some(ServerMessage::SessionStarted(s)) => {
            assert_eq!(s.session_id, "abc");
            assert!(s.config.is_none());
        }
        other => panic!("Wrong message type: {:?}", other),
    }
    let mut m = raw("session_started");
    m.session_id = Field::Present("abc".to_string());
    m.config = Field::Null;
    assert!(matches!(decode(m), Some(ServerMessage::SessionStarted(s)) if s.config.is_none()));
}

#[test]
fn session_started_needs_its_session_id() {
    assert!(decode(raw("session_started")).is_none());
    let mut m = raw("session_started");
    m.session_id = Field::Null;
    assert!(decode(m).is_none());
}

#[test]
fn session_started_with_an_unacceptable_config_is_not_a_message() {
    let mut config = raw_config();
    config.sample_rate = Field::Null;
    let mut m = raw("session_started");
    m.session_id = Field::Present("abc".to_string());
    m.config = Field::Present(config);
    assert!(decode(m).is_none());
    let mut m = raw("session_started");
    m.session_id = Field::Present("abc".to_string());
    m.config = Field::Invalid;
    assert!(decode(m).is_none());
}

#[test]
fn config_fields_and_what_stands_in_for_them() {
    let full = RawSessionConfig {
        sample_rate: Field::Present(8000),
        audio_format: Field::Present("pcm_16000".to_string()),
        language_code: Field::Present("zho".to_string()),
        model_id: Field::Present("scribe".to_string()),
        vad_commit_strategy: Field::Present(true),
        vad_silence_threshold_ms: Field::Present(800),
        include_timestamps: Field::Present(true),
    };
    let c = decode_config(full).unwrap();
    assert_eq!(c.sample_rate, 8000);
    assert_eq!(c.audio_format, "pcm_16000");
    assert_eq!(c.language_code, "zho");
    assert_eq!(c.model_id, "scribe");
    assert!(c.vad_commit_strategy);
    assert_eq!(c.vad_silence_threshold_ms, 800);
    assert!(c.include_timestamps);

    let c = decode_config(raw_config()).unwrap();
    assert_eq!(c.sample_rate, 0);
    assert_eq!(c.vad_silence_threshold_ms, 0);

    let mut bad = raw_config();
    bad.vad_commit_strategy = Field::Null;
    assert!(decode_config(bad).is_none());
    let mut bad = raw_config();
    bad.model_id = Field::Invalid;
    assert!(decode_config(bad).is_none());
    let mut bad = raw_config();
    bad.include_timestamps = Field::Invalid;
    assert!(decode_config(bad).is_none());
    let mut bad = raw_config();
    bad.vad_silence_threshold_ms = Field::Null;
    assert!(decode_config(bad).is_none());
}

#[test]
fn error_message_fields() {
    let mut m = raw("error");
    m.error = Field::Present("quota exceeded".to_string());
    m.code = Field::Present("429".to_string());
    match decode(m) {
        Some(ServerMessage::Error(e)) => {
            assert_eq!(e.error, "quota exceeded");
            assert_eq!(e.code.as_deref(), Some("429"));
        }
        other => panic!("Wrong message type: {:?}", other),
    }
    let mut m = raw("error");
    m.code = Field::Null;
    match decode(m) {
        Some(ServerMessage::Error(e)) => {
            assert_eq!(e.error, "");
            assert!(e.code.is_none());
        }
        other => panic!("Wrong message type: {:?}", other),
    }
    let mut m = raw("error");
    m.error = Field::Null;
    assert!(decode(m).is_none());
    let mut m = raw("error");
    m.code = Field::Invalid;
    assert!(decode(m).is_none());
}

#[test]
fn fields_of_other_messages_do_not_matter() {
    let mut m = raw("partial_transcript");
    m.text = Field::Present("Hi".to_string());
    m.session_id = Field::Invalid;
    m.config = Field::Invalid;
    m.error = Field::Null;
    assert!(matches!(decode(m), Some(ServerMessage::PartialTranscript(t)) if t.text == "Hi"));
}

#[test]
fn transcript_timestamps() {
    let mut m = raw("partial_transcript");
    m.text = Field::Present("Hi".to_string());
    m.timestamp_ms = Field::Present(1250);
    assert!(matches!(decode(m), Some(ServerMessage::PartialTranscript(t)) if t.timestamp_ms == Some(1250)));
    let mut m = raw("committed_transcript");
    m.timestamp_ms = Field::Null;
    assert!(matches!(decode(m), Some(ServerMessage::CommittedTranscript(t)) if t.timestamp_ms.is_none()));
    let mut m = raw("committed_transcript");
    m.text = Field::Present("Hi".to_string());
    m.timestamp_ms = Field::Invalid;
    assert!(decode(m).is_none());
}
