//! Messages exchanged with the recognition service.
//!
//! Durations are held in whole milliseconds; the wire format carries seconds.

use vstd::prelude::*;

verus! {

/// The sample rate that every audio chunk is tagged with.
pub const PROTOCOL_SAMPLE_RATE: u32 = 16000;

/// Number of characters of the padded base64 text of `n` bytes.
pub open spec fn base64_len(n: nat) -> nat {
    4 * ((n + 2) / 3)
}

/// The text comes in groups of four characters, and only the text of no
/// bytes at all is empty.
pub proof fn lemma_base64_len(n: nat)
    ensures
        base64_len(n) % 4 == 0,
        base64_len(n) == 0 <==> n == 0,
        n <= base64_len(n),
{
}

/// The padded base64 text of `data` in the standard alphabet.
pub uninterp spec fn base64_standard(data: Seq<u8>) -> Seq<char>;

/// Calls `base64::Engine::encode` on the `STANDARD` engine (standard
/// alphabet, with padding). Trusted: the result is the function's value on
/// these bytes, and it has four characters for every started group of three
/// bytes. The call panics when that length does not fit in `usize`, which
/// the precondition rules out.
#[verifier::external_body]
fn encode_base64(data: &[u8]) -> (text: String)
    requires
        base64_len(data@.len()) <= usize::MAX,
    ensures
        text@ == base64_standard(data@),
        text@.len() == base64_len(data@.len()),
{
    base64::Engine::encode(&base64::engine::general_purpose::STANDARD, data)
}

// ============ Outgoing messages ============

/// Session parameters, as a message of their own.
#[derive(Debug)]
pub struct SessionConfigMessage {
    pub message_type: &'static str,
    pub sample_rate: u32,
    pub language_code: String,
    pub vad_commit_strategy: bool,
    /// Present only when voice-activity detection is enabled.
    pub vad_silence_threshold_ms: Option<u32>,
    pub include_timestamps: Option<bool>,
}

impl SessionConfigMessage {
    pub fn new(language_code: String, vad_enabled: bool, vad_threshold_ms: u32) -> (m: Self)
        ensures
            m.message_type@ == "session_config"@,
            m.sample_rate == PROTOCOL_SAMPLE_RATE,
            m.language_code == language_code,
            m.vad_commit_strategy == vad_enabled,
            m.vad_silence_threshold_ms == (if vad_enabled {
                Some(vad_threshold_ms)
            } else {
                None
            }),
            m.include_timestamps == Some(true),
    {
        SessionConfigMessage {
            message_type: "session_config",
            sample_rate: PROTOCOL_SAMPLE_RATE,
            language_code,
            vad_commit_strategy: vad_enabled,
            vad_silence_threshold_ms: if vad_enabled {
                Some(vad_threshold_ms)
            } else {
                None
            },
            include_timestamps: Some(true),
        }
    }
}

/// One slice of audio on its way to the service.
#[derive(Debug)]
pub struct AudioChunkMessage {
    pub message_type: &'static str,
    pub audio_base_64: String,
    pub commit: bool,
    pub sample_rate: u32,
}

/// The mathematical content of an `AudioChunkMessage`.
pub struct AudioChunkMessageView {
    pub message_type: Seq<char>,
    pub audio_base_64: Seq<char>,
    pub commit: bool,
    pub sample_rate: u32,
}

impl View for AudioChunkMessage {
    type V = AudioChunkMessageView;

    open spec fn view(&self) -> AudioChunkMessageView {
        AudioChunkMessageView {
            message_type: self.message_type@,
            audio_base_64: self.audio_base_64@,
            commit: self.commit,
            sample_rate: self.sample_rate,
        }
    }
}

impl AudioChunkMessageView {
    /// The chunk message that carries `audio_data`.
    pub open spec fn carrying(audio_data: Seq<u8>, commit: bool) -> AudioChunkMessageView {
        AudioChunkMessageView {
            message_type: "input_audio_chunk"@,
            audio_base_64: base64_standard(audio_data),
            commit,
            sample_rate: PROTOCOL_SAMPLE_RATE,
        }
    }
}

impl AudioChunkMessage {
    /// Wraps raw audio bytes for sending; `commit` asks the service to
    /// finalize the current speech segment after this chunk.
    pub fn new(audio_data: &[u8], commit: bool) -> (m: Self)
        requires
            base64_len(audio_data@.len()) <= usize::MAX,
        ensures
            m@ == AudioChunkMessageView::carrying(audio_data@, commit),
            m.audio_base_64@.len() == base64_len(audio_data@.len()),
    {
        AudioChunkMessage {
            message_type: "input_audio_chunk",
            audio_base_64: encode_base64(audio_data),
            commit,
            sample_rate: PROTOCOL_SAMPLE_RATE,
        }
    }
}

/// An explicit request to finalize the current speech segment.
#[derive(Debug)]
pub struct CommitMessage {
    pub message_type: &'static str,
}

impl CommitMessage {
    pub fn new() -> (m: Self)
        ensures
            m.message_type@ == "commit"@,
    {
        CommitMessage { message_type: "commit" }
    }
}

impl Default for CommitMessage {
    fn default() -> (m: Self)
        ensures
            m.message_type@ == "commit"@,
    {
        CommitMessage::new()
    }
}

// ============ Incoming messages ============

/// A decoded message from the service. Anything with an unrecognized tag is
/// `Unknown`.
#[derive(Debug)]
pub enum ServerMessage {
    SessionStarted(SessionStartedMessage),
    PartialTranscript(TranscriptMessage),
    CommittedTranscript(TranscriptMessage),
    Error(ErrorMessage),
    Unknown,
}

#[derive(Debug)]
pub struct SessionStartedMessage {
    pub session_id: String,
    pub config: Option<SessionConfig>,
}

/// The session parameters that the service reports back. Absent or null
/// text fields are empty strings.
#[derive(Debug)]
pub struct SessionConfig {
    pub sample_rate: u32,
    pub audio_format: String,
    pub language_code: String,
    pub model_id: String,
    pub vad_commit_strategy: bool,
    pub vad_silence_threshold_ms: u32,
    pub include_timestamps: bool,
}

impl Default for SessionConfig {
    fn default() -> (c: Self)
        ensures
            c.sample_rate == PROTOCOL_SAMPLE_RATE,
            c.audio_format@.len() == 0,
            c.language_code@.len() == 0,
            c.model_id@.len() == 0,
            !c.vad_commit_strategy,
            c.vad_silence_threshold_ms == 1500,
            !c.include_timestamps,
    {
        SessionConfig {
            sample_rate: PROTOCOL_SAMPLE_RATE,
            audio_format: String::new(),
            language_code: String::new(),
            model_id: String::new(),
            vad_commit_strategy: false,
            vad_silence_threshold_ms: 1500,
            include_timestamps: false,
        }
    }
}

#[derive(Debug, Clone)]
pub struct TranscriptMessage {
    pub text: String,
    /// When the text was spoken, in milliseconds, where the service says so.
    pub timestamp_ms: Option<u64>,
}

#[derive(Debug)]
pub struct ErrorMessage {
    pub error: String,
    pub code: Option<String>,
}

} // verus!
