//! The parameters of a transcription session: where to connect, how much
//! audio goes into one chunk, and how long each step of a shutdown waits.

use vstd::prelude::*;
use vstd::string::StringExecFns;
use crate::text::{decimal_digits, decimal_string, digit_char, digit_str};

verus! {

/// Endpoint of the real-time recognition service.
pub const API_BASE_URL: &'static str = "wss://api.elevenlabs.io/v1/speech-to-text/realtime";

/// Duration of audio sent in one chunk, in milliseconds.
pub const AUDIO_CHUNK_MS: u32 = 250;

/// Samples in one chunk at the protocol's sample rate.
pub const SAMPLES_PER_CHUNK: usize = 4000;

/// Number of samples in `chunk_ms` milliseconds of audio at `sample_rate`.
pub open spec fn spec_samples_in(sample_rate: u32, chunk_ms: u32) -> nat {
    (sample_rate * chunk_ms / 1000) as nat
}

/// Number of samples in `chunk_ms` milliseconds of audio at `sample_rate`.
pub fn samples_in(sample_rate: u32, chunk_ms: u32) -> (n: u64)
    ensures
        n == spec_samples_in(sample_rate, chunk_ms),
{
    assert(sample_rate * chunk_ms <= 0xFFFF_FFFF * 0xFFFF_FFFF) by (nonlinear_arith)
        requires
            0 <= sample_rate <= 0xFFFF_FFFF,
            0 <= chunk_ms <= 0xFFFF_FFFF,
    ;
    sample_rate as u64 * chunk_ms as u64 / 1000
}

/// A chunk holds the samples of `AUDIO_CHUNK_MS` at the protocol's rate.
pub proof fn lemma_samples_per_chunk()
    ensures
        SAMPLES_PER_CHUNK == spec_samples_in(
            crate::transcriber::message::PROTOCOL_SAMPLE_RATE,
            AUDIO_CHUNK_MS,
        ),
{
}

/// How long the writer waits for audio before it looks at the stop flag again.
pub const POLL_INTERVAL_MS: u64 = 50;

/// Pause after the final chunk, so that the service can process the commit.
pub const COMMIT_SETTLE_MS: u64 = 100;

/// How long to wait for final transcripts after stopping, in milliseconds.
pub const DRAIN_TIMEOUT_MS: u64 = 500;

/// Pause after a committed transcript was seen while draining.
pub const DRAIN_GRACE_MS: u64 = 50;

/// Longest silence threshold that is asked of the service, in milliseconds.
pub const MAX_VAD_SILENCE_MS: u32 = 800;

/// A transcript update for the consumers of a session.
#[derive(Debug, Clone)]
pub enum TranscriptEvent {
    Partial(String),
    Committed(String),
}

// ============ Connection parameters ============

/// A duration of `ms` milliseconds written in seconds: the whole part, then
/// up to three decimals with trailing zeros left off.
pub open spec fn seconds_text(ms: nat) -> Seq<char> {
    let whole = decimal_digits(ms / 1000);
    let frac = ms % 1000;
    if frac == 0 {
        whole
    } else if frac % 100 == 0 {
        whole + seq!['.', digit_char(frac / 100)]
    } else if frac % 10 == 0 {
        whole + seq!['.', digit_char(frac / 100), digit_char(frac / 10 % 10)]
    } else {
        whole + seq!['.', digit_char(frac / 100), digit_char(frac / 10 % 10), digit_char(frac % 10)]
    }
}

/// Writes a duration of `ms` milliseconds in seconds.
pub fn format_seconds(ms: u32) -> (s: String)
    ensures
        s@ == seconds_text(ms as nat),
{
    let mut s = decimal_string((ms / 1000) as u64);
    let frac = ms % 1000;
    if frac != 0 {
        proof {
            reveal_strlit(".");
        }
        s.append(".");
        s.append(digit_str((frac / 100) as u8));
        if frac % 100 != 0 {
            s.append(digit_str((frac / 10 % 10) as u8));
            if frac % 10 != 0 {
                s.append(digit_str((frac % 10) as u8));
            }
        }
    }
    s
}

/// The silence threshold that is sent: the configured one, capped.
pub open spec fn capped_vad_silence_ms(vad_threshold_ms: u32) -> u32 {
    if vad_threshold_ms <= MAX_VAD_SILENCE_MS {
        vad_threshold_ms
    } else {
        MAX_VAD_SILENCE_MS
    }
}

/// The address of a session: endpoint, model, sample rate, language, and
/// voice-activity commit with the capped silence threshold in seconds.
pub open spec fn session_url(language_code: Seq<char>, vad_threshold_ms: u32) -> Seq<char> {
    API_BASE_URL@ + "?model_id=scribe_v2_realtime&sample_rate=16000&language_code="@
        + language_code + "&vad_commit_strategy=true"@ + "&vad_silence_threshold_secs="@
        + seconds_text(capped_vad_silence_ms(vad_threshold_ms) as nat)
}

/// Host of the recognition service, as the connection request names it.
pub const API_HOST: &'static str = "api.elevenlabs.io";

/// The headers of the connection request, in order: the API credential,
/// then what asks the host to upgrade the connection to a socket, with the
/// socket key of this connection last.
pub open spec fn request_headers_of(api_key: Seq<char>, socket_key: Seq<char>) -> Seq<
    (Seq<char>, Seq<char>),
> {
    seq![
        ("xi-api-key"@, api_key),
        ("Host"@, API_HOST@),
        ("Connection"@, "Upgrade"@),
        ("Upgrade"@, "websocket"@),
        ("Sec-WebSocket-Version"@, "13"@),
        ("Sec-WebSocket-Key"@, socket_key),
    ]
}

/// Connection parameters of one transcription session.
pub struct TranscriberClient {
    api_key: String,
    language_code: String,
    vad_enabled: bool,
    vad_threshold_ms: u32,
}

impl TranscriberClient {
    pub closed spec fn spec_api_key(&self) -> Seq<char> {
        self.api_key@
    }

    pub closed spec fn spec_language_code(&self) -> Seq<char> {
        self.language_code@
    }

    pub closed spec fn spec_vad_enabled(&self) -> bool {
        self.vad_enabled
    }

    pub closed spec fn spec_vad_threshold_ms(&self) -> u32 {
        self.vad_threshold_ms
    }

    pub fn new(api_key: String, language_code: String, vad_enabled: bool, vad_threshold_ms: u32) -> (c:
        Self)
        ensures
            c.spec_api_key() == api_key@,
            c.spec_language_code() == language_code@,
            c.spec_vad_enabled() == vad_enabled,
            c.spec_vad_threshold_ms() == vad_threshold_ms,
    {
        TranscriberClient { api_key, language_code, vad_enabled, vad_threshold_ms }
    }

    /// The credential that is attached to the connection request.
    pub fn api_key(&self) -> (k: &str)
        ensures
            k@ == self.spec_api_key(),
    {
        self.api_key.as_str()
    }

    pub fn language_code(&self) -> (l: &str)
        ensures
            l@ == self.spec_language_code(),
    {
        self.language_code.as_str()
    }

    pub fn vad_enabled(&self) -> (b: bool)
        ensures
            b == self.spec_vad_enabled(),
    {
        self.vad_enabled
    }

    pub fn vad_threshold_ms(&self) -> (ms: u32)
        ensures
            ms == self.spec_vad_threshold_ms(),
    {
        self.vad_threshold_ms
    }

    /// The headers to attach to the connection request. `socket_key` is the
    /// key that the caller drew for this connection.
    pub fn request_headers(&self, socket_key: String) -> (headers: Vec<(&'static str, String)>)
        ensures
            headers@.len() == request_headers_of(self.spec_api_key(), socket_key@).len(),
            forall|i: int|
                0 <= i < headers@.len() ==> ((#[trigger] headers@[i]).0@, headers@[i].1@)
                    == request_headers_of(self.spec_api_key(), socket_key@)[i],
    {
        let mut headers: Vec<(&'static str, String)> = Vec::new();
        headers.push(("xi-api-key", self.api_key.clone()));
        headers.push(("Host", String::from_str(API_HOST)));
        headers.push(("Connection", String::from_str("Upgrade")));
        headers.push(("Upgrade", String::from_str("websocket")));
        headers.push(("Sec-WebSocket-Version", String::from_str("13")));
        headers.push(("Sec-WebSocket-Key", socket_key));
        headers
    }

    /// The address to connect to. Voice-activity commit is always asked for.
    pub fn build_url(&self) -> (url: String)
        ensures
            url@ == session_url(self.spec_language_code(), self.spec_vad_threshold_ms()),
    {
        let capped = if self.vad_threshold_ms <= MAX_VAD_SILENCE_MS {
            self.vad_threshold_ms
        } else {
            MAX_VAD_SILENCE_MS
        };
        let mut url = String::from_str(API_BASE_URL);
        url.append("?model_id=scribe_v2_realtime&sample_rate=16000&language_code=");
        url.append(self.language_code.as_str());
        url.append("&vad_commit_strategy=true");
        url.append("&vad_silence_threshold_secs=");
        let secs = format_seconds(capped);
        url.append(secs.as_str());
        url
    }
}

} // verus!
