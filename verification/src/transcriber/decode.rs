//! From the fields of an inbound JSON object to a `ServerMessage`.
//!
//! The caller parses the text and reports, for every field that a message
//! can have, what it found there. Which message that is, which fields it
//! needs and what stands in for those that are left out is decided here.

use vstd::prelude::*;
use crate::text::{chars_of, spells};
use crate::transcriber::message::{
    ErrorMessage, ServerMessage, SessionConfig, SessionStartedMessage, TranscriptMessage,
};

verus! {

/// What was found under one key of a JSON object.
#[derive(Debug, Clone)]
pub enum Field<T> {
    /// The key is not there.
    Absent,
    /// The key is there with the value `null`.
    Null,
    /// The key is there with a value of another type than expected.
    Invalid,
    /// The key is there with this value.
    Present(T),
}

/// The fields of the `config` object of a `session_started` message.
#[derive(Debug, Clone)]
pub struct RawSessionConfig {
    pub sample_rate: Field<u32>,
    pub audio_format: Field<String>,
    pub language_code: Field<String>,
    pub model_id: Field<String>,
    pub vad_commit_strategy: Field<bool>,
    pub vad_silence_threshold_ms: Field<u32>,
    pub include_timestamps: Field<bool>,
}

/// The fields of an inbound message.
#[derive(Debug, Clone)]
pub struct RawServerMessage {
    pub message_type: Field<String>,
    pub session_id: Field<String>,
    pub config: Field<RawSessionConfig>,
    pub text: Field<String>,
    pub timestamp_ms: Field<u64>,
    pub error: Field<String>,
    pub code: Field<String>,
}

/// A text that may be left out or null: both stand for the empty text.
pub open spec fn spec_nullable_text(field: Field<String>) -> Option<Seq<char>> {
    match field {
        Field::Absent | Field::Null => Some(Seq::empty()),
        Field::Invalid => None,
        Field::Present(s) => Some(s@),
    }
}

/// A text that may be left out, which stands for the empty text, but not null.
pub open spec fn spec_defaulted_text(field: Field<String>) -> Option<Seq<char>> {
    match field {
        Field::Absent => Some(Seq::empty()),
        Field::Null | Field::Invalid => None,
        Field::Present(s) => Some(s@),
    }
}

/// A text that has to be there.
pub open spec fn spec_required_text(field: Field<String>) -> Option<Seq<char>> {
    match field {
        Field::Present(s) => Some(s@),
        _ => None,
    }
}

/// A text that may be left out or null: then there is none.
pub open spec fn spec_optional_text(field: Field<String>) -> Option<Option<Seq<char>>> {
    match field {
        Field::Absent | Field::Null => Some(None),
        Field::Invalid => None,
        Field::Present(s) => Some(Some(s@)),
    }
}

/// A time that may be left out or null: then there is none.
pub open spec fn spec_optional_time(field: Field<u64>) -> Option<Option<u64>> {
    match field {
        Field::Absent | Field::Null => Some(None),
        Field::Invalid => None,
        Field::Present(t) => Some(Some(t)),
    }
}

/// A number that may be left out, which stands for zero, but not null.
pub open spec fn spec_defaulted_number(field: Field<u32>) -> Option<u32> {
    match field {
        Field::Absent => Some(0u32),
        Field::Null | Field::Invalid => None,
        Field::Present(n) => Some(n),
    }
}

/// A flag that may be left out, which stands for `false`, but not null.
pub open spec fn spec_defaulted_flag(field: Field<bool>) -> Option<bool> {
    match field {
        Field::Absent => Some(false),
        Field::Null | Field::Invalid => None,
        Field::Present(b) => Some(b),
    }
}

fn nullable_text(field: Field<String>) -> (r: Option<String>)
    ensures
        match spec_nullable_text(field) {
            Some(text) => r matches Some(s) && s@ == text,
            None => r is None,
        },
{
    match field {
        Field::Absent | Field::Null => Some(String::new()),
        Field::Invalid => None,
        Field::Present(s) => Some(s),
    }
}

fn defaulted_text(field: Field<String>) -> (r: Option<String>)
    ensures
        match spec_defaulted_text(field) {
            Some(text) => r matches Some(s) && s@ == text,
            None => r is None,
        },
{
    match field {
        Field::Absent => Some(String::new()),
        Field::Null | Field::Invalid => None,
        Field::Present(s) => Some(s),
    }
}

fn required_text(field: Field<String>) -> (r: Option<String>)
    ensures
        match spec_required_text(field) {
            Some(text) => r matches Some(s) && s@ == text,
            None => r is None,
        },
{
    match field {
        Field::Present(s) => Some(s),
        _ => None,
    }
}

fn optional_text(field: Field<String>) -> (r: Option<Option<String>>)
    ensures
        match spec_optional_text(field) {
            Some(Some(text)) => r matches Some(Some(s)) && s@ == text,
            Some(None) => r == Some(None::<String>),
            None => r is None,
        },
{
    match field {
        Field::Absent | Field::Null => Some(None),
        Field::Invalid => None,
        Field::Present(s) => Some(Some(s)),
    }
}

fn optional_time(field: Field<u64>) -> (r: Option<Option<u64>>)
    ensures
        r == spec_optional_time(field),
{
    match field {
        Field::Absent | Field::Null => Some(None),
        Field::Invalid => None,
        Field::Present(t) => Some(Some(t)),
    }
}

fn defaulted_number(field: Field<u32>) -> (r: Option<u32>)
    ensures
        r == spec_defaulted_number(field),
{
    match field {
        Field::Absent => Some(0),
        Field::Null | Field::Invalid => None,
        Field::Present(n) => Some(n),
    }
}

fn defaulted_flag(field: Field<bool>) -> (r: Option<bool>)
    ensures
        r == spec_defaulted_flag(field),
{
    match field {
        Field::Absent => Some(false),
        Field::Null | Field::Invalid => None,
        Field::Present(b) => Some(b),
    }
}

/// The mathematical content of a `SessionConfig`.
pub struct SessionConfigView {
    pub sample_rate: u32,
    pub audio_format: Seq<char>,
    pub language_code: Seq<char>,
    pub model_id: Seq<char>,
    pub vad_commit_strategy: bool,
    pub vad_silence_threshold_ms: u32,
    pub include_timestamps: bool,
}

impl View for SessionConfig {
    type V = SessionConfigView;

    open spec fn view(&self) -> SessionConfigView {
        SessionConfigView {
            sample_rate: self.sample_rate,
            audio_format: self.audio_format@,
            language_code: self.language_code@,
            model_id: self.model_id@,
            vad_commit_strategy: self.vad_commit_strategy,
            vad_silence_threshold_ms: self.vad_silence_threshold_ms,
            include_timestamps: self.include_timestamps,
        }
    }
}

/// The mathematical content of a `ServerMessage`.
pub enum ServerMessageView {
    SessionStarted { session_id: Seq<char>, config: Option<SessionConfigView> },
    PartialTranscript { text: Seq<char>, timestamp_ms: Option<u64> },
    CommittedTranscript { text: Seq<char>, timestamp_ms: Option<u64> },
    Error { error: Seq<char>, code: Option<Seq<char>> },
    Unknown,
}

impl View for ServerMessage {
    type V = ServerMessageView;

    open spec fn view(&self) -> ServerMessageView {
        match self {
            ServerMessage::SessionStarted(m) => ServerMessageView::SessionStarted {
                session_id: m.session_id@,
                config: match m.config {
                    Some(c) => Some(c@),
                    None => None,
                },
            },
            ServerMessage::PartialTranscript(m) => ServerMessageView::PartialTranscript {
                text: m.text@,
                timestamp_ms: m.timestamp_ms,
            },
            ServerMessage::CommittedTranscript(m) => ServerMessageView::CommittedTranscript {
                text: m.text@,
                timestamp_ms: m.timestamp_ms,
            },
            ServerMessage::Error(m) => ServerMessageView::Error {
                error: m.error@,
                code: match m.code {
                    Some(c) => Some(c@),
                    None => None,
                },
            },
            ServerMessage::Unknown => ServerMessageView::Unknown,
        }
    }
}

/// The session parameters in `raw`, if every field is acceptable: texts
/// may be left out or null, numbers and flags may be left out.
pub open spec fn spec_decode_config(raw: RawSessionConfig) -> Option<SessionConfigView> {
    if spec_defaulted_number(raw.sample_rate) is Some && spec_nullable_text(raw.audio_format)
        is Some && spec_nullable_text(raw.language_code) is Some && spec_nullable_text(
        raw.model_id,
    ) is Some && spec_defaulted_flag(raw.vad_commit_strategy) is Some && spec_defaulted_number(
        raw.vad_silence_threshold_ms,
    ) is Some && spec_defaulted_flag(raw.include_timestamps) is Some {
        Some(
            SessionConfigView {
                sample_rate: spec_defaulted_number(raw.sample_rate)->0,
                audio_format: spec_nullable_text(raw.audio_format)->0,
                language_code: spec_nullable_text(raw.language_code)->0,
                model_id: spec_nullable_text(raw.model_id)->0,
                vad_commit_strategy: spec_defaulted_flag(raw.vad_commit_strategy)->0,
                vad_silence_threshold_ms: spec_defaulted_number(raw.vad_silence_threshold_ms)->0,
                include_timestamps: spec_defaulted_flag(raw.include_timestamps)->0,
            },
        )
    } else {
        None
    }
}

/// The `config` of a `session_started` message: none if left out or null,
/// and the whole message is unacceptable if the object is.
pub open spec fn spec_decode_optional_config(field: Field<RawSessionConfig>) -> Option<
    Option<SessionConfigView>,
> {
    match field {
        Field::Absent | Field::Null => Some(None),
        Field::Invalid => None,
        Field::Present(raw) => match spec_decode_config(raw) {
            Some(config) => Some(Some(config)),
            None => None,
        },
    }
}

/// The message that `raw` is, by its tag; `None` where the tag is missing
/// or a field that the message needs is unacceptable. A tag that is not
/// known gives `Unknown`, whatever the other fields hold.
pub open spec fn spec_decode(raw: RawServerMessage) -> Option<ServerMessageView> {
    match raw.message_type {
        Field::Present(tag) => if tag@ == "session_started"@ {
            match (spec_required_text(raw.session_id), spec_decode_optional_config(raw.config)) {
                (Some(session_id), Some(config)) => Some(
                    ServerMessageView::SessionStarted { session_id, config },
                ),
                _ => None,
            }
        } else if tag@ == "partial_transcript"@ {
            match (spec_defaulted_text(raw.text), spec_optional_time(raw.timestamp_ms)) {
                (Some(text), Some(timestamp_ms)) => Some(
                    ServerMessageView::PartialTranscript { text, timestamp_ms },
                ),
                _ => None,
            }
        } else if tag@ == "committed_transcript"@ {
            match (spec_defaulted_text(raw.text), spec_optional_time(raw.timestamp_ms)) {
                (Some(text), Some(timestamp_ms)) => Some(
                    ServerMessageView::CommittedTranscript { text, timestamp_ms },
                ),
                _ => None,
            }
        } else if tag@ == "error"@ {
            match (spec_defaulted_text(raw.error), spec_optional_text(raw.code)) {
                (Some(error), Some(code)) => Some(ServerMessageView::Error { error, code }),
                _ => None,
            }
        } else {
            Some(ServerMessageView::Unknown)
        },
        _ => None,
    }
}

/// Decodes the session parameters that the service reports back.
pub fn decode_config(raw: RawSessionConfig) -> (r: Option<SessionConfig>)
    ensures
        match spec_decode_config(raw) {
            Some(config) => r matches Some(c) && c@ == config,
            None => r is None,
        },
{
    let sample_rate = defaulted_number(raw.sample_rate);
    let audio_format = nullable_text(raw.audio_format);
    let language_code = nullable_text(raw.language_code);
    let model_id = nullable_text(raw.model_id);
    let vad_commit_strategy = defaulted_flag(raw.vad_commit_strategy);
    let vad_silence_threshold_ms = defaulted_number(raw.vad_silence_threshold_ms);
    let include_timestamps = defaulted_flag(raw.include_timestamps);
    match (
        sample_rate,
        audio_format,
        language_code,
        model_id,
        vad_commit_strategy,
        vad_silence_threshold_ms,
        include_timestamps,
    ) {
        (
            Some(sample_rate),
            Some(audio_format),
            Some(language_code),
            Some(model_id),
            Some(vad_commit_strategy),
            Some(vad_silence_threshold_ms),
            Some(include_timestamps),
        ) => Some(
            SessionConfig {
                sample_rate,
                audio_format,
                language_code,
                model_id,
                vad_commit_strategy,
                vad_silence_threshold_ms,
                include_timestamps,
            },
        ),
        _ => None,
    }
}

fn decode_optional_config(field: Field<RawSessionConfig>) -> (r: Option<Option<SessionConfig>>)
    ensures
        match spec_decode_optional_config(field) {
            Some(Some(config)) => r matches Some(Some(c)) && c@ == config,
            Some(None) => r == Some(None::<SessionConfig>),
            None => r is None,
        },
{
    match field {
        Field::Absent | Field::Null => Some(None),
        Field::Invalid => None,
        Field::Present(raw) => match decode_config(raw) {
            Some(config) => Some(Some(config)),
            None => None,
        },
    }
}

/// Decodes an inbound message from its fields.
///
/// The tag decides what the message is. A message with an unknown tag is
/// `Unknown`, not a failure. There is no message where the tag is missing
/// or where a field that the message needs is unacceptable.
pub fn decode(raw: RawServerMessage) -> (r: Option<ServerMessage>)
    ensures
        match spec_decode(raw) {
            Some(message) => r matches Some(m) && m@ == message,
            None => r is None,
        },
{
    let tag = match raw.message_type {
        Field::Present(tag) => tag,
        _ => {
            return None;
        },
    };
    let tag_chars = chars_of(tag.as_str());
    if spells(&tag_chars, "session_started") {
        let session_id = required_text(raw.session_id);
        let config = decode_optional_config(raw.config);
        match (session_id, config) {
            (Some(session_id), Some(config)) => Some(
                ServerMessage::SessionStarted(SessionStartedMessage { session_id, config }),
            ),
            _ => None,
        }
    } else if spells(&tag_chars, "partial_transcript") {
        match (defaulted_text(raw.text), optional_time(raw.timestamp_ms)) {
            (Some(text), Some(timestamp_ms)) => Some(
                ServerMessage::PartialTranscript(TranscriptMessage { text, timestamp_ms }),
            ),
            _ => None,
        }
    } else if spells(&tag_chars, "committed_transcript") {
        match (defaulted_text(raw.text), optional_time(raw.timestamp_ms)) {
            (Some(text), Some(timestamp_ms)) => Some(
                ServerMessage::CommittedTranscript(TranscriptMessage { text, timestamp_ms }),
            ),
            _ => None,
        }
    } else if spells(&tag_chars, "error") {
        let error = defaulted_text(raw.error);
        let code = optional_text(raw.code);
        match (error, code) {
            (Some(error), Some(code)) => Some(ServerMessage::Error(ErrorMessage { error, code })),
            _ => None,
        }
    } else {
        Some(ServerMessage::Unknown)
    }
}

} // verus!
