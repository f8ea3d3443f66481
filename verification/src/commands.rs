//! The decisions behind the application's commands: starting and stopping
//! a recording, reporting status, and turning transcript events into
//! updates of the text that was typed.

use vstd::prelude::*;
use vstd::string::{StrSliceExecFns, StringExecFns};
use crate::error::AppError;
use crate::hotkey::{parse_hotkey, spec_parse, Hotkey};
use crate::state::{AppSettings, AppState, ConnectionStatus, RecordingState};
use crate::transcriber::client::TranscriptEvent;

verus! {

/// Capacity of the queue of captured frames.
pub const AUDIO_QUEUE_CAPACITY: usize = 500;

/// Capacity of the queue of transcript events.
pub const TRANSCRIPT_QUEUE_CAPACITY: usize = 100;

/// Capacity of the shutdown signal's queue.
pub const SHUTDOWN_QUEUE_CAPACITY: usize = 1;

/// How long stopping waits for the transcription client to finish.
pub const STOP_TIMEOUT_MS: u64 = 3000;

/// Name of the event that carries a partial transcript.
pub const EVENT_PARTIAL_TRANSCRIPT: &'static str = "partial-transcript";

/// Name of the event that carries a committed transcript.
pub const EVENT_TRANSCRIPT_UPDATE: &'static str = "transcript-update";

/// Name of the event that announces the start of a recording.
pub const EVENT_RECORDING_STARTED: &'static str = "recording-started";

/// Name of the event that announces the end of a recording.
pub const EVENT_RECORDING_STOPPED: &'static str = "recording-stopped";

/// The place of the one recording session that can be live at a time.
pub struct SessionSlot<S> {
    current: Option<S>,
}

impl<S> SessionSlot<S> {
    /// The live session, if there is one.
    pub closed spec fn live(&self) -> Option<S> {
        self.current
    }

    /// A slot without a session.
    pub fn new() -> (slot: Self)
        ensures
            slot.live() is None,
    {
        SessionSlot { current: None }
    }

    /// Whether a session is live.
    pub fn is_active(&self) -> (b: bool)
        ensures
            b == (self.live() is Some),
    {
        self.current.is_some()
    }

    /// Makes `session` the live session. A session that was live until now
    /// is handed back, so that it can be shut down.
    pub fn start(&mut self, session: S) -> (replaced: Option<S>)
        ensures
            final(self).live() == Some(session),
            replaced == old(self).live(),
    {
        let mut replaced = Some(session);
        core::mem::swap(&mut replaced, &mut self.current);
        replaced
    }

    /// Takes the live session out of the slot. Stopping an empty slot gives
    /// nothing and changes nothing.
    pub fn stop(&mut self) -> (stopped: Option<S>)
        ensures
            final(self).live() is None,
            stopped == old(self).live(),
    {
        let mut stopped = None;
        core::mem::swap(&mut stopped, &mut self.current);
        stopped
    }
}

/// Whether a recording runs, and for how long.
#[derive(Debug, Clone)]
pub struct RecordingStatus {
    pub is_recording: bool,
    pub duration_ms: Option<u64>,
}

/// Everything that a status display shows.
#[derive(Debug, Clone)]
pub struct AppStatus {
    pub recording_state: RecordingState,
    pub connection_status: ConnectionStatus,
    pub transcript: String,
    pub duration_ms: Option<u64>,
}

/// What a toggle of the recording does.
#[derive(Debug, Clone, Copy, PartialEq, Eq, Structural)]
pub enum ToggleAction {
    Start,
    Stop,
}

/// A toggle stops a running recording and starts one otherwise.
pub fn toggle_action(state: &AppState) -> (action: ToggleAction)
    ensures
        action == (if state.spec_is_recording() {
            ToggleAction::Stop
        } else {
            ToggleAction::Start
        }),
{
    if state.is_recording() {
        ToggleAction::Stop
    } else {
        ToggleAction::Start
    }
}

/// The answer to a toggle: the state of the recording at `now_ms`.
pub fn recording_status(state: &AppState, now_ms: u64) -> (status: RecordingStatus)
    ensures
        status.is_recording == state.spec_is_recording(),
        status.duration_ms == state.spec_recording_duration_ms(now_ms),
{
    RecordingStatus {
        is_recording: state.is_recording(),
        duration_ms: state.get_recording_duration_ms(now_ms),
    }
}

/// The status of the application at `now_ms`.
pub fn get_status(state: &AppState, now_ms: u64) -> (status: AppStatus)
    ensures
        status.recording_state == state.spec_recording_state(),
        status.connection_status == state.spec_connection_status(),
        status.transcript@ == state.spec_transcript(),
        status.duration_ms == state.spec_recording_duration_ms(now_ms),
{
    AppStatus {
        recording_state: state.get_recording_state(),
        connection_status: state.get_connection_status(),
        transcript: state.get_transcript(),
        duration_ms: state.get_recording_duration_ms(now_ms),
    }
}

/// A recording can start only with an API key. Without one it is a
/// configuration error.
pub fn check_can_start(settings: &AppSettings) -> (r: Result<(), AppError>)
    ensures
        settings.api_key@.len() > 0 ==> r is Ok,
        settings.api_key@.len() == 0 ==> (r matches Err(AppError::Config(detail)) && detail@
            == "API key not configured. Please set your ElevenLabs API key in settings."@),
{
    if settings.api_key.as_str().is_empty() {
        Err(
            AppError::Config(
                String::from_str(
                    "API key not configured. Please set your ElevenLabs API key in settings.",
                ),
            ),
        )
    } else {
        Ok(())
    }
}

/// Whether the target application still has to be found out before a
/// recording starts.
pub fn needs_target_app(state: &AppState) -> (b: bool)
    ensures
        b == (state.spec_target_app() is None),
{
    state.get_target_app().is_none()
}

/// Records that a recording has started at `now_ms`: the application is
/// recording and connected.
pub fn mark_recording_started(state: &mut AppState, now_ms: u64)
    ensures
        final(state).wf(),
        final(state).spec_is_recording(),
        final(state).spec_recording_state() == RecordingState::Recording,
        final(state).spec_recording_start_ms() == now_ms,
        final(state).spec_connection_status() == ConnectionStatus::Connected,
        final(state).spec_transcript() == old(state).spec_transcript(),
        final(state).spec_settings() == old(state).spec_settings(),
        final(state).spec_target_app() == old(state).spec_target_app(),
{
    state.set_recording(true, now_ms);
    state.set_connection_status(ConnectionStatus::Connected);
}

/// Records that the recording has stopped, and hands back the transcript of
/// the session. The target application is forgotten.
pub fn mark_recording_stopped(state: &mut AppState, now_ms: u64) -> (transcript: String)
    ensures
        final(state).wf(),
        !final(state).spec_is_recording(),
        final(state).spec_recording_state() == RecordingState::Idle,
        final(state).spec_connection_status() == ConnectionStatus::Disconnected,
        final(state).spec_target_app() is None,
        final(state).spec_transcript().len() == 0,
        final(state).spec_settings() == old(state).spec_settings(),
        transcript@ == old(state).spec_transcript(),
{
    state.set_recording(false, now_ms);
    state.set_connection_status(ConnectionStatus::Disconnected);
    state.set_target_app(None);
    state.take_transcript()
}

/// Whether a change of settings changes the shortcut, so that it has to be
/// registered anew.
pub fn hotkey_changed(old_settings: &AppSettings, new_settings: &AppSettings) -> (changed: bool)
    ensures
        changed == (old_settings.hotkey@ != new_settings.hotkey@),
{
    old_settings.hotkey != new_settings.hotkey
}

/// Takes a new shortcut into the settings if it can be parsed, and hands
/// back what it parses to. A shortcut that cannot be parsed changes nothing.
pub fn update_hotkey(state: &mut AppState, hotkey: String) -> (r: Result<Hotkey, AppError>)
    ensures
        final(state).spec_is_recording() == old(state).spec_is_recording(),
        final(state).spec_recording_state() == old(state).spec_recording_state(),
        final(state).spec_recording_start_ms() == old(state).spec_recording_start_ms(),
        final(state).spec_connection_status() == old(state).spec_connection_status(),
        final(state).spec_transcript() == old(state).spec_transcript(),
        final(state).spec_target_app() == old(state).spec_target_app(),
        r is Err ==> final(state).spec_settings() == old(state).spec_settings(),
        r is Ok ==> final(state).spec_settings() == (AppSettings {
            hotkey,
            ..old(state).spec_settings()
        }),
        match spec_parse(hotkey@) {
            Ok(parsed) => r == Ok::<Hotkey, AppError>(parsed),
            Err(text) => r matches Err(AppError::Config(detail)) && detail@ == text,
        },
{
    let parsed = parse_hotkey(hotkey.as_str());
    if parsed.is_ok() {
        state.set_hotkey(hotkey);
    }
    parsed
}

/// Replace the last `old_char_count` characters typed by `new_text`.
#[derive(Debug, Clone)]
pub struct Replacement {
    pub old_char_count: usize,
    pub new_text: String,
}

/// What follows from a transcript event.
#[derive(Debug, Clone)]
pub struct TranscriptUpdate {
    /// Name of the event to announce.
    pub event_name: &'static str,
    /// The transcript text to announce.
    pub payload: String,
    /// The change to make in the target application, if any.
    pub replacement: Option<Replacement>,
}

/// Remembers the partial transcript that is currently typed out, so that
/// the next one can replace it.
pub struct TranscriptTracker {
    last_partial_text: String,
}

impl TranscriptTracker {
    /// The partial transcript that is currently typed out.
    pub closed spec fn last_partial(&self) -> Seq<char> {
        self.last_partial_text@
    }

    pub fn new() -> (t: Self)
        ensures
            t.last_partial().len() == 0,
    {
        TranscriptTracker { last_partial_text: String::new() }
    }

    /// Takes in a transcript event.
    ///
    /// A partial transcript is announced, and replaces the one typed out
    /// before unless it is the same text. A committed transcript is added
    /// to the session's transcript with a space behind it, is announced,
    /// and replaces the partial typed out before, again with a space; after
    /// it no partial is typed out any more.
    pub fn handle(&mut self, state: &mut AppState, event: TranscriptEvent) -> (update:
        TranscriptUpdate)
        ensures
            final(state).spec_is_recording() == old(state).spec_is_recording(),
            final(state).spec_recording_state() == old(state).spec_recording_state(),
            final(state).spec_recording_start_ms() == old(state).spec_recording_start_ms(),
            final(state).spec_connection_status() == old(state).spec_connection_status(),
            final(state).spec_settings() == old(state).spec_settings(),
            final(state).spec_target_app() == old(state).spec_target_app(),
            match event {
                TranscriptEvent::Partial(text) => {
                    &&& update.event_name@ == EVENT_PARTIAL_TRANSCRIPT@
                    &&& update.payload@ == text@
                    &&& final(self).last_partial() == text@
                    &&& final(state).spec_transcript() == old(state).spec_transcript()
                    &&& text@ == old(self).last_partial() ==> update.replacement is None
                    &&& text@ != old(self).last_partial() ==> {
                        &&& update.replacement matches Some(r)
                        &&& r.old_char_count == old(self).last_partial().len()
                        &&& r.new_text@ == text@
                    }
                },
                TranscriptEvent::Committed(text) => {
                    &&& update.event_name@ == EVENT_TRANSCRIPT_UPDATE@
                    &&& update.payload@ == text@
                    &&& final(self).last_partial().len() == 0
                    &&& final(state).spec_transcript() == old(state).spec_transcript() + text@
                        + " "@
                    &&& update.replacement matches Some(r)
                    &&& r.old_char_count == old(self).last_partial().len()
                    &&& r.new_text@ == text@ + " "@
                },
            },
    {
        match event {
            TranscriptEvent::Partial(text) => {
                if text == self.last_partial_text {
                    return TranscriptUpdate {
                        event_name: EVENT_PARTIAL_TRANSCRIPT,
                        payload: text,
                        replacement: None,
                    };
                }
                let old_char_count = self.last_partial_text.as_str().unicode_len();
                let new_text = text.clone();
                self.last_partial_text = text.clone();
                TranscriptUpdate {
                    event_name: EVENT_PARTIAL_TRANSCRIPT,
                    payload: text,
                    replacement: Some(Replacement { old_char_count, new_text }),
                }
            },
            TranscriptEvent::Committed(text) => {
                state.append_transcript(text.as_str());
                state.append_transcript(" ");
                let old_char_count = self.last_partial_text.as_str().unicode_len();
                let mut new_text = text.clone();
                new_text.append(" ");
                self.last_partial_text = String::new();
                TranscriptUpdate {
                    event_name: EVENT_TRANSCRIPT_UPDATE,
                    payload: text,
                    replacement: Some(Replacement { old_char_count, new_text }),
                }
            },
        }
    }
}

} // verus!
