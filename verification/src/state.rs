//! What the application knows about itself: settings, whether it records,
//! and the transcript of the session so far.
//!
//! The state is a plain value. Whoever shares it between tasks guards it,
//! and whoever needs the time reads the clock and passes it in.

use vstd::prelude::*;
use vstd::string::StringExecFns;

verus! {

/// Settings that the user can change.
#[derive(Debug, Clone)]
pub struct AppSettings {
    pub api_key: String,
    pub language_code: String,
    pub sample_rate: u32,
    pub vad_enabled: bool,
    /// Silence after which the service commits a segment, in milliseconds.
    pub vad_silence_threshold_ms: u32,
    pub hotkey: String,
}

impl AppSettings {
    /// The settings before the user has changed any: no key yet, Chinese,
    /// 16 kHz, voice-activity commit after half a second of silence, and
    /// the shortcut `CommandOrControl+Shift+\`.
    pub open spec fn is_default(&self) -> bool {
        &&& self.api_key@.len() == 0
        &&& self.language_code@ == "zho"@
        &&& self.sample_rate == 16000
        &&& self.vad_enabled
        &&& self.vad_silence_threshold_ms == 500
        &&& self.hotkey@ == "CommandOrControl+Shift+\\"@
    }
}

impl Default for AppSettings {
    /// The settings before the user has changed any.
    fn default() -> (s: Self)
        ensures
            s.is_default(),
    {
        AppSettings {
            api_key: String::new(),
            language_code: String::from_str("zho"),
            sample_rate: 16000,
            vad_enabled: true,
            vad_silence_threshold_ms: 500,
            hotkey: String::from_str("CommandOrControl+Shift+\\"),
        }
    }
}

#[derive(Debug, Clone, Copy, PartialEq, Eq, Structural)]
pub enum RecordingState {
    Idle,
    Recording,
    Processing,
}

impl Default for RecordingState {
    fn default() -> (s: Self)
        ensures
            s == RecordingState::Idle,
    {
        RecordingState::Idle
    }
}

#[derive(Debug, Clone, Copy, PartialEq, Eq, Structural)]
pub enum ConnectionStatus {
    Disconnected,
    Connecting,
    Connected,
    Error,
}

impl Default for ConnectionStatus {
    fn default() -> (s: Self)
        ensures
            s == ConnectionStatus::Disconnected,
    {
        ConnectionStatus::Disconnected
    }
}

/// The state of the application.
pub struct AppState {
    recording_state: RecordingState,
    connection_status: ConnectionStatus,
    transcript_buffer: String,
    recording_start_ms: u64,
    is_recording: bool,
    settings: AppSettings,
    target_app: Option<String>,
}

/// The time between `start_ms` and `now_ms`, and zero if the clock went back.
pub open spec fn elapsed_ms(start_ms: u64, now_ms: u64) -> u64 {
    if now_ms >= start_ms {
        (now_ms - start_ms) as u64
    } else {
        0
    }
}

impl AppState {
    pub closed spec fn spec_is_recording(&self) -> bool {
        self.is_recording
    }

    pub closed spec fn spec_recording_state(&self) -> RecordingState {
        self.recording_state
    }

    pub closed spec fn spec_connection_status(&self) -> ConnectionStatus {
        self.connection_status
    }

    pub closed spec fn spec_transcript(&self) -> Seq<char> {
        self.transcript_buffer@
    }

    /// When the current recording started, in milliseconds since the epoch.
    pub closed spec fn spec_recording_start_ms(&self) -> u64 {
        self.recording_start_ms
    }

    pub closed spec fn spec_settings(&self) -> AppSettings {
        self.settings
    }

    pub closed spec fn spec_target_app(&self) -> Option<String> {
        self.target_app
    }

    /// The flag and the state agree on whether a recording is running.
    pub open spec fn wf(&self) -> bool {
        self.spec_is_recording() <==> self.spec_recording_state() == RecordingState::Recording
    }

    /// The length of the running recording at `now_ms`, if one is running
    /// and its start is known.
    pub open spec fn spec_recording_duration_ms(&self, now_ms: u64) -> Option<u64> {
        if self.spec_is_recording() && self.spec_recording_start_ms() > 0 {
            Some(elapsed_ms(self.spec_recording_start_ms(), now_ms))
        } else {
            None
        }
    }

    /// The state of an application that has just started: idle and
    /// disconnected, nothing transcribed, no recording begun, no target
    /// application, and the default settings.
    pub open spec fn is_fresh(&self) -> bool {
        &&& self.wf()
        &&& !self.spec_is_recording()
        &&& self.spec_recording_state() == RecordingState::Idle
        &&& self.spec_connection_status() == ConnectionStatus::Disconnected
        &&& self.spec_transcript().len() == 0
        &&& self.spec_recording_start_ms() == 0
        &&& self.spec_target_app() is None
        &&& self.spec_settings().is_default()
    }

    /// Idle and disconnected, with default settings and nothing transcribed.
    pub fn new() -> (s: Self)
        ensures
            s.is_fresh(),
    {
        AppState {
            recording_state: RecordingState::Idle,
            connection_status: ConnectionStatus::Disconnected,
            transcript_buffer: String::new(),
            recording_start_ms: 0,
            is_recording: false,
            settings: AppSettings::default(),
            target_app: None,
        }
    }

    pub fn is_recording(&self) -> (b: bool)
        ensures
            b == self.spec_is_recording(),
    {
        self.is_recording
    }

    /// Starts or ends a recording. A start at `now_ms` is remembered as the
    /// beginning of the recording.
    pub fn set_recording(&mut self, recording: bool, now_ms: u64)
        ensures
            final(self).wf(),
            final(self).spec_is_recording() == recording,
            final(self).spec_recording_state() == (if recording {
                RecordingState::Recording
            } else {
                RecordingState::Idle
            }),
            final(self).spec_recording_start_ms() == (if recording {
                now_ms
            } else {
                old(self).spec_recording_start_ms()
            }),
            final(self).spec_connection_status() == old(self).spec_connection_status(),
            final(self).spec_transcript() == old(self).spec_transcript(),
            final(self).spec_settings() == old(self).spec_settings(),
            final(self).spec_target_app() == old(self).spec_target_app(),
    {
        self.is_recording = recording;
        if recording {
            self.recording_start_ms = now_ms;
            self.recording_state = RecordingState::Recording;
        } else {
            self.recording_state = RecordingState::Idle;
        }
    }

    pub fn get_recording_state(&self) -> (s: RecordingState)
        ensures
            s == self.spec_recording_state(),
    {
        self.recording_state
    }

    pub fn set_connection_status(&mut self, status: ConnectionStatus)
        ensures
            final(self).spec_connection_status() == status,
            final(self).spec_is_recording() == old(self).spec_is_recording(),
            final(self).spec_recording_state() == old(self).spec_recording_state(),
            final(self).spec_recording_start_ms() == old(self).spec_recording_start_ms(),
            final(self).spec_transcript() == old(self).spec_transcript(),
            final(self).spec_settings() == old(self).spec_settings(),
            final(self).spec_target_app() == old(self).spec_target_app(),
    {
        self.connection_status = status;
    }

    pub fn get_connection_status(&self) -> (s: ConnectionStatus)
        ensures
            s == self.spec_connection_status(),
    {
        self.connection_status
    }

    /// Adds `text` at the end of the transcript.
    pub fn append_transcript(&mut self, text: &str)
        ensures
            final(self).spec_transcript() == old(self).spec_transcript() + text@,
            final(self).spec_is_recording() == old(self).spec_is_recording(),
            final(self).spec_recording_state() == old(self).spec_recording_state(),
            final(self).spec_recording_start_ms() == old(self).spec_recording_start_ms(),
            final(self).spec_connection_status() == old(self).spec_connection_status(),
            final(self).spec_settings() == old(self).spec_settings(),
            final(self).spec_target_app() == old(self).spec_target_app(),
    {
        self.transcript_buffer.append(text);
    }

    pub fn get_transcript(&self) -> (t: String)
        ensures
            t@ == self.spec_transcript(),
    {
        self.transcript_buffer.clone()
    }

    /// Hands the transcript out and leaves an empty one behind.
    pub fn take_transcript(&mut self) -> (t: String)
        ensures
            t@ == old(self).spec_transcript(),
            final(self).spec_transcript().len() == 0,
            final(self).spec_is_recording() == old(self).spec_is_recording(),
            final(self).spec_recording_state() == old(self).spec_recording_state(),
            final(self).spec_recording_start_ms() == old(self).spec_recording_start_ms(),
            final(self).spec_connection_status() == old(self).spec_connection_status(),
            final(self).spec_settings() == old(self).spec_settings(),
            final(self).spec_target_app() == old(self).spec_target_app(),
    {
        let mut taken = String::new();
        core::mem::swap(&mut taken, &mut self.transcript_buffer);
        taken
    }

    pub fn clear_transcript(&mut self)
        ensures
            final(self).spec_transcript().len() == 0,
            final(self).spec_is_recording() == old(self).spec_is_recording(),
            final(self).spec_recording_state() == old(self).spec_recording_state(),
            final(self).spec_recording_start_ms() == old(self).spec_recording_start_ms(),
            final(self).spec_connection_status() == old(self).spec_connection_status(),
            final(self).spec_settings() == old(self).spec_settings(),
            final(self).spec_target_app() == old(self).spec_target_app(),
    {
        self.transcript_buffer = String::new();
    }

    /// How long the running recording has lasted at `now_ms`. There is no
    /// answer while nothing is recorded or the start is unknown.
    pub fn get_recording_duration_ms(&self, now_ms: u64) -> (d: Option<u64>)
        ensures
            d == self.spec_recording_duration_ms(now_ms),
    {
        if self.is_recording {
            let start = self.recording_start_ms;
            if start > 0 {
                Some(now_ms.saturating_sub(start))
            } else {
                None
            }
        } else {
            None
        }
    }

    pub fn get_settings(&self) -> (s: &AppSettings)
        ensures
            *s == self.spec_settings(),
    {
        &self.settings
    }

    pub fn update_settings(&mut self, new_settings: AppSettings)
        ensures
            final(self).spec_settings() == new_settings,
            final(self).spec_is_recording() == old(self).spec_is_recording(),
            final(self).spec_recording_state() == old(self).spec_recording_state(),
            final(self).spec_recording_start_ms() == old(self).spec_recording_start_ms(),
            final(self).spec_connection_status() == old(self).spec_connection_status(),
            final(self).spec_transcript() == old(self).spec_transcript(),
            final(self).spec_target_app() == old(self).spec_target_app(),
    {
        self.settings = new_settings;
    }

    /// Changes the shortcut in the settings, and nothing else.
    pub fn set_hotkey(&mut self, hotkey: String)
        ensures
            final(self).spec_settings() == (AppSettings { hotkey, ..old(self).spec_settings() }),
            final(self).spec_is_recording() == old(self).spec_is_recording(),
            final(self).spec_recording_state() == old(self).spec_recording_state(),
            final(self).spec_recording_start_ms() == old(self).spec_recording_start_ms(),
            final(self).spec_connection_status() == old(self).spec_connection_status(),
            final(self).spec_transcript() == old(self).spec_transcript(),
            final(self).spec_target_app() == old(self).spec_target_app(),
    {
        self.settings.hotkey = hotkey;
    }

    /// Remembers the application that text is to be inserted into.
    pub fn set_target_app(&mut self, app_name: Option<String>)
        ensures
            final(self).spec_target_app() == app_name,
            final(self).spec_is_recording() == old(self).spec_is_recording(),
            final(self).spec_recording_state() == old(self).spec_recording_state(),
            final(self).spec_recording_start_ms() == old(self).spec_recording_start_ms(),
            final(self).spec_connection_status() == old(self).spec_connection_status(),
            final(self).spec_transcript() == old(self).spec_transcript(),
            final(self).spec_settings() == old(self).spec_settings(),
    {
        self.target_app = app_name;
    }

    pub fn get_target_app(&self) -> (a: Option<String>)
        ensures
            a == self.spec_target_app(),
    {
        match &self.target_app {
            Some(name) => Some(name.clone()),
            None => None,
        }
    }
}

impl Default for AppState {
    fn default() -> (s: Self)
        ensures
            s.is_fresh(),
    {
        AppState::new()
    }
}

/// A fresh application state.
pub fn create_app_state() -> (s: AppState)
    ensures
        s.is_fresh(),
{
    AppState::new()
}

} // verus!
