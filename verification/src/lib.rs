//! Core logic of a push-to-talk dictation tool: conditioning of captured
//! audio, the streaming transcription protocol, and incremental text updates.
//!
//! Everything here works on plain values. Devices, sockets, clocks and the
//! desktop are driven by the surrounding application, which feeds events in
//! and carries actions out.

pub mod arith;
pub mod audio;
pub mod commands;
pub mod error;
pub mod framing;
pub mod hotkey;
pub mod input;
pub mod state;
pub mod text;
pub mod transcriber;
pub mod tray;

pub use error::AppError;
pub use input::{InsertResult, TextDiff};
pub use state::{create_app_state, AppSettings, AppState};
