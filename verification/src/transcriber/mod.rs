//! The streaming transcription protocol: its messages and the client's rules.

pub mod client;
pub mod decode;
pub mod message;
pub mod session;
pub mod upload;

pub use client::{TranscriberClient, TranscriptEvent};
