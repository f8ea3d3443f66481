//! Conditioning of captured audio: format negotiation, downmix, sample-rate
//! conversion and the framing of the noise suppressor.
//!
//! Sample values themselves are interpolated and denoised by the caller.
//! What is decided here is which samples go where.

pub mod capture;
pub mod denoise;

pub use capture::{CaptureConfig, OtherFormat, RecordingFlag, SampleFormat, SupportedConfig};
pub use denoise::{DENOISE_FRAME_SIZE, DENOISE_SAMPLE_RATE};
