//! A microphone capture bridge: a recording session over a platform capture
//! binding, producing one normalized waveform per start/stop cycle.
//!
//! The one supported format is mono, signed 16-bit PCM at 16 kHz
//! ([`config`]). A [`platform::PlatformStream`] is the operating system's
//! audio input; a [`binding::CaptureBinding`] adds handles, failure kinds
//! and the rule of one live stream; a [`recorder::AndroidAudioRecorder`]
//! runs the session on top of it, with its state in [`session`]. On stop
//! the raw samples become a [`waveform::Waveform`], each sample the exact
//! quotient by 32768 in the [`binary32`] format.

pub mod binary32;
pub mod binding;
pub mod config;
pub mod error;
pub mod platform;
pub mod recorder;
pub mod scripted;
pub mod session;
pub mod waveform;
