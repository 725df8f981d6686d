//! Core logic of a desktop dictation utility: the audio resampling plan,
//! the decisions that drive a reference-counted foreign inference library
//! and its loader, backend selection and requests, the recording session,
//! and the transcription history.
pub mod audio;
pub mod bridge;
pub mod cloud;
pub mod download;
pub mod error;
pub mod history;
pub mod loader;
pub mod providers;
pub mod resample;
pub mod session;
pub mod settings;
pub mod text;
pub mod wav;
