//! Verified core of the Yap dictation runtime.
pub mod audio_ducking;
pub mod commands;
pub mod dictation;
pub mod dictation_laws;
pub mod local_whisper;
pub mod model_laws;
pub mod model_manager;
pub mod pipeline;
pub mod rpc;
pub mod sidecar;
pub mod speech;
pub mod text;
pub mod windows;
