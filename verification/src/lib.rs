//! Typed facade over a native video-conferencing SDK's audio-setting context.
//!
//! The native boundary itself (pointer accessors, the calls that talk to the
//! SDK) is performed by the layer that links the native library; this crate
//! holds and verifies every decision around it: gating operations on a
//! non-null context handle, translating native status codes into typed
//! results, mapping noise-suppression levels to their native codes, and
//! choosing a microphone from an enumerated device list by a driver
//! preference's marker substring.

pub mod audio_context;
pub mod status;
pub mod substring;

pub use audio_context::AudioContext;
pub use audio_context::find_microphone;
pub use audio_context::MicDriver;
pub use audio_context::MicList;
pub use audio_context::SupressBackgroundNoiseLevel;
pub use status::SdkError;
pub use status::SdkResult;
pub use status::status_to_result;
pub use substring::str_contains;
