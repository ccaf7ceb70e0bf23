//! Core library of a voice-assistant pipeline: conversation state, retry
//! policy, request validation, HTTP response classification and credential
//! resolution, each with a verified contract. Transport, file I/O and the
//! GUI shell live outside the library and drive it through plain values.

pub mod config;
pub mod elevenlabs;
pub mod errors;
pub mod json;
pub mod openwebui;
pub mod pipeline;
pub mod retry;
pub mod state;
pub mod text;
pub mod whisper;
