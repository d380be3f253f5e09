//! Decision logic of a push-to-talk dictation daemon: what to capture, what to
//! send to the transcription service, and how to inject the returned text.

pub mod api;
pub mod audio;
pub mod capture;
pub mod config;
pub mod cues;
pub mod injector;
pub mod job;
pub mod keys;
pub mod text;
pub mod trace;
