//! Core of a desktop dictation tool: the request/response protocol between a
//! short-lived client and a long-lived transcription daemon over a local
//! socket, the daemon's per-connection handling, the client-side fallback
//! state machine used when no daemon is reachable, the recording lifecycle
//! tracker, the process supervisor that starts and tears down the daemon from
//! a tray process, and the tray state machine.

pub mod audio;
pub mod client;
pub mod config;
pub mod daemon;
pub mod protocol;
pub mod recording;
pub mod strutil;
pub mod supervisor;
pub mod transcript;
pub mod tray;
pub mod typing;
