//! Push-to-talk core: the mute state machine, the hotkey registry with its
//! event routing, and the decisions that drive the virtual microphone on the
//! audio server. Every function here is pure; the surrounding program performs
//! the I/O that the returned values ask for.

pub mod app;
pub mod audio_server;
pub mod config;
pub mod engine;
pub mod error_message;
pub mod hotkey;
pub mod pulse;
pub mod recording;
pub mod text;
pub mod tray;
