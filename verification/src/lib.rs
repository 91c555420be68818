//! Verified core of the rdl-tray clipboard companion: URL extraction from
//! clipboard text, the tray's message-handling state machine, the token
//! decoding shared with the `rdl` CLI configuration, and the UTF-16 buffers
//! handed to the Win32 shell.

pub mod clipboard;
pub mod config;
pub mod error;
pub mod text;
pub mod tray_state;
pub mod wide;
