//! The vault engine: code derivation, entries, sealing and the session's
//! state machine.

pub mod app;
pub mod crypto;
pub mod document;
pub mod entry;
pub mod totp;
