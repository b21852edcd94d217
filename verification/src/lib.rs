//! An offline vault of time-based one-time-password credentials.
//!
//! The vault keeps an ordered list of named base32 secrets, derives the
//! current code of each, seals the list for storage with one long-lived
//! identity, and is driven by a small state machine over key events.
//!
//! The identity is the single point of total data loss: the sealed vault can
//! only be opened with the key it was sealed for, and no copy of that key is
//! kept anywhere else. Whoever loses the key file loses the vault.
//!
//! The library performs no input or output. Where an operation needs the
//! outside world (a file, the clipboard, the environment), it hands an
//! [`Action`](input::event::Action) to its host and is told the outcome
//! through a follow-up call.

pub mod auth_core;
pub mod input;
pub mod ui;
pub mod utils;

pub use auth_core::app::App;
pub use utils::error::{AuthError, AuthResult};
