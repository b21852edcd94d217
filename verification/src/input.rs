//! What reaches the session from the terminal, and what it asks of its host.

pub mod event;
pub mod mouse;
