//! Shared helpers: the error taxonomy, the switches of the command line,
//! the choice of a clipboard tool, text editing, paths and the wall clock.

pub mod cli;
pub mod clipboard;
pub mod clock;
pub mod error;
pub mod path;
pub mod text;
