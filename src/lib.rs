//! Core of a scrollable console panel: a bounded line log with a viewport,
//! a command interpreter that edits it, and the consumer side of the channel
//! through which background tasks hand it new lines.

pub mod buffer;
pub mod clock;
pub mod command;
pub mod console;
pub mod message;
pub mod text;
