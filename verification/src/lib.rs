//! Core of a desktop shell backend: a process-wide broadcast hub that lets
//! windows exchange text messages, a time-boxed window geometry animator,
//! and the decision rules of the window management commands.  The hosting
//! GUI framework supplies the actual windows and the event loop; this crate
//! holds the logic those commands run on.

pub mod animate;
mod channel;
pub mod hub;
pub mod windows;
