//! Clean Up: the rules of a weekly cleaner of a temporary-files folder.
//!
//! Once a minute the cleaner reads the local clock and decides between three
//! things: to warn that the folder is about to be emptied, to empty it and
//! report what happened, or to do nothing. A tray icon with a single "Quit"
//! entry ends the program. This crate holds every decision of that program as
//! a function with a proved contract; deleting files, showing notifications
//! and running the tray's event loop are left to the program built on it.

pub mod cleanup;
pub mod clock;
pub mod notice;
pub mod scan;
pub mod schedule;
pub mod scheduler;
pub mod startup;
pub mod text;
pub mod tray;
