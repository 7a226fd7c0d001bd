//! Native side of a dictation utility: it drives a small overlay window (the
//! "pill"), commits dictated text to the clipboard and asks the platform to
//! paste it into the application that had focus before.
//!
//! Every command is a short sequence of platform steps. The library decides
//! which step comes next and what each step's outcome means; the host runs
//! the steps against the window manager, the clipboard and the paste helper.

pub mod pill;
pub mod bridge;
pub mod greeting;
pub mod laws;
