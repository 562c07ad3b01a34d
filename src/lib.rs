//! Decisions of a desktop shell's window command: show the window, then give
//! it focus, and reply with success or with a message that names the failed
//! step and carries the cause.

pub mod show_window;
